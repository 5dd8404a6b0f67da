//! The chip controller: initialization, power and field modes, single-shot
//! measurements, calibration, and the accumulated interrupt bitmap.

use vstd::prelude::*;

use crate::commands::Command;
use crate::interface::{Interface, IrqPin, Timer};
use crate::interrupts::{Interrupt, irq_set};
use crate::regs::RegValue;
use crate::regs;
use crate::{Error, Mode, St25r39};

verus! {

/// Every bounded wait in the driver expires after this many milliseconds.
pub const DEFAULT_TIMEOUT_MS: u64 = 500;

/// An error of `field_on`: beside the controller errors, the field may stay
/// off because another device is already emitting its own field.
#[derive(Debug, Clone, Copy, PartialEq, Eq)]
pub enum FieldOnError<T> {
    /// Another initiator's field was detected; ours was not enabled.  The
    /// caller may back off and retry.
    FieldCollision,
    /// The bus transport failed.
    Interface(T),
    /// A bounded wait expired.
    Timeout,
}

impl<T> FieldOnError<T> {
    /// Wraps a controller error; never yields `FieldCollision`.
    pub fn from_error(e: Error<T>) -> (r: Self)
        ensures
            !(r matches FieldOnError::FieldCollision),
            (e matches Error::Timeout) ==> (r matches FieldOnError::Timeout),
            (e matches Error::Interface(_)) ==> (r matches FieldOnError::Interface(_)),
    {
        match e {
            Error::Interface(x) => FieldOnError::Interface(x),
            Error::Timeout => FieldOnError::Timeout,
            Error::Calibration => FieldOnError::Timeout,
        }
    }
}

/// Once one bit of the accumulated bitmap is set, OR-ing more bytes in never
/// clears it.
proof fn lemma_or_keeps_bits(a: u32, x: u32)
    ensures
        forall|m: u32| a & m != 0 ==> (a | x) & m != 0,
{
    assert(forall|m: u32| a & m != 0 ==> (a | x) & m != 0) by (bit_vector);
}


/// The no-response timer's step selection and count for a timeout in
/// carrier cycles: steps of 64/fc whenever the rounded-up count fits in 16
/// bits, else steps of 4096/fc with the count saturated at its maximum.
pub fn nrt_counts(timeout_1fc: u32) -> (r: (bool, u16))
    ensures
        r.0 == ((timeout_1fc + 63) / 64 > 0xFFFF),
        !r.0 ==> r.1 == (timeout_1fc + 63) / 64,
        r.0 ==> r.1 == if (timeout_1fc + 4095) / 4096 > 0xFFFF {
            0xFFFFu16
        } else {
            ((timeout_1fc + 4095) / 4096) as u16
        },
{
    let small: u64 = ((timeout_1fc as u64) + 63) / 64;
    if small <= 0xFFFF {
        (false, small as u16)
    } else {
        let large: u64 = ((timeout_1fc as u64) + 4095) / 4096;
        if large > 0xFFFF {
            (true, 0xFFFF)
        } else {
            (true, large as u16)
        }
    }
}

/// Converts a supply-voltage ADC code to millivolts: 23.4 mV per step,
/// rounded to the nearest millivolt.
pub fn vdd_millivolts(code: u8) -> (r: u32)
    ensures
        r == (code * 234 + 5) / 10,
{
    ((code as u32) * 234 + 5) / 10
}

/// One poll of the capacitive-calibration display register: a set error
/// flag is an unrecoverable hardware fault; otherwise a set ended flag
/// completes the calibration with the displayed value; otherwise the poll
/// goes on.
pub fn calibration_step<T>(res: regs::CapSensorDisp) -> (r: Option<Result<u8, Error<T>>>)
    ensures
        ((res.0 >> 1) & 1) != 0 ==> r == Some(Result::<u8, Error<T>>::Err(Error::Calibration)),
        (((res.0 >> 1) & 1) == 0 && ((res.0 >> 2) & 1) != 0) ==> r == Some(
            Result::<u8, Error<T>>::Ok((res.0 >> 3) & 31),
        ),
        (((res.0 >> 1) & 1) == 0 && ((res.0 >> 2) & 1) == 0) ==> r is None,
{
    if res.cs_cal_err() {
        Some(Err(Error::Calibration))
    } else if res.cs_cal_end() {
        Some(Ok(res.cs_cal_val()))
    } else {
        None
    }
}

impl<I: Interface, P: IrqPin, T: Timer> St25r39<I, P, T> {
    /// Builds the controller around its bus, interrupt line and clock, and
    /// runs the power-up initialization sequence.  On success the controller
    /// is in `On` mode.
    pub fn new(iface: I, irq: P, timer: T) -> (r: Result<Self, Error<I::Error>>)
        ensures
            r matches Ok(c) ==> c.current_mode() == Mode::On,
            r matches Err(e) ==> !(e matches Error::Calibration),
    {
        let mut this = Self { iface, irq, timer, irqs: 0, mode: Mode::On };
        match this.init() {
            Ok(()) => Ok(this),
            Err(e) => Err(e),
        }
    }

    /// Issues a direct command.
    pub fn cmd(&mut self, cmd: Command) -> (r: Result<(), Error<I::Error>>)
        ensures
            final(self).current_mode() == old(self).current_mode(),
            final(self).irq_bits() == old(self).irq_bits(),
            r matches Err(e) ==> e matches Error::Interface(_),
    {
        match self.iface.do_command(cmd.code()) {
            Ok(()) => Ok(()),
            Err(e) => Err(Error::Interface(e)),
        }
    }

    /// Clears pending interrupts, issues the command, and waits (bounded)
    /// for the direct-command-terminated interrupt.
    fn cmd_wait(&mut self, cmd: Command) -> (r: Result<(), Error<I::Error>>)
        ensures
            final(self).current_mode() == old(self).current_mode(),
            r matches Ok(()) ==> irq_set(final(self).irq_bits(), Interrupt::Dct),
            r matches Err(e) ==> !(e matches Error::Calibration),
    {
        self.irq_clear()?;
        self.cmd(cmd)?;
        self.irq_wait(Interrupt::Dct)
    }

    /// Enables the oscillator and spins until the chip reports it stable.
    /// No timeout applies: the oscillator is guaranteed to start, so the
    /// spin is accepted by design.
    #[verifier::loop_isolation(false)]
    fn enable_osc(&mut self) -> (r: Result<(), Error<I::Error>>)
        ensures
            final(self).current_mode() == old(self).current_mode(),
            r matches Err(e) ==> !(e matches Error::Calibration),
    {
        let ghost m0 = self.mode;
        let mut w = regs::OpControl::from_bits(0);
        w.set_en(true);
        regs::Regs::new().op_control().write_value(&mut self.iface, w)?;
        // The spin has no deadline by design: the oscillator is guaranteed
        // to start.  The counter only bounds the loop far beyond any
        // physical wait.
        let mut spins: u64 = 0;
        loop
            invariant
                self.current_mode() == m0,
            decreases u64::MAX - spins,
        {
            let d = regs::Regs::new().aux_display().read(&mut self.iface)?;
            if d.osc_ok() {
                break;
            }
            if spins == u64::MAX {
                return Err(Error::Timeout);
            }
            spins = spins + 1;
        }
        Ok(())
    }

    /// The power-up sequence: reset to defaults, read the identity register,
    /// start the oscillator, pick the analog supply profile from the
    /// measured supply voltage, silence the clock output, enable external
    /// field detection, and run the regulator adjustment.
    fn init(&mut self) -> (r: Result<(), Error<I::Error>>)
        ensures
            final(self).current_mode() == old(self).current_mode(),
            r matches Err(e) ==> !(e matches Error::Calibration),
    {
        self.cmd(Command::SetDefault)?;

        let _id = regs::Regs::new().ic_identity().read(&mut self.iface)?;

        self.enable_osc()?;

        let vdd_mv = self.measure_vdd()?;

        let sup3v = vdd_mv < 3600;
        if sup3v {
            let mut w = regs::IoConf2::from_bits(0);
            w.set_sup_3v(true);
            regs::Regs::new().io_conf2().write_value(&mut self.iface, w)?;
        }

        let mut w1 = regs::IoConf1::from_bits(0);
        w1.set_out_cl(regs::IoConf1OutCl::disabled());
        w1.set_lf_clk_off(true);
        w1.set_osc(true);
        regs::Regs::new().io_conf1().write_value(&mut self.iface, w1)?;

        let mut aux = regs::Regs::new().aux().read(&mut self.iface)?;
        aux.set_en_fd(true);
        regs::Regs::new().aux().write_value(&mut self.iface, aux)?;

        let mut rs = regs::RegulatorVoltControl::from_bits(0);
        rs.set_reg_s(true);
        regs::Regs::new().regulator_volt_control().write_value(&mut self.iface, rs)?;
        rs.set_reg_s(false);
        regs::Regs::new().regulator_volt_control().write_value(&mut self.iface, rs)?;

        self.cmd_wait(Command::AdjustRegulators)?;

        let _res = regs::Regs::new().regulator_and_tim_disp().read(&mut self.iface)?;

        Ok(())
    }

    /// Measures the supply voltage and converts the raw code at 23.4 mV per
    /// step, rounded; the result is at most 5967 mV.
    fn measure_vdd(&mut self) -> (r: Result<u32, Error<I::Error>>)
        ensures
            final(self).current_mode() == old(self).current_mode(),
            r matches Ok(mv) ==> mv <= 5967,
            r matches Err(e) ==> !(e matches Error::Calibration),
    {
        let mut w = regs::RegulatorVoltControl::from_bits(0);
        w.set_mpsv(0);
        regs::Regs::new().regulator_volt_control().write_value(&mut self.iface, w)?;

        self.cmd_wait(Command::MeasureVdd)?;
        let code = regs::Regs::new().ad_result().read(&mut self.iface)?;

        Ok(vdd_millivolts(code))
    }

    /// Measures signal amplitude via a single-shot command.
    pub fn measure_amplitude(&mut self) -> (r: Result<u8, Error<I::Error>>)
        ensures
            final(self).current_mode() == old(self).current_mode(),
    {
        self.cmd_wait(Command::MeasureAmplitude)?;
        regs::Regs::new().ad_result().read(&mut self.iface)
    }

    /// Measures signal phase via a single-shot command.
    pub fn measure_phase(&mut self) -> (r: Result<u8, Error<I::Error>>)
        ensures
            final(self).current_mode() == old(self).current_mode(),
    {
        self.cmd_wait(Command::MeasurePhase)?;
        regs::Regs::new().ad_result().read(&mut self.iface)
    }

    /// Measures the capacitive sensor via a single-shot command.
    pub fn measure_capacitance(&mut self) -> (r: Result<u8, Error<I::Error>>)
        ensures
            final(self).current_mode() == old(self).current_mode(),
    {
        self.cmd_wait(Command::MeasureCapacitance)?;
        regs::Regs::new().ad_result().read(&mut self.iface)
    }

    /// Runs the automatic capacitive-sensor calibration and returns the
    /// calibrated value.  The completion flag is polled against a deadline
    /// (the calibration interrupt fires only in a different operating mode);
    /// a never-setting flag yields `Timeout`, and a set error flag is an
    /// unrecoverable hardware fault, reported as `Calibration`, never `Ok`.
    #[verifier::loop_isolation(false)]
    pub fn calibrate_capacitance(&mut self) -> (r: Result<u8, Error<I::Error>>)
        ensures
            final(self).current_mode() == old(self).current_mode(),
    {
        let ghost m0 = self.mode;
        let mut w = regs::CapSensorControl::from_bits(0);
        // All-zero manual calibration values select automatic calibration;
        // gain 0b01 is 6.5 V/pF, the highest.
        w.set_cs_mcal(0);
        w.set_cs_g(0b01);
        regs::Regs::new().cap_sensor_control().write_value(&mut self.iface, w)?;

        // Not `cmd_wait`: the interrupt only fires in Ready mode.  Poll the
        // calibration-ended flag instead.
        self.cmd(Command::CalibrateCSensor)?;

        let now = self.timer.now_ms();
        let deadline = now.saturating_add(DEFAULT_TIMEOUT_MS);

        let mut spins: u64 = 0;
        loop
            invariant
                self.current_mode() == m0,
            decreases u64::MAX - spins,
        {
            if self.timer.now_ms() > deadline || spins == u64::MAX {
                return Err(Error::Timeout);
            }
            spins = spins + 1;

            let res = regs::Regs::new().cap_sensor_result().read(&mut self.iface)?;
            match calibration_step(res) {
                Some(outcome) => {
                    return outcome;
                }
                None => (),
            }

            self.timer.yield_now();
        }
    }

    /// Enters `On` mode: restarts the oscillator, re-enables external field
    /// detection and sets the tx driver resistance to its nominal value.
    /// Idempotent; the mode is `On` on every exit path.
    pub fn mode_on(&mut self) -> (r: Result<(), Error<I::Error>>)
        ensures
            final(self).current_mode() == Mode::On,
    {
        self.mode = Mode::On;
        self.enable_osc()?;

        let mut aux = regs::Regs::new().aux().read(&mut self.iface)?;
        aux.set_en_fd(true);
        regs::Regs::new().aux().write_value(&mut self.iface, aux)?;

        let mut rfo = regs::RfoAmLevelDef::from_bits(0);
        rfo.set_d5(true);
        regs::Regs::new().rfo_normal_level_def().write_value(&mut self.iface, rfo)?;

        Ok(())
    }

    /// Enters `Off` mode, the canonical safe state: stops all activity and
    /// zeroes the operation-control register, disabling the whole analog
    /// front-end.  Idempotent; the mode is `Off` on every exit path.
    pub fn mode_off(&mut self) -> (r: Result<(), Error<I::Error>>)
        ensures
            final(self).current_mode() == Mode::Off,
    {
        self.mode = Mode::Off;
        self.cmd(Command::Stop)?;
        regs::Regs::new().op_control().write_value(&mut self.iface, regs::OpControl::from_bits(0))?;
        Ok(())
    }

    /// Turns the RF field off by returning to `Off` mode.
    pub fn field_off(&mut self) -> (r: Result<(), Error<I::Error>>)
        ensures
            final(self).current_mode() == Mode::Off,
    {
        self.mode_off()
    }

    /// Returns to `Off` mode and sets the tx driver outputs to high
    /// impedance.
    pub fn driver_hi_z(&mut self) -> (r: Result<(), Error<I::Error>>)
        ensures
            final(self).current_mode() == Mode::Off,
    {
        self.mode_off()?;
        regs::Regs::new().rfo_normal_level_def().write_value(&mut self.iface, regs::RfoAmLevelDef::from_bits(0xff))?;
        Ok(())
    }

    /// Turns the RF field on: configures OOK modulation at the fixed AM
    /// depth and 106 kb/s in both directions, clears interrupts, issues the
    /// initial RF collision avoidance command, then polls the refreshed
    /// bitmap until either a field collision (the field stays off, tx and rx
    /// stay disabled) or avoidance completion (tx and rx are enabled) is
    /// observed.  No timeout applies to the poll by design.
    pub fn field_on(&mut self) -> (r: Result<(), FieldOnError<I::Error>>)
        ensures
            final(self).current_mode() == old(self).current_mode(),
            r matches Ok(()) ==> irq_set(final(self).irq_bits(), Interrupt::Cat) && !irq_set(
                final(self).irq_bits(),
                Interrupt::Cac,
            ),
            r matches Err(FieldOnError::FieldCollision)
                ==> irq_set(final(self).irq_bits(), Interrupt::Cac),
            r matches Err(FieldOnError::Timeout) ==> !irq_set(final(self).irq_bits(), Interrupt::Cac)
                && !irq_set(final(self).irq_bits(), Interrupt::Cat),
    {
        let ghost m0 = self.mode;

        let mut md = regs::Mode::from_bits(0);
        md.set_om(regs::ModeOm::ini_iso14443a());
        match regs::Regs::new().mode().write_value(&mut self.iface, md) {
            Ok(()) => (),
            Err(e) => return Err(FieldOnError::from_error(e)),
        }

        // OOK modulation.
        let mut aux = regs::Aux::from_bits(0);
        aux.set_tr_am(false);
        match regs::Regs::new().aux().write_value(&mut self.iface, aux) {
            Ok(()) => (),
            Err(e) => return Err(FieldOnError::from_error(e)),
        }

        // AM modulation depth 12.3%.
        let mut amd = regs::AmModDepthCtrl::from_bits(0);
        amd.set_am_s(false);
        amd.set_modd(0b010010);
        match regs::Regs::new().am_mod_depth_ctrl().write_value(&mut self.iface, amd) {
            Ok(()) => (),
            Err(e) => return Err(FieldOnError::from_error(e)),
        }

        // 106 kb/s in both directions.
        let mut br = regs::BitRate::from_bits(0);
        br.set_rxrate(regs::BitRateE::_106());
        br.set_txrate(regs::BitRateE::_106());
        match regs::Regs::new().bit_rate().write_value(&mut self.iface, br) {
            Ok(()) => (),
            Err(e) => return Err(FieldOnError::from_error(e)),
        }

        // ISO14443A settings at their defaults.
        match regs::Regs::new().iso14443a_nfc().write_value(&mut self.iface, regs::Iso14443ANfc::from_bits(0)) {
            Ok(()) => (),
            Err(e) => return Err(FieldOnError::from_error(e)),
        }

        match self.irq_clear() {
            Ok(()) => (),
            Err(e) => return Err(FieldOnError::from_error(e)),
        }
        match self.cmd(Command::InitialRfCollision) {
            Ok(()) => (),
            Err(e) => return Err(FieldOnError::from_error(e)),
        }

        // The poll has no deadline by design; the counter only bounds the
        // loop far beyond any physical wait.  A collision outranks a
        // simultaneously observed completion.
        let mut spins: u64 = 0;
        loop
            invariant
                self.current_mode() == m0,
                m0 == old(self).current_mode(),
            ensures
                irq_set(self.irq_bits(), Interrupt::Cat),
                !irq_set(self.irq_bits(), Interrupt::Cac),
            decreases u64::MAX - spins,
        {
            if self.irq(Interrupt::Cac) {
                return Err(FieldOnError::FieldCollision);
            }
            if self.irq(Interrupt::Cat) {
                break;
            }
            if spins == u64::MAX {
                return Err(FieldOnError::Timeout);
            }
            spins = spins + 1;

            match self.irq_update() {
                Ok(()) => (),
                Err(e) => return Err(FieldOnError::from_error(e)),
            }
        }

        let mut op = match regs::Regs::new().op_control().read(&mut self.iface) {
            Ok(v) => v,
            Err(e) => return Err(FieldOnError::from_error(e)),
        };
        op.set_tx_en(true);
        op.set_rx_en(true);
        match regs::Regs::new().op_control().write_value(&mut self.iface, op) {
            Ok(()) => (),
            Err(e) => return Err(FieldOnError::from_error(e)),
        }

        Ok(())
    }

    /// Whether the interrupt's bit is set in the accumulated bitmap.  The
    /// bitmap is stale until `irq_update` refreshes it.
    pub fn irq(&self, irq: Interrupt) -> (r: bool)
        ensures
            r == irq_set(self.irq_bits(), irq),
    {
        (self.irqs & (1u32 << irq.bit())) != 0
    }

    /// Polls the refreshed bitmap until the interrupt is observed or
    /// `timeout_ms` expires.
    #[verifier::loop_isolation(false)]
    pub fn irq_wait_timeout(&mut self, irq: Interrupt, timeout_ms: u64) -> (r: Result<
        (),
        Error<I::Error>,
    >)
        ensures
            final(self).current_mode() == old(self).current_mode(),
            r matches Ok(()) ==> irq_set(final(self).irq_bits(), irq),
            r matches Err(Error::Timeout) ==> !irq_set(final(self).irq_bits(), irq),
            r matches Err(e) ==> !(e matches Error::Calibration),
    {
        let ghost m0 = self.mode;
        let now = self.timer.now_ms();
        let deadline = now.saturating_add(timeout_ms);
        self.irq_update()?;
        let mut spins: u64 = 0;
        while !self.irq(irq)
            invariant
                self.current_mode() == m0,
            decreases u64::MAX - spins,
        {
            if self.timer.now_ms() > deadline || spins == u64::MAX {
                return Err(Error::Timeout);
            }
            spins = spins + 1;
            self.timer.yield_now();
            self.irq_update()?;
        }
        Ok(())
    }

    /// Polls for the interrupt under the default timeout.
    pub fn irq_wait(&mut self, irq: Interrupt) -> (r: Result<(), Error<I::Error>>)
        ensures
            final(self).current_mode() == old(self).current_mode(),
            r matches Ok(()) ==> irq_set(final(self).irq_bits(), irq),
            r matches Err(Error::Timeout) ==> !irq_set(final(self).irq_bits(), irq),
            r matches Err(e) ==> !(e matches Error::Calibration),
    {
        self.irq_wait_timeout(irq, DEFAULT_TIMEOUT_MS)
    }

    /// Refreshes the accumulated bitmap by OR-ing in the three interrupt
    /// status registers.  Bits already accumulated are never cleared here.
    #[verifier::loop_isolation(false)]
    pub fn irq_update(&mut self) -> (r: Result<(), Error<I::Error>>)
        ensures
            final(self).current_mode() == old(self).current_mode(),
            forall|k: Interrupt|
                irq_set(old(self).irq_bits(), k) ==> irq_set(final(self).irq_bits(), k),
            r matches Err(e) ==> e matches Error::Interface(_),
    {
        let ghost m0 = self.mode;
        let ghost b0 = self.irqs;
        let mut i: u8 = 0;
        while i < 3
            invariant
                i <= 3,
                self.current_mode() == m0,
                forall|k: Interrupt| irq_set(b0, k) ==> irq_set(self.irq_bits(), k),
            decreases 3 - i,
        {
            let b = regs::Regs::new().irq_main(i).read(&mut self.iface)?;
            proof {
                lemma_or_keeps_bits(self.irqs, (b as u32) << ((i as u32) * 8));
            }
            self.irqs = self.irqs | ((b as u32) << ((i as u32) * 8));
            i += 1;
        }
        Ok(())
    }

    /// Reads (and thereby acknowledges) the pending interrupts, then clears
    /// the accumulated bitmap.
    pub fn irq_clear(&mut self) -> (r: Result<(), Error<I::Error>>)
        ensures
            final(self).current_mode() == old(self).current_mode(),
            r matches Ok(()) ==> final(self).irq_bits() == 0,
            r matches Err(e) ==> e matches Error::Interface(_),
    {
        self.irq_update()?;
        self.irqs = 0;
        Ok(())
    }

    /// Programs the three interrupt mask registers from the given 24-bit
    /// mask; a set mask bit silences its interrupt source.
    #[verifier::loop_isolation(false)]
    pub fn irq_set_mask(&mut self, mask: u32) -> (r: Result<(), Error<I::Error>>)
        ensures
            final(self).current_mode() == old(self).current_mode(),
            final(self).irq_bits() == old(self).irq_bits(),
    {
        let ghost m0 = self.mode;
        let ghost b0 = self.irqs;
        let mut i: u8 = 0;
        while i < 3
            invariant
                i <= 3,
                self.current_mode() == m0,
                self.irq_bits() == b0,
            decreases 3 - i,
        {
            let byte: u8 = ((mask >> ((i as u32) * 8)) & 0xff) as u8;
            regs::Regs::new().irq_mask(i).write_value(&mut self.iface, byte)?;
            i += 1;
        }
        Ok(())
    }

    /// Programs the no-response timer to at least `timeout_1fc` carrier
    /// cycles: the step (64/fc or 4096/fc) and count come from
    /// `nrt_counts`.
    pub fn set_nrt(&mut self, timeout_1fc: u32) -> (r: Result<(), Error<I::Error>>)
        ensures
            final(self).current_mode() == old(self).current_mode(),
            final(self).irq_bits() == old(self).irq_bits(),
            r matches Err(e) ==> e matches Error::Interface(_),
    {
        let (large_step, counts) = nrt_counts(timeout_1fc);

        let mut ctrl = regs::Regs::new().gpt_nrt_ctrl().read(&mut self.iface)?;
        ctrl.set_nrt_step(
            if large_step {
                regs::TimerEmvControlNrtStep::_4096_fc()
            } else {
                regs::TimerEmvControlNrtStep::_64_fc()
            },
        );
        regs::Regs::new().gpt_nrt_ctrl().write_value(&mut self.iface, ctrl)?;

        let hi: u8 = (counts >> 8) as u8;
        let lo: u8 = (counts & 0xff) as u8;
        regs::Regs::new().no_response_timer1().write_value(
            &mut self.iface,
            regs::NoResponseTimer1::from_bits(hi),
        )?;
        regs::Regs::new().no_response_timer2().write_value(&mut self.iface, lo)?;
        Ok(())
    }

    /// Busy-waits at least `ms` milliseconds on the time source, yielding
    /// between polls.
    #[verifier::loop_isolation(false)]
    pub fn delay_ms(&mut self, ms: u64)
        ensures
            final(self).current_mode() == old(self).current_mode(),
            final(self).irq_bits() == old(self).irq_bits(),
    {
        let now = self.timer.now_ms();
        let end = now.saturating_add(ms);
        let mut spins: u64 = 0;
        loop
            invariant
                self.current_mode() == old(self).current_mode(),
                self.irq_bits() == old(self).irq_bits(),
            decreases u64::MAX - spins,
        {
            if self.timer.now_ms() >= end || spins == u64::MAX {
                break;
            }
            spins = spins + 1;
            self.timer.yield_now();
        }
    }

    /// Suspends the calling flow until the interrupt line's next rising
    /// edge: the wake-up subsystem's deliberately unbounded sleep.
    pub fn wait_for_irq_edge(&mut self)
        ensures
            final(self).current_mode() == old(self).current_mode(),
            final(self).irq_bits() == old(self).irq_bits(),
    {
        self.irq.wait_for_high();
    }
}

} // verus!
