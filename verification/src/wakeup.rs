//! The low-power card-presence wake-up subsystem: its configuration, the
//! non-linear encoding of the wake-up period, and the entry into wake-up
//! mode.

use vstd::prelude::*;

use crate::commands::Command;
use crate::interface::{Interface, IrqPin, Timer};
use crate::interrupts::Interrupt;
use crate::regs::RegValue;
use crate::regs;
use crate::{Error, Mode, St25r39};

verus! {

/// The wake-up timer period.  Its bit encoding is non-linear: the low
/// nibble is the period index, and bit 4 *clear* marks the sub-100 ms
/// range.
#[derive(Debug, Clone, Copy, PartialEq, Eq, Structural)]
pub enum WakeupPeriod {
    /// 10 ms
    Ms10,
    /// 20 ms
    Ms20,
    /// 30 ms
    Ms30,
    /// 40 ms
    Ms40,
    /// 50 ms
    Ms50,
    /// 60 ms
    Ms60,
    /// 70 ms
    Ms70,
    /// 80 ms
    Ms80,
    /// 100 ms
    Ms100,
    /// 200 ms
    Ms200,
    /// 300 ms
    Ms300,
    /// 400 ms
    Ms400,
    /// 500 ms
    Ms500,
    /// 600 ms
    Ms600,
    /// 700 ms
    Ms700,
    /// 800 ms
    Ms800,
}

/// The period's bit encoding: low nibble = period index; bit 4 clear marks
/// the sub-100 ms range.
pub open spec fn period_code(p: WakeupPeriod) -> u8 {
    match p {
        WakeupPeriod::Ms10 => 0x00,
        WakeupPeriod::Ms20 => 0x01,
        WakeupPeriod::Ms30 => 0x02,
        WakeupPeriod::Ms40 => 0x03,
        WakeupPeriod::Ms50 => 0x04,
        WakeupPeriod::Ms60 => 0x05,
        WakeupPeriod::Ms70 => 0x06,
        WakeupPeriod::Ms80 => 0x07,
        WakeupPeriod::Ms100 => 0x10,
        WakeupPeriod::Ms200 => 0x11,
        WakeupPeriod::Ms300 => 0x12,
        WakeupPeriod::Ms400 => 0x13,
        WakeupPeriod::Ms500 => 0x14,
        WakeupPeriod::Ms600 => 0x15,
        WakeupPeriod::Ms700 => 0x16,
        WakeupPeriod::Ms800 => 0x17,
    }
}

/// The period in milliseconds.
pub open spec fn period_ms(p: WakeupPeriod) -> u32 {
    match p {
        WakeupPeriod::Ms10 => 10,
        WakeupPeriod::Ms20 => 20,
        WakeupPeriod::Ms30 => 30,
        WakeupPeriod::Ms40 => 40,
        WakeupPeriod::Ms50 => 50,
        WakeupPeriod::Ms60 => 60,
        WakeupPeriod::Ms70 => 70,
        WakeupPeriod::Ms80 => 80,
        WakeupPeriod::Ms100 => 100,
        WakeupPeriod::Ms200 => 200,
        WakeupPeriod::Ms300 => 300,
        WakeupPeriod::Ms400 => 400,
        WakeupPeriod::Ms500 => 500,
        WakeupPeriod::Ms600 => 600,
        WakeupPeriod::Ms700 => 700,
        WakeupPeriod::Ms800 => 800,
    }
}

/// The period that the timer-control bits stand for: `wut` counts steps of
/// 10 ms when the slow bit `wur` is set, of 100 ms otherwise.
pub open spec fn period_bits_ms(wur: bool, wut: u8) -> int {
    if wur {
        (wut + 1) * 10
    } else {
        (wut + 1) * 100
    }
}

impl WakeupPeriod {
    /// The period's bit encoding.
    pub fn code(self) -> (r: u8)
        ensures
            r == period_code(self),
    {
        match self {
            WakeupPeriod::Ms10 => 0x00,
            WakeupPeriod::Ms20 => 0x01,
            WakeupPeriod::Ms30 => 0x02,
            WakeupPeriod::Ms40 => 0x03,
            WakeupPeriod::Ms50 => 0x04,
            WakeupPeriod::Ms60 => 0x05,
            WakeupPeriod::Ms70 => 0x06,
            WakeupPeriod::Ms80 => 0x07,
            WakeupPeriod::Ms100 => 0x10,
            WakeupPeriod::Ms200 => 0x11,
            WakeupPeriod::Ms300 => 0x12,
            WakeupPeriod::Ms400 => 0x13,
            WakeupPeriod::Ms500 => 0x14,
            WakeupPeriod::Ms600 => 0x15,
            WakeupPeriod::Ms700 => 0x16,
            WakeupPeriod::Ms800 => 0x17,
        }
    }

    /// The period in milliseconds.
    pub fn millis(self) -> (r: u32)
        ensures
            r == period_ms(self),
    {
        match self {
            WakeupPeriod::Ms10 => 10,
            WakeupPeriod::Ms20 => 20,
            WakeupPeriod::Ms30 => 30,
            WakeupPeriod::Ms40 => 40,
            WakeupPeriod::Ms50 => 50,
            WakeupPeriod::Ms60 => 60,
            WakeupPeriod::Ms70 => 70,
            WakeupPeriod::Ms80 => 80,
            WakeupPeriod::Ms100 => 100,
            WakeupPeriod::Ms200 => 200,
            WakeupPeriod::Ms300 => 300,
            WakeupPeriod::Ms400 => 400,
            WakeupPeriod::Ms500 => 500,
            WakeupPeriod::Ms600 => 600,
            WakeupPeriod::Ms700 => 700,
            WakeupPeriod::Ms800 => 800,
        }
    }
}

/// Decodes the timer-control bits back to milliseconds.
pub fn decoded_period_millis(wur: bool, wut: u8) -> (r: u32)
    ensures
        r == period_bits_ms(wur, wut),
{
    if wur {
        ((wut as u32) + 1) * 10
    } else {
        ((wut as u32) + 1) * 100
    }
}

/// Encoding a wake-up period into its timer-control bits — the slow bit
/// from bit 4 of the code, the step count from the low nibble — and
/// decoding those bits again reproduces the period's millisecond value.
pub proof fn lemma_wakeup_period_round_trip(p: WakeupPeriod)
    ensures
        period_bits_ms((period_code(p) & 0x10) == 0, period_code(p) & 0x0f) == period_ms(p),
{
    assert(0x00u8 & 0x10 == 0 && 0x00u8 & 0x0f == 0 && 0x01u8 & 0x10 == 0 && 0x01u8 & 0x0f == 1
        && 0x02u8 & 0x10 == 0 && 0x02u8 & 0x0f == 2 && 0x03u8 & 0x10 == 0 && 0x03u8 & 0x0f == 3
        && 0x04u8 & 0x10 == 0 && 0x04u8 & 0x0f == 4 && 0x05u8 & 0x10 == 0 && 0x05u8 & 0x0f == 5
        && 0x06u8 & 0x10 == 0 && 0x06u8 & 0x0f == 6 && 0x07u8 & 0x10 == 0 && 0x07u8 & 0x0f == 7
        && 0x10u8 & 0x10 != 0 && 0x10u8 & 0x0f == 0 && 0x11u8 & 0x10 != 0 && 0x11u8 & 0x0f == 1
        && 0x12u8 & 0x10 != 0 && 0x12u8 & 0x0f == 2 && 0x13u8 & 0x10 != 0 && 0x13u8 & 0x0f == 3
        && 0x14u8 & 0x10 != 0 && 0x14u8 & 0x0f == 4 && 0x15u8 & 0x10 != 0 && 0x15u8 & 0x0f == 5
        && 0x16u8 & 0x10 != 0 && 0x16u8 & 0x0f == 6 && 0x17u8 & 0x10 != 0 && 0x17u8 & 0x0f == 7)
        by (bit_vector);
}

/// The wake-up timer-control bits that arm a period: the period index in
/// the wut field, whole — every index of the encoding fits it — and the
/// sub-100 ms range flag in wur.
pub fn period_timer_bits(period: WakeupPeriod) -> (r: regs::WupTimerControl)
    ensures
        (r.0 >> 4) & 7 == period_code(period) & 0x0f,
        (((r.0 >> 7) & 1) != 0) == ((period_code(period) & 0x10) == 0),
{
    let code = period.code();
    let slow = code & 0x10 == 0;
    let mut wtc = regs::WupTimerControl::from_bits(0);
    wtc.set_wur(slow);
    wtc.set_wut(code & 0x0f);
    proof {
        let c = code;
        let w: u8 = if slow {
            1
        } else {
            0
        };
        let b = wtc.0;
        // Every period code's low nibble is an index below eight.
        assert((0x00u8 & 0x0f) <= 7 && (0x01u8 & 0x0f) <= 7 && (0x02u8 & 0x0f) <= 7 && (0x03u8
            & 0x0f) <= 7 && (0x04u8 & 0x0f) <= 7 && (0x05u8 & 0x0f) <= 7 && (0x06u8 & 0x0f) <= 7
            && (0x07u8 & 0x0f) <= 7 && (0x10u8 & 0x0f) <= 7 && (0x11u8 & 0x0f) <= 7 && (0x12u8
            & 0x0f) <= 7 && (0x13u8 & 0x0f) <= 7 && (0x14u8 & 0x0f) <= 7 && (0x15u8 & 0x0f) <= 7
            && (0x16u8 & 0x0f) <= 7 && (0x17u8 & 0x0f) <= 7) by (bit_vector);
        assert(c & 0x0f <= 7);
        assert((b >> 4) & 7 == c & 0x0f && (((b >> 7) & 1) != 0) == (w == 1)) by (bit_vector)
            requires
                c & 0x0f <= 7,
                w <= 1,
                b == ((((0u8 & !(1u8 << 7)) | ((w & 1) << 7)) & !(7u8 << 4)) | (((c & 0x0f) & 7)
                    << 4)),
        ;
    }
    wtc
}

/// One sensing method's configuration: the delta that triggers a wake-up,
/// and how the comparison reference is obtained.
#[derive(Debug, Clone, Copy, PartialEq, Eq, Structural)]
pub struct WakeupMethodConfig {
    pub delta: u8,
    pub reference: WakeupReference,
}

/// How a sensing method's comparison reference is obtained.
#[derive(Debug, Clone, Copy, PartialEq, Eq, Structural)]
pub enum WakeupReference {
    /// A fixed, caller-supplied reference value.
    Manual(u8),
    /// One fresh measurement taken on entry serves as the reference.
    Automatic,
    /// A fresh seed measurement plus the hardware running average, with the
    /// given weight; `include_irq_measurement` also feeds the measurements
    /// that triggered a wake-up interrupt into the average.
    AutoAverage { include_irq_measurement: bool, weight: u8 },
}

/// The wake-up subsystem's configuration: the sampling period and up to
/// three sensing methods; a method that is `None` stays disabled.
#[derive(Debug, Clone, Copy, PartialEq, Eq, Structural)]
pub struct WakeupConfig {
    pub period: WakeupPeriod,
    pub inductive_amplitude: Option<WakeupMethodConfig>,
    pub inductive_phase: Option<WakeupMethodConfig>,
    pub capacitive: Option<WakeupMethodConfig>,
}

impl<I: Interface, P: IrqPin, T: Timer> St25r39<I, P, T> {
    /// Enters wake-up mode and suspends until the chip signals a card.
    ///
    /// Ensures `On` mode first, marks `Wakeup` mode, stops current activity,
    /// selects the ISO14443A initiator front-end, encodes the period into
    /// the timer-control bits, resolves each enabled method's reference per
    /// its policy while accumulating the wake interrupt mask, arms the
    /// wake-up timer, and then sleeps on the interrupt line's rising edge —
    /// the deliberately unbounded low-power idle point.  The caller resumes
    /// active polling with `mode_on`/`field_on` afterwards.
    pub fn wait_for_card(&mut self, config: WakeupConfig) -> (r: Result<(), Error<I::Error>>)
        ensures
            r matches Ok(()) ==> final(self).current_mode() == Mode::Wakeup,
    {
        self.mode_on()?;

        self.mode = Mode::Wakeup;

        self.cmd(Command::Stop)?;
        regs::Regs::new().op_control().write_value(&mut self.iface, regs::OpControl::from_bits(0))?;
        let mut md = regs::Mode::from_bits(0);
        md.set_om(regs::ModeOm::ini_iso14443a());
        regs::Regs::new().mode().write_value(&mut self.iface, md)?;

        let mut wtc = period_timer_bits(config.period);
        let mut irqs: u32 = 0;

        if let Some(m) = config.inductive_amplitude {
            let mut conf = regs::AmplitudeMeasureConf::from_bits(0);
            conf.set_am_d(m.delta);
            match m.reference {
                WakeupReference::Manual(val) => {
                    regs::Regs::new().amplitude_measure_ref().write_value(&mut self.iface, val)?;
                }
                WakeupReference::Automatic => {
                    let val = self.measure_amplitude()?;
                    regs::Regs::new().amplitude_measure_ref().write_value(&mut self.iface, val)?;
                }
                WakeupReference::AutoAverage { include_irq_measurement, weight } => {
                    let val = self.measure_amplitude()?;
                    regs::Regs::new().amplitude_measure_ref().write_value(&mut self.iface, val)?;
                    conf.set_am_ae(true);
                    conf.set_am_aam(include_irq_measurement);
                    conf.set_am_aew(weight);
                }
            }
            regs::Regs::new().amplitude_measure_conf().write_value(&mut self.iface, conf)?;
            wtc.set_wam(true);
            irqs = irqs | (1u32 << Interrupt::Wam.bit());
        }

        if let Some(m) = config.inductive_phase {
            let mut conf = regs::PhaseMeasureConf::from_bits(0);
            conf.set_pm_d(m.delta);
            match m.reference {
                WakeupReference::Manual(val) => {
                    regs::Regs::new().phase_measure_ref().write_value(&mut self.iface, val)?;
                }
                WakeupReference::Automatic => {
                    let val = self.measure_phase()?;
                    regs::Regs::new().phase_measure_ref().write_value(&mut self.iface, val)?;
                }
                WakeupReference::AutoAverage { include_irq_measurement, weight } => {
                    let val = self.measure_phase()?;
                    regs::Regs::new().phase_measure_ref().write_value(&mut self.iface, val)?;
                    conf.set_pm_ae(true);
                    conf.set_pm_aam(include_irq_measurement);
                    conf.set_pm_aew(weight);
                }
            }
            regs::Regs::new().phase_measure_conf().write_value(&mut self.iface, conf)?;
            wtc.set_wph(true);
            irqs = irqs | (1u32 << Interrupt::Wph.bit());
        }

        if let Some(m) = config.capacitive {
            let _calibrated = self.calibrate_capacitance()?;

            let mut conf = regs::CapacitanceMeasureConf::from_bits(0);
            conf.set_cm_d(m.delta);
            match m.reference {
                WakeupReference::Manual(val) => {
                    regs::Regs::new().capacitance_measure_ref().write_value(
                        &mut self.iface,
                        val,
                    )?;
                }
                WakeupReference::Automatic => {
                    let val = self.measure_capacitance()?;
                    regs::Regs::new().capacitance_measure_ref().write_value(
                        &mut self.iface,
                        val,
                    )?;
                }
                WakeupReference::AutoAverage { include_irq_measurement, weight } => {
                    let val = self.measure_capacitance()?;
                    regs::Regs::new().capacitance_measure_ref().write_value(
                        &mut self.iface,
                        val,
                    )?;
                    conf.set_cm_ae(true);
                    conf.set_cm_aam(include_irq_measurement);
                    conf.set_cm_aew(weight);
                }
            }
            regs::Regs::new().capacitance_measure_conf().write_value(&mut self.iface, conf)?;
            irqs = irqs | (1u32 << Interrupt::Wcap.bit());
        }

        self.irq_clear()?;

        regs::Regs::new().wup_timer_control().write_value(&mut self.iface, wtc)?;
        let mut op = regs::OpControl::from_bits(0);
        op.set_wu(true);
        regs::Regs::new().op_control().write_value(&mut self.iface, op)?;
        self.irq_set_mask(!irqs)?;

        self.wait_for_irq_edge();

        Ok(())
    }
}

} // verus!
