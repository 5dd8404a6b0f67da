//! The chip controller and the ISO14443A transceiver against a scripted
//! bus: field control, calibration, interrupt accumulation, and frame
//! decoding.

use std::cell::RefCell;
use std::collections::VecDeque;
use std::rc::Rc;

use rnfc_st25r39::commands::Command;
use rnfc_st25r39::driver::{FieldOnError, nrt_counts};
use rnfc_st25r39::interface::{Interface, IrqPin, Timer};
use rnfc_st25r39::interrupts::Interrupt;
use rnfc_st25r39::iso14443a::{Error as TrxError, Frame, StartError, anticoll_bit_count};
use rnfc_st25r39::regs::{OpControl, Regs};
use rnfc_st25r39::wakeup::{WakeupConfig, WakeupMethodConfig, WakeupPeriod, WakeupReference};
use rnfc_st25r39::{Error, St25r39};

/// What the scripted chip does and records.
struct SimState {
    /// Plain register file; reads return these values.
    regs: [u8; 64],
    /// Pending interrupt bytes behind the three status registers;
    /// cleared on read, as the hardware does.
    pending_irq: [u8; 3],
    /// Every register write, in order.
    writes: Vec<(u8, u8)>,
    /// Every direct command opcode, in order.
    cmds: Vec<u8>,
    /// Bytes handed out by FIFO reads.
    fifo_out: VecDeque<u8>,
    /// Bytes collected from FIFO writes.
    fifo_in: Vec<u8>,
    /// Interrupt bytes delivered when a transmit command is issued.
    tx_irq: [u8; 3],
    /// Interrupt byte delivered (into the second status register) when the
    /// initial RF collision avoidance command is issued.
    field_irq: u8,
    /// Whether direct-command-terminated fires for measurement commands.
    deliver_dct: bool,
    /// Whether the bus fails every access.
    fail: bool,
}

#[derive(Clone)]
struct SimBus {
    state: Rc<RefCell<SimState>>,
}

fn sim() -> SimBus {
    let mut regs = [0u8; 64];
    // The oscillator is always reported stable.
    regs[48] = 0x10;
    // A supply-voltage code of 100 is about 2340 mV.
    regs[32] = 100;
    SimBus {
        state: Rc::new(RefCell::new(SimState {
            regs,
            pending_irq: [0; 3],
            writes: Vec::new(),
            cmds: Vec::new(),
            fifo_out: VecDeque::new(),
            fifo_in: Vec::new(),
            tx_irq: [0; 3],
            field_irq: 0x02,
            deliver_dct: true,
            fail: false,
        })),
    }
}

impl Interface for SimBus {
    type Error = u8;

    fn read_reg(&mut self, addr: u8) -> Result<u8, u8> {
        let mut s = self.state.borrow_mut();
        if s.fail {
            return Err(0xF0);
        }
        if (23..=25).contains(&addr) {
            let i = (addr - 23) as usize;
            let v = s.pending_irq[i];
            s.pending_irq[i] = 0;
            return Ok(v);
        }
        Ok(s.regs[addr as usize])
    }

    fn write_reg(&mut self, addr: u8, val: u8) -> Result<(), u8> {
        let mut s = self.state.borrow_mut();
        if s.fail {
            return Err(0xF0);
        }
        s.writes.push((addr, val));
        s.regs[addr as usize] = val;
        Ok(())
    }

    fn do_command(&mut self, cmd: u8) -> Result<(), u8> {
        let mut s = self.state.borrow_mut();
        if s.fail {
            return Err(0xF0);
        }
        s.cmds.push(cmd);
        match cmd {
            // Measurement and adjustment commands terminate with Dct.
            0xD3 | 0xD9 | 0xDE | 0xDF | 0xD6 => {
                if s.deliver_dct {
                    s.pending_irq[1] |= 0x80;
                }
            }
            // Initial RF collision avoidance.
            0xC8 => {
                let b = s.field_irq;
                s.pending_irq[1] |= b;
            }
            // Transmit commands.
            0xC4 | 0xC5 | 0xC6 | 0xC7 => {
                for i in 0..3 {
                    let b = s.tx_irq[i];
                    s.pending_irq[i] |= b;
                }
            }
            _ => {}
        }
        Ok(())
    }

    fn read_fifo(&mut self, buf: &mut Vec<u8>) -> Result<(), u8> {
        let mut s = self.state.borrow_mut();
        if s.fail {
            return Err(0xF0);
        }
        for b in buf.iter_mut() {
            *b = s.fifo_out.pop_front().unwrap_or(0);
        }
        Ok(())
    }

    fn write_fifo(&mut self, buf: &[u8]) -> Result<(), u8> {
        let mut s = self.state.borrow_mut();
        if s.fail {
            return Err(0xF0);
        }
        s.fifo_in.extend_from_slice(buf);
        Ok(())
    }
}

struct SimIrq;

impl IrqPin for SimIrq {
    fn wait_for_high(&mut self) {}
}

/// A clock that advances by a fixed step on every reading.
struct SimTimer {
    now: u64,
    step: u64,
}

impl Timer for SimTimer {
    fn now_ms(&mut self) -> u64 {
        self.now += self.step;
        self.now
    }

    fn yield_now(&mut self) {}
}

type Chip = St25r39<SimBus, SimIrq, SimTimer>;

fn chip() -> (Chip, Rc<RefCell<SimState>>) {
    let bus = sim();
    let state = bus.state.clone();
    let chip = St25r39::new(bus, SimIrq, SimTimer { now: 0, step: 1 }).expect("init");
    (chip, state)
}

#[test]
fn new_runs_the_power_up_sequence() {
    let (_chip, state) = chip();
    let s = state.borrow();
    assert_eq!(s.cmds[0], 0xC1, "reset to defaults first");
    assert!(s.cmds.contains(&0xDF), "supply voltage measured");
    assert!(s.cmds.contains(&0xD6), "regulators adjusted");
    // 2340 mV < 3600 mV selects the 3.3 V profile.
    assert!(s.writes.contains(&(1, 0x80)), "3.3 V supply profile written");
}

#[test]
fn new_fails_fast_on_a_broken_bus() {
    let bus = sim();
    bus.state.borrow_mut().fail = true;
    match St25r39::new(bus, SimIrq, SimTimer { now: 0, step: 1 }) {
        Err(Error::Interface(0xF0)) => (),
        other => panic!("broken bus gave {:?}", other.map(|_| ())),
    }
}

#[test]
fn measurement_times_out_without_completion_interrupt() {
    let (mut chip, state) = chip();
    state.borrow_mut().deliver_dct = false;
    assert_eq!(chip.measure_amplitude(), Err(Error::Timeout));
}

#[test]
fn measurement_reads_the_adc_result() {
    let (mut chip, state) = chip();
    state.borrow_mut().regs[32] = 0x5a;
    assert_eq!(chip.measure_amplitude(), Ok(0x5a));
    assert_eq!(chip.measure_phase(), Ok(0x5a));
    assert_eq!(chip.measure_capacitance(), Ok(0x5a));
}

#[test]
fn mode_off_stops_activity_and_clears_op_control() {
    let (mut chip, state) = chip();
    let before = state.borrow().writes.len();
    chip.mode_off().expect("mode off");
    let s = state.borrow();
    assert_eq!(*s.cmds.last().unwrap(), 0xC2, "stop command issued");
    assert!(s.writes[before..].contains(&(2, 0)), "operation control zeroed");
}

#[test]
fn field_on_reports_collision_without_enabling_tx_rx() {
    let (mut chip, state) = chip();
    state.borrow_mut().field_irq = 0x04;  // collision during avoidance
    let before = state.borrow().writes.len();
    match chip.field_on() {
        Err(FieldOnError::FieldCollision) => (),
        other => panic!("collision gave {:?}", other),
    }
    let s = state.borrow();
    let avoidance = s.cmds.iter().position(|&c| c == 0xC8).expect("avoidance issued");
    assert_eq!(avoidance, s.cmds.len() - 1);
    for &(addr, val) in &s.writes[before..] {
        if addr == 2 {
            assert_eq!(val & (0x08 | 0x40), 0, "tx/rx stayed disabled");
        }
    }
}

#[test]
fn field_on_collision_wins_over_simultaneous_completion() {
    let (mut chip, state) = chip();
    state.borrow_mut().field_irq = 0x02 | 0x04;  // both observed at once
    assert!(matches!(chip.field_on(), Err(FieldOnError::FieldCollision)));
}

#[test]
fn field_on_enables_tx_rx_after_avoidance_completes() {
    let (mut chip, state) = chip();
    state.borrow_mut().field_irq = 0x02;  // minimum guard time expired
    chip.field_on().expect("field on");
    let s = state.borrow();
    let last_op = s.writes.iter().rev().find(|&&(a, _)| a == 2).expect("op control written");
    assert_eq!(last_op.1 & (0x08 | 0x40), 0x08 | 0x40, "tx and rx enabled");
}

#[test]
fn start_iso14443a_turns_the_field_off_again_on_collision() {
    let (mut chip, state) = chip();
    state.borrow_mut().field_irq = 0x04;
    match chip.start_iso14443a() {
        Err(StartError::FieldCollision) => (),
        Err(other) => panic!("collision gave {:?}", other),
        Ok(_) => panic!("collision gave a session"),
    }
    let s = state.borrow();
    assert_eq!(*s.cmds.last().unwrap(), 0xC2, "returned to the safe off state");
}

#[test]
fn calibrate_capacitance_times_out_when_never_ending() {
    let bus = sim();
    let state = bus.state.clone();
    // Big steps so the 500 ms deadline passes after a few polls; the
    // calibration-ended flag never sets.
    let mut chip = St25r39::new(bus, SimIrq, SimTimer { now: 0, step: 60 }).expect("init");
    state.borrow_mut().regs[47] = 0;
    assert_eq!(chip.calibrate_capacitance(), Err(Error::Timeout));
}

#[test]
fn calibrate_capacitance_reports_the_hardware_fault_distinctly() {
    let (mut chip, state) = chip();
    state.borrow_mut().regs[47] = 0x02;  // calibration error flag
    assert_eq!(chip.calibrate_capacitance(), Err(Error::Calibration));
    // The error flag wins even when the ended flag is set beside it.
    state.borrow_mut().regs[47] = 0x02 | 0x04;
    assert_eq!(chip.calibrate_capacitance(), Err(Error::Calibration));
}

#[test]
fn calibrate_capacitance_returns_the_calibrated_value() {
    let (mut chip, state) = chip();
    state.borrow_mut().regs[47] = 0x04 | (1 << 3);  // ended, value bits
    assert_eq!(chip.calibrate_capacitance(), Ok(1));
}

#[test]
fn irq_bitmap_accumulates_and_clears() {
    let (mut chip, state) = chip();
    assert!(!chip.irq(Interrupt::Txe));
    state.borrow_mut().pending_irq[0] = 0x08;  // Txe
    chip.irq_update().expect("update");
    assert!(chip.irq(Interrupt::Txe));
    // The bitmap is sticky across further updates.
    state.borrow_mut().pending_irq[1] = 0x80;  // Dct
    chip.irq_update().expect("update");
    assert!(chip.irq(Interrupt::Txe));
    assert!(chip.irq(Interrupt::Dct));
    chip.irq_clear().expect("clear");
    assert!(!chip.irq(Interrupt::Txe));
    assert!(!chip.irq(Interrupt::Dct));
}

#[test]
fn irq_wait_returns_once_the_interrupt_arrives() {
    let (mut chip, state) = chip();
    state.borrow_mut().pending_irq[1] = 0x80;
    assert_eq!(chip.irq_wait(Interrupt::Dct), Ok(()));
    assert_eq!(chip.irq_wait_timeout(Interrupt::Txe, 10), Err(Error::Timeout));
}

#[test]
fn wait_for_card_arms_the_wakeup_timer() {
    let (mut chip, state) = chip();
    let config = WakeupConfig {
        period: WakeupPeriod::Ms300,
        inductive_amplitude: Some(WakeupMethodConfig {
            delta: 3,
            reference: WakeupReference::Manual(0x42),
        }),
        inductive_phase: None,
        capacitive: None,
    };
    chip.wait_for_card(config).expect("wakeup");
    let s = state.borrow();
    assert!(s.writes.iter().any(|&(a, _)| a == 49), "wake-up timer control written");
    assert!(s.writes.contains(&(51, 0x42)), "manual amplitude reference written");
    let last_op = s.writes.iter().rev().find(|&&(a, _)| a == 2).expect("op control written");
    assert_eq!(last_op.1 & 0x04, 0x04, "wake bit set");
}

#[test]
fn nrt_counts_picks_the_step_size() {
    assert_eq!(nrt_counts(0), (false, 0));
    assert_eq!(nrt_counts(1), (false, 1));
    assert_eq!(nrt_counts(64), (false, 1));
    assert_eq!(nrt_counts(65), (false, 2));
    assert_eq!(nrt_counts(0xFFFF * 64), (false, 0xFFFF));
    assert_eq!(nrt_counts(0xFFFF * 64 + 1), (true, 1024));
    assert_eq!(nrt_counts(u32::MAX), (true, 0xFFFF));
}

#[test]
fn anticoll_bit_count_follows_the_collision_point() {
    assert_eq!(anticoll_bit_count(Some((1, 3)), 1, 1), 11);
    assert_eq!(anticoll_bit_count(Some((0, 5)), 0, 2), 5);
    assert_eq!(anticoll_bit_count(None, 2, 3), 40);
}

#[test]
fn anticollision_collision_decode() {
    let (mut chip, state) = chip();
    {
        let mut s = state.borrow_mut();
        s.field_irq = 0x02;
        // Transmission ends, reception ends, and a collision is seen.
        s.tx_irq = [0x08 | 0x10 | 0x04, 0, 0];
        // One byte arrives through the FIFO.
        s.regs[26] = 1;
        s.fifo_out.push_back(0xa0);
        // Collision at byte 1, bit 3.
        s.regs[28] = (1 << 4) | (3 << 1);
    }
    let mut session = chip.start_iso14443a().expect("session");
    let tx = [0x20, 0x05];
    let mut rx = [0u8; 8];
    let bits = session.transceive(&tx, &mut rx, Frame::Anticoll { bits: 12 }).expect("exchange");
    assert_eq!(bits, 11, "8 * byte + bit valid bits");
    assert_eq!(rx[0], tx[0], "the acknowledged prefix comes from what was sent");
    assert_eq!(rx[1], 0xa0 | 0x05, "partial trailing bits OR'd in from tx");
    let s = state.borrow();
    assert_eq!(s.fifo_in, vec![0x20, 0x05], "both partial bytes pushed to the FIFO");
    assert!(s.cmds.contains(&0xC5), "raw transmission for anticollision");
    assert!(s.cmds.contains(&0xE8), "no-response timer stopped");
}

#[test]
fn anticollision_without_collision_counts_all_bits() {
    let (mut chip, state) = chip();
    {
        let mut s = state.borrow_mut();
        s.tx_irq = [0x08 | 0x10, 0, 0];  // Txe + Rxe, no collision
        s.regs[26] = 3;
        s.fifo_out.extend([0x11, 0x22, 0x33]);
    }
    let mut session = chip.start_iso14443a().expect("session");
    let tx = [0x93, 0x20];
    let mut rx = [0u8; 8];
    let bits = session.transceive(&tx, &mut rx, Frame::Anticoll { bits: 16 }).expect("exchange");
    assert_eq!(bits, (2 + 3) * 8);
    assert_eq!(&rx[..2], &tx, "full prefix copied");
    assert_eq!(&rx[2..5], &[0x11, 0x22, 0x33]);
}

#[test]
fn standard_frame_strips_the_crc() {
    let (mut chip, state) = chip();
    {
        let mut s = state.borrow_mut();
        s.tx_irq = [0x08 | 0x10, 0, 0];
        s.regs[26] = 4;  // two payload bytes plus the 2-byte CRC
        s.fifo_out.extend([0xde, 0xad]);
    }
    let mut session = chip.start_iso14443a().expect("session");
    let mut rx = [0u8; 8];
    let bits = session
        .transceive(&[0x50, 0x00], &mut rx, Frame::Standard { timeout_1fc: 65536 })
        .expect("exchange");
    assert_eq!(bits, 16, "the CRC is not part of the result");
    assert_eq!(&rx[..2], &[0xde, 0xad]);
    let s = state.borrow();
    assert_eq!(s.fifo_in, vec![0x50, 0x00]);
    assert!(s.cmds.contains(&0xC4), "transmission with CRC");
}

#[test]
fn standard_frame_shorter_than_its_crc_is_an_error() {
    let (mut chip, state) = chip();
    {
        let mut s = state.borrow_mut();
        s.tx_irq = [0x08 | 0x10, 0, 0];
        s.regs[26] = 1;
    }
    let mut session = chip.start_iso14443a().expect("session");
    let mut rx = [0u8; 8];
    assert_eq!(
        session.transceive(&[0x50], &mut rx, Frame::Standard { timeout_1fc: 65536 }),
        Err(TrxError::ResponseTooShort)
    );
}

#[test]
fn response_overflowing_the_buffer_is_an_error() {
    let (mut chip, state) = chip();
    {
        let mut s = state.borrow_mut();
        s.tx_irq = [0x08 | 0x10, 0, 0];
        s.regs[26] = 10;
    }
    let mut session = chip.start_iso14443a().expect("session");
    let mut rx = [0u8; 4];
    assert_eq!(
        session.transceive(&[0x50], &mut rx, Frame::Standard { timeout_1fc: 65536 }),
        Err(TrxError::ResponseTooLong)
    );
}

#[test]
fn no_response_is_a_timeout() {
    let (mut chip, state) = chip();
    state.borrow_mut().tx_irq = [0x08, 0x40, 0];  // Txe, then Nre
    let mut session = chip.start_iso14443a().expect("session");
    let mut rx = [0u8; 4];
    assert_eq!(
        session.transceive(&[0x26], &mut rx, Frame::ReqA),
        Err(TrxError::Timeout)
    );
    assert!(state.borrow().cmds.contains(&0xE8), "no-response timer stopped on failure too");
}

#[test]
fn receive_error_interrupts_map_to_their_errors() {
    let cases: [( [u8; 3], TrxError<u8> ); 4] = [
        ([0x08, 0, 0x10], TrxError::Framing),
        ([0x08, 0, 0x40], TrxError::Parity),
        ([0x08, 0, 0x80], TrxError::Crc),
        ([0x08 | 0x04, 0, 0], TrxError::Collision),
    ];
    for (irqs, want) in cases {
        let (mut chip, state) = chip();
        state.borrow_mut().tx_irq = irqs;
        let mut session = chip.start_iso14443a().expect("session");
        let mut rx = [0u8; 4];
        assert_eq!(
            session.transceive(&[0x26], &mut rx, Frame::ReqA),
            Err(want)
        );
    }
}

#[test]
fn fifo_faults_are_terminal() {
    let faults: [(u8, TrxError<u8>); 3] = [
        (0x20, TrxError::FifoOverflow),
        (0x40, TrxError::FifoUnderflow),
        (0x01, TrxError::FramingLastByteMissingParity),
    ];
    for (stat, want) in faults {
        let (mut chip, state) = chip();
        {
            let mut s = state.borrow_mut();
            s.tx_irq = [0x08 | 0x10, 0, 0];
            s.regs[27] = stat;
        }
        let mut session = chip.start_iso14443a().expect("session");
        let mut rx = [0u8; 4];
        assert_eq!(session.transceive(&[0x26], &mut rx, Frame::ReqA), Err(want));
    }
}

#[test]
fn finish_returns_the_chip_to_the_safe_state() {
    let (mut chip, state) = chip();
    state.borrow_mut().tx_irq = [0x08 | 0x10, 0, 0];
    let session = chip.start_iso14443a().expect("session");
    session.finish().expect("finish");
    let s = state.borrow();
    assert_eq!(*s.cmds.last().unwrap(), 0xC2, "stopped");
    assert!(s.writes.iter().rev().any(|&(a, v)| a == 2 && v == 0), "front-end disabled");
}

#[test]
fn register_modify_keeps_unrelated_bits() {
    let mut bus = sim();
    bus.state.borrow_mut().regs[2] = 0x01;
    let state = bus.state.clone();
    Regs::new()
        .op_control()
        .modify(&mut bus, |mut w: OpControl| {
            w.set_en(true);
            w
        })
        .expect("modify");
    assert_eq!(state.borrow().regs[2], 0x81, "read-modify-write keeps the low bit");
}

#[test]
fn register_write_starts_from_the_reset_value() {
    let mut bus = sim();
    bus.state.borrow_mut().regs[2] = 0xff;
    let state = bus.state.clone();
    Regs::new()
        .op_control()
        .write(&mut bus, |mut w: OpControl| {
            w.set_wu(true);
            w
        })
        .expect("write");
    assert_eq!(state.borrow().regs[2], 0x04, "the builder starts from zero");
}

#[test]
fn command_opcodes_and_interrupt_bits() {
    assert_eq!(Command::SetDefault.code(), 0xC1);
    assert_eq!(Command::Stop.code(), 0xC2);
    assert_eq!(Command::TransmitReqa.code(), 0xC6);
    assert_eq!(Command::MeasureVdd.code(), 0xDF);
    assert_eq!(Command::StopNrt.code(), 0xE8);
    assert_eq!(Interrupt::Txe.bit(), 3);
    assert_eq!(Interrupt::Cac.bit(), 10);
    assert_eq!(Interrupt::Dct.bit(), 15);
    assert_eq!(Interrupt::Crc.bit(), 23);
}

#[test]
fn driver_hi_z_parks_the_outputs() {
    let (mut chip, state) = chip();
    chip.driver_hi_z().expect("hi-z");
    let s = state.borrow();
    assert!(s.writes.contains(&(39, 0xff)), "outputs set to high impedance");
}
