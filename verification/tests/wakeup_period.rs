//! The wake-up period encoding and the register bit-field accessors.

use rnfc_st25r39::regs::{CollisionStatus, IoConf1, OpControl, RegValue, Reg, Regs, WupTimerControl};
use rnfc_st25r39::wakeup::{WakeupPeriod, decoded_period_millis};

const ALL_PERIODS: [WakeupPeriod; 16] = [
    WakeupPeriod::Ms10,
    WakeupPeriod::Ms20,
    WakeupPeriod::Ms30,
    WakeupPeriod::Ms40,
    WakeupPeriod::Ms50,
    WakeupPeriod::Ms60,
    WakeupPeriod::Ms70,
    WakeupPeriod::Ms80,
    WakeupPeriod::Ms100,
    WakeupPeriod::Ms200,
    WakeupPeriod::Ms300,
    WakeupPeriod::Ms400,
    WakeupPeriod::Ms500,
    WakeupPeriod::Ms600,
    WakeupPeriod::Ms700,
    WakeupPeriod::Ms800,
];

#[test]
fn wakeup_period_round_trips_through_bit_layout() {
    for p in ALL_PERIODS {
        let code = p.code();
        let wur = code & 0x10 == 0;
        let wut = code & 0x0f;
        assert_eq!(decoded_period_millis(wur, wut), p.millis());
    }
}

#[test]
fn wakeup_period_codes_are_distinct() {
    for (i, a) in ALL_PERIODS.iter().enumerate() {
        for b in &ALL_PERIODS[i + 1..] {
            assert_ne!(a.code(), b.code());
        }
    }
}

#[test]
fn wakeup_period_code_examples() {
    assert_eq!(WakeupPeriod::Ms10.code(), 0x00);
    assert_eq!(WakeupPeriod::Ms80.code(), 0x07);
    assert_eq!(WakeupPeriod::Ms100.code(), 0x10);
    assert_eq!(WakeupPeriod::Ms800.code(), 0x17);
    assert_eq!(WakeupPeriod::Ms300.millis(), 300);
}

#[test]
fn op_control_bits_place_and_read_back() {
    let mut w = OpControl::from_bits(0);
    w.set_en(true);
    assert_eq!(w.to_bits(), 0x80);
    assert!(w.en());
    w.set_tx_en(true);
    w.set_rx_en(true);
    assert_eq!(w.to_bits(), 0x80 | 0x08 | 0x40);
    w.set_en(false);
    assert_eq!(w.to_bits(), 0x08 | 0x40);
    assert!(!w.en());
}

#[test]
fn io_conf1_bits_place_and_read_back() {
    let mut w = IoConf1::from_bits(0);
    w.set_lf_clk_off(true);
    w.set_osc(true);
    assert_eq!(w.to_bits(), 0x01 | 0x08);
    assert!(w.lf_clk_off());
    assert!(w.osc());
}

#[test]
fn wup_timer_control_keeps_other_bits() {
    let mut w = WupTimerControl::from_bits(0xff);
    w.set_wut(0);
    // Only the 3-bit wut field (bits 6:4) is cleared; the rest stays.
    assert_eq!(w.to_bits() | 0x70, 0xff);
    w.set_wut(7);
    assert_eq!(w.wut(), 7, "the field holds every period index whole");
}

#[test]
fn collision_status_decodes_byte_and_bit() {
    let c = CollisionStatus::from_bits((1 << 4) | (3 << 1));
    assert_eq!(c.c_byte(), 1);
    assert_eq!(c.c_bit(), 3);
    assert!(!c.c_pb());
    let c = CollisionStatus::from_bits((9 << 4) | (6 << 1) | 1);
    assert_eq!(c.c_byte(), 9);
    assert_eq!(c.c_bit(), 6);
    assert!(c.c_pb());
}

#[test]
fn register_map_addresses() {
    let regs = Regs::new();
    assert_eq!(regs.io_conf1().addr, 0);
    assert_eq!(regs.op_control().addr, 2);
    assert_eq!(regs.irq_main(0).addr, 23);
    assert_eq!(regs.irq_main(2).addr, 25);
    assert_eq!(regs.fifo_status1().addr, 26);
    assert_eq!(regs.collision_status().addr, 28);
    assert_eq!(regs.wup_timer_control().addr, 49);
    assert_eq!(regs.ic_identity().addr, 63);
    let r: Reg<OpControl> = Reg::new(2);
    assert_eq!(r.addr, 2);
}
