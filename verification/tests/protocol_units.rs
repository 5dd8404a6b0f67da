//! The factored decision functions: response classification, frame
//! building, length decisions, fault decodes, and the period timer bits.

use rnfc_st25r39::driver::{calibration_step, vdd_millivolts};
use rnfc_st25r39::iso14443a::{Error as TrxError, fifo_fault, standard_rx_length};
use rnfc_st25r39::iso_dep::{
    ResponseKind, build_iblock, classify_response, copy_payload, decode_activation, rats_request,
};
use rnfc_st25r39::regs::{AmModDepthCtrl, AmplitudeMeasureConf, CapSensorDisp, Mode, ModeOm, RegValue};
use rnfc_st25r39::wakeup::{WakeupPeriod, period_timer_bits};
use rnfc_st25r39::Error;

const ALL_PERIODS: [WakeupPeriod; 16] = [
    WakeupPeriod::Ms10,
    WakeupPeriod::Ms20,
    WakeupPeriod::Ms30,
    WakeupPeriod::Ms40,
    WakeupPeriod::Ms50,
    WakeupPeriod::Ms60,
    WakeupPeriod::Ms70,
    WakeupPeriod::Ms80,
    WakeupPeriod::Ms100,
    WakeupPeriod::Ms200,
    WakeupPeriod::Ms300,
    WakeupPeriod::Ms400,
    WakeupPeriod::Ms500,
    WakeupPeriod::Ms600,
    WakeupPeriod::Ms700,
    WakeupPeriod::Ms800,
];

#[test]
fn period_timer_bits_arm_every_period_whole() {
    for p in ALL_PERIODS {
        let w = period_timer_bits(p);
        assert_eq!(w.wut(), p.code() & 0x0f, "{:?}", p);
        assert_eq!(w.wur(), p.code() & 0x10 == 0, "{:?}", p);
        // Decoding the armed register bits reproduces the period.
        let ms = (u32::from(w.wut()) + 1) * if w.wur() { 10 } else { 100 };
        assert_eq!(ms, p.millis(), "{:?}", p);
    }
}

#[test]
fn standard_rx_length_decides_crc_and_capacity() {
    assert_eq!(standard_rx_length::<u8>(false, 0, 8), Err(TrxError::ResponseTooShort));
    assert_eq!(standard_rx_length::<u8>(false, 1, 8), Err(TrxError::ResponseTooShort));
    assert_eq!(standard_rx_length::<u8>(false, 2, 8), Ok(0));
    assert_eq!(standard_rx_length::<u8>(false, 10, 8), Ok(8));
    assert_eq!(standard_rx_length::<u8>(false, 11, 8), Err(TrxError::ResponseTooLong));
    assert_eq!(standard_rx_length::<u8>(true, 0, 8), Ok(0));
    assert_eq!(standard_rx_length::<u8>(true, 8, 8), Ok(8));
    assert_eq!(standard_rx_length::<u8>(true, 9, 8), Err(TrxError::ResponseTooLong));
}

#[test]
fn fifo_fault_decodes_in_priority_order() {
    assert_eq!(fifo_fault::<u8>(rnfc_st25r39::regs::FifoStatus2::from_bits(0)), None);
    assert_eq!(
        fifo_fault::<u8>(rnfc_st25r39::regs::FifoStatus2::from_bits(0x20)),
        Some(TrxError::FifoOverflow)
    );
    assert_eq!(
        fifo_fault::<u8>(rnfc_st25r39::regs::FifoStatus2::from_bits(0x40)),
        Some(TrxError::FifoUnderflow)
    );
    assert_eq!(
        fifo_fault::<u8>(rnfc_st25r39::regs::FifoStatus2::from_bits(0x01)),
        Some(TrxError::FramingLastByteMissingParity)
    );
    // Overflow outranks the others when several flags sit together.
    assert_eq!(
        fifo_fault::<u8>(rnfc_st25r39::regs::FifoStatus2::from_bits(0x61)),
        Some(TrxError::FifoOverflow)
    );
}

#[test]
fn calibration_step_decides_the_three_outcomes() {
    let keep_polling: CapSensorDisp = CapSensorDisp::from_bits(0);
    assert_eq!(calibration_step::<u8>(keep_polling), None);
    let fault = CapSensorDisp::from_bits(0x02);
    assert_eq!(calibration_step::<u8>(fault), Some(Err(Error::Calibration)));
    let done = CapSensorDisp::from_bits(0x04 | (9 << 3));
    assert_eq!(calibration_step::<u8>(done), Some(Ok(9)));
    // The error flag wins over a simultaneously set ended flag.
    let both = CapSensorDisp::from_bits(0x06);
    assert_eq!(calibration_step::<u8>(both), Some(Err(Error::Calibration)));
}

#[test]
fn vdd_scale_is_23_4_millivolts_per_step() {
    assert_eq!(vdd_millivolts(0), 0);
    assert_eq!(vdd_millivolts(1), 23);
    assert_eq!(vdd_millivolts(100), 2340);
    assert_eq!(vdd_millivolts(154), 3604);
    assert_eq!(vdd_millivolts(255), 5967);
}

#[test]
fn rats_request_is_the_fixed_activation_frame() {
    assert_eq!(rats_request(), vec![0xe0, 0x80]);
}

#[test]
fn decode_activation_checks_length_and_index() {
    assert_eq!(decode_activation(0x05, 0), None);
    assert_eq!(decode_activation(0x05, 1), None);
    assert_eq!(decode_activation(0x05, 2), Some(64));
    assert_eq!(decode_activation(0x78, 5), Some(256), "only the low nibble counts");
    assert_eq!(decode_activation(0x09, 2), None, "reserved index");
    assert_eq!(decode_activation(0x0f, 2), None, "reserved index");
}

#[test]
fn build_iblock_prepends_the_header() {
    let frame = build_iblock(0, &[0x10, 0x20]);
    assert_eq!(frame, vec![0x02, 0x10, 0x20]);
    let frame = build_iblock(1, &[]);
    assert_eq!(frame, vec![0x03]);
}

#[test]
fn classify_response_accepts_only_wtx_or_the_sent_header() {
    assert_eq!(classify_response(0x00, 0x00, 0, 0x02), ResponseKind::Unsupported);
    assert_eq!(classify_response(0xf2, 0xc7, 2, 0x02), ResponseKind::WaitExtension(0x07));
    assert_eq!(classify_response(0xf2, 0xc7, 3, 0x02), ResponseKind::Unsupported);
    assert_eq!(classify_response(0x02, 0x00, 5, 0x02), ResponseKind::Payload(4));
    assert_eq!(classify_response(0x03, 0x00, 5, 0x02), ResponseKind::Unsupported);
    assert_eq!(classify_response(0xa2, 0x00, 2, 0x02), ResponseKind::Unsupported);
}

#[test]
fn copy_payload_strips_the_header_and_leaves_the_rest() {
    let resp = vec![0x02, 0xaa, 0xbb, 0xcc];
    let mut rx = [0xffu8; 6];
    let n = copy_payload(&resp, 4, &mut rx);
    assert_eq!(n, 3);
    assert_eq!(&rx[..3], &[0xaa, 0xbb, 0xcc]);
    assert_eq!(&rx[3..], &[0xff, 0xff, 0xff], "bytes past the payload untouched");
}

#[test]
fn multi_bit_fields_hold_their_whole_values() {
    // The operating mode field spans four bits.
    let mut m = Mode::from_bits(0);
    m.set_om(ModeOm::ini_iso14443a());
    assert_eq!(m.om(), ModeOm::ini_iso14443a());
    m.set_om(ModeOm::ini_bpsk_stream());
    assert_eq!(m.om().to_bits() & 0x0f, 0x0f);
    // The AM modulation depth spans six bits.
    let mut d = AmModDepthCtrl::from_bits(0);
    d.set_modd(0b010010);
    assert_eq!(d.modd(), 0b010010);
    // A measurement delta spans four bits.
    let mut a = AmplitudeMeasureConf::from_bits(0);
    a.set_am_d(3);
    assert_eq!(a.am_d(), 3);
}
