//! The ISO-DEP layer: activation and frame-size negotiation, spin-bit
//! alternation, wait-time extension, and the size checks.

use std::cell::RefCell;
use std::rc::Rc;

use rnfc_st25r39::iso_dep::{Error, IsoDepA, Iso14443aTag, frame_size_for_index, wtx_reply};

/// A scripted tag: answers each exchange with the next queued response and
/// logs every frame it is sent.
struct ScriptTag {
    sent: Rc<RefCell<Vec<Vec<u8>>>>,
    responses: RefCell<Vec<Vec<u8>>>,
}

impl ScriptTag {
    fn new(responses: Vec<Vec<u8>>) -> (Self, Rc<RefCell<Vec<Vec<u8>>>>) {
        let sent = Rc::new(RefCell::new(Vec::new()));
        let tag = ScriptTag { sent: sent.clone(), responses: RefCell::new(responses) };
        (tag, sent)
    }
}

impl Iso14443aTag for ScriptTag {
    type Error = u8;

    fn transceive(&mut self, tx: &[u8], rx: &mut Vec<u8>) -> Result<usize, u8> {
        self.sent.borrow_mut().push(tx.to_vec());
        let mut responses = self.responses.borrow_mut();
        if responses.is_empty() {
            return Err(0xEE);
        }
        let res = responses.remove(0);
        assert!(res.len() <= rx.len(), "scripted response longer than the buffer");
        rx[..res.len()].copy_from_slice(&res);
        Ok(res.len())
    }
}

fn activated(responses: Vec<Vec<u8>>) -> (IsoDepA<ScriptTag>, Rc<RefCell<Vec<Vec<u8>>>>) {
    // ATS with frame-size index 8: fsc = 256.
    let mut all = vec![vec![0x05, 0x08]];
    all.extend(responses);
    let (tag, sent) = ScriptTag::new(all);
    let dep = IsoDepA::new(tag).expect("activation");
    (dep, sent)
}

#[test]
fn frame_size_table_decodes_all_nine_indices() {
    let expected = [16, 24, 32, 40, 48, 64, 96, 128, 256];
    for (i, want) in expected.iter().enumerate() {
        assert_eq!(frame_size_for_index(i), Some(*want));
    }
    for i in 9..16 {
        assert_eq!(frame_size_for_index(i), None);
    }
}

#[test]
fn activation_rejects_reserved_frame_size_index() {
    for idx in 9u8..16 {
        let (tag, _) = ScriptTag::new(vec![vec![0x05, idx]]);
        match IsoDepA::new(tag) {
            Err(Error::Protocol) => (),
            other => panic!("index {} gave {:?}", idx, other.map(|_| ())),
        }
    }
}

#[test]
fn activation_rejects_short_ats() {
    let (tag, _) = ScriptTag::new(vec![vec![0x05]]);
    match IsoDepA::new(tag) {
        Err(Error::Protocol) => (),
        other => panic!("short ATS gave {:?}", other.map(|_| ())),
    }
}

#[test]
fn activation_sends_rats() {
    let (dep, sent) = activated(vec![]);
    let _ = dep;
    assert_eq!(sent.borrow()[0], vec![0xe0, 0x80]);
}

#[test]
fn consecutive_exchanges_alternate_headers() {
    let (mut dep, sent) = activated(vec![vec![0x02, 0xaa], vec![0x03, 0xbb], vec![0x02, 0xcc]]);
    let mut rx = [0u8; 32];

    assert_eq!(dep.transceive(&[0x10], &mut rx), Ok(1));
    assert_eq!(rx[0], 0xaa);
    assert_eq!(dep.transceive(&[0x20], &mut rx), Ok(1));
    assert_eq!(rx[0], 0xbb);
    assert_eq!(dep.transceive(&[0x30], &mut rx), Ok(1));

    let log = sent.borrow();
    // log[0] is the RATS request.
    assert_eq!(log[1][0], 0x02);
    assert_eq!(log[2][0], 0x03);
    assert_eq!(log[3][0], 0x02);
    assert_ne!(log[1][0], log[2][0]);
    assert_ne!(log[2][0], log[3][0]);
}

#[test]
fn exchange_passes_payload_both_ways() {
    let (mut dep, sent) = activated(vec![vec![0x02, 0x11, 0x22, 0x33]]);
    let mut rx = [0u8; 8];
    assert_eq!(dep.transceive(&[0xa0, 0xa1], &mut rx), Ok(3));
    assert_eq!(&rx[..3], &[0x11, 0x22, 0x33]);
    assert_eq!(sent.borrow()[1], vec![0x02, 0xa0, 0xa1]);
}

#[test]
fn wtx_round_trip_keeps_spin_and_echoes_multiplier() {
    let (mut dep, sent) = activated(vec![
        vec![0xf2, 0xc7],
        vec![0x02, 0x55],
        vec![0x03, 0x66],
    ]);
    let mut rx = [0u8; 8];

    // One S(WTX) answer first: exactly one extra round trip.
    assert_eq!(dep.transceive(&[0x01], &mut rx), Ok(1));
    assert_eq!(rx[0], 0x55);

    // The spin bit did not change across the WTX round: the next exchange
    // uses the flipped header as usual.
    assert_eq!(dep.transceive(&[0x02], &mut rx), Ok(1));

    let log = sent.borrow();
    assert_eq!(log.len(), 4, "one extra round trip, no more");
    assert_eq!(log[1][0], 0x02, "the first I-block");
    assert_eq!(log[2], vec![0xf2, 0x07], "multiplier 0xc7 masked to six bits");
    assert_eq!(log[3][0], 0x03, "spin flipped once for the whole exchange");
}

#[test]
fn wtx_reply_masks_to_six_bits() {
    assert_eq!(wtx_reply(0xc7), 0x07);
    assert_eq!(wtx_reply(0x3f), 0x3f);
    assert_eq!(wtx_reply(0xff), 0x3f);
    assert_eq!(wtx_reply(0x00), 0x00);
}

#[test]
fn malformed_wtx_is_a_protocol_error() {
    let (mut dep, _) = activated(vec![vec![0xf2, 0x01, 0x02]]);
    let mut rx = [0u8; 8];
    assert_eq!(dep.transceive(&[0x01], &mut rx), Err(Error::Protocol));
}

#[test]
fn empty_response_is_a_protocol_error() {
    let (mut dep, _) = activated(vec![vec![]]);
    let mut rx = [0u8; 8];
    assert_eq!(dep.transceive(&[0x01], &mut rx), Err(Error::Protocol));
}

#[test]
fn unexpected_header_is_a_protocol_error() {
    // An R-block style header is out of scope and must be rejected.
    let (mut dep, _) = activated(vec![vec![0xa2, 0x55]]);
    let mut rx = [0u8; 8];
    assert_eq!(dep.transceive(&[0x01], &mut rx), Err(Error::Protocol));
}

#[test]
fn tag_error_is_carried_through() {
    let (mut dep, _) = activated(vec![]);
    let mut rx = [0u8; 8];
    assert_eq!(dep.transceive(&[0x01], &mut rx), Err(Error::Iso14443a(0xEE)));
}

#[test]
fn tx_frame_size_boundary_counts_header_and_crc() {
    // Frame-size index 0: fsc = 16, so the largest request payload is
    // 16 - 3 = 13 bytes (one header byte, two CRC bytes).
    let (tag, sent) = ScriptTag::new(vec![vec![0x05, 0x00], vec![0x02, 0x99]]);
    let mut dep = IsoDepA::new(tag).expect("activation");
    let mut rx = [0u8; 8];

    let too_big = [0u8; 14];
    assert_eq!(dep.transceive(&too_big, &mut rx), Err(Error::TxFrameTooBig));
    assert_eq!(sent.borrow().len(), 1, "an oversized request never reaches the tag");

    let just_fits = [0u8; 13];
    assert_eq!(dep.transceive(&just_fits, &mut rx), Ok(1));
}

#[test]
fn response_bigger_than_buffer_is_rx_frame_too_big() {
    let (mut dep, _) = activated(vec![vec![0x02, 1, 2, 3, 4, 5]]);
    let mut rx = [0u8; 4];
    assert_eq!(dep.transceive(&[0x01], &mut rx), Err(Error::RxFrameTooBig));
}

#[test]
fn failed_exchange_leaves_spin_unchanged() {
    let (mut dep, sent) = activated(vec![vec![0xa2, 0x55], vec![0x02, 0x11]]);
    let mut rx = [0u8; 8];
    assert_eq!(dep.transceive(&[0x01], &mut rx), Err(Error::Protocol));
    // The next exchange still uses the unflipped header.
    assert_eq!(dep.transceive(&[0x02], &mut rx), Ok(1));
    let log = sent.borrow();
    assert_eq!(log[1][0], 0x02);
    assert_eq!(log[2][0], 0x02);
}
