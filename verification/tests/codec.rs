//! The snapshot byte layout: exact bytes, round trips, and rejection of
//! malformed input.

use vgic::gicv3::Gicv3State;
use vgic::gicv3_its::Gicv3ITSState;
use vgic::snapshot::{
    decode_gicv3_its_state, decode_gicv3_state, encode_gicv3_its_state, encode_gicv3_state,
};

fn sample_v3() -> Gicv3State {
    Gicv3State {
        dist: vec![0x10203040, 0x50607080],
        rdist: vec![0xAABBCCDD],
        icc: vec![1, 2, 3],
        gicd_ctlr: 0x3,
    }
}

fn sample_its() -> Gicv3ITSState {
    Gicv3ITSState {
        gic: sample_v3(),
        its_ctlr: 1,
        its_iidr: 0x0002_0003,
        its_cbaser: 0xDEAD_BEEF_0000_0040,
        its_cwriter: 0x80,
        its_creadr: 0x60,
        its_baser: vec![0x11, 0x22, 0x33, 0x44, 0x55, 0x66, 0x77, 0x88],
    }
}

#[test]
fn v3_exact_bytes_of_a_minimal_record() {
    let st = Gicv3State { dist: vec![], rdist: vec![], icc: vec![], gicd_ctlr: 7 };
    let bytes = encode_gicv3_state(&st);
    assert_eq!(
        bytes,
        vec![1u8, 0, 0, 0, 0, 0, 0, 0, 0, 0, 0, 0, 0, 7, 0, 0, 0]
    );
}

#[test]
fn v3_exact_bytes_with_one_word() {
    let st = Gicv3State { dist: vec![0x0403_0201], rdist: vec![], icc: vec![], gicd_ctlr: 0 };
    let bytes = encode_gicv3_state(&st);
    assert_eq!(
        bytes,
        vec![1u8, 1, 0, 0, 0, 0x01, 0x02, 0x03, 0x04, 0, 0, 0, 0, 0, 0, 0, 0, 0, 0, 0, 0]
    );
}

#[test]
fn v3_round_trip() {
    let st = sample_v3();
    let bytes = encode_gicv3_state(&st);
    let back = decode_gicv3_state(&bytes).unwrap();
    assert_eq!(st, back);
}

#[test]
fn its_round_trip() {
    let st = sample_its();
    let bytes = encode_gicv3_its_state(&st);
    let back = decode_gicv3_its_state(&bytes).unwrap();
    assert_eq!(st, back);
}

#[test]
fn decoder_rejects_wrong_tag() {
    let st = sample_v3();
    let mut bytes = encode_gicv3_state(&st);
    bytes[0] = 2;
    assert!(decode_gicv3_state(&bytes).is_none());
    let st = sample_its();
    let mut bytes = encode_gicv3_its_state(&st);
    bytes[0] = 1;
    assert!(decode_gicv3_its_state(&bytes).is_none());
}

#[test]
fn decoder_rejects_truncated_input() {
    let st = sample_v3();
    let mut bytes = encode_gicv3_state(&st);
    bytes.pop();
    assert!(decode_gicv3_state(&bytes).is_none());
    assert!(decode_gicv3_state(&vec![]).is_none());
    assert!(decode_gicv3_state(&vec![1u8]).is_none());
}

#[test]
fn decoder_rejects_trailing_bytes() {
    let st = sample_v3();
    let mut bytes = encode_gicv3_state(&st);
    bytes.push(0);
    assert!(decode_gicv3_state(&bytes).is_none());
}

#[test]
fn its_decoder_rejects_missing_tail() {
    let st = sample_its();
    let mut bytes = encode_gicv3_its_state(&st);
    bytes.truncate(bytes.len() - 1);
    assert!(decode_gicv3_its_state(&bytes).is_none());
}

#[test]
fn decoded_fields_follow_the_wire_order() {
    let st = sample_its();
    let bytes = encode_gicv3_its_state(&st);
    let back = decode_gicv3_its_state(&bytes).unwrap();
    assert_eq!(back.its_ctlr, 1);
    assert_eq!(back.its_iidr, 0x0002_0003);
    assert_eq!(back.its_cbaser, 0xDEAD_BEEF_0000_0040);
    assert_eq!(back.its_cwriter, 0x80);
    assert_eq!(back.its_creadr, 0x60);
    assert_eq!(back.its_baser.len(), 8);
    assert_eq!(back.gic.gicd_ctlr, 0x3);
}
