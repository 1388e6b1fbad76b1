use callee::wire::{decode_u64, encode_i32_seq, encode_u64, starts_with};
use callee::StructReturn;

#[test]
fn scalar_is_eight_little_endian_bytes() {
    assert_eq!(encode_u64(30), vec![30, 0, 0, 0, 0, 0, 0, 0]);
    assert_eq!(encode_u64(0), vec![0; 8]);
    assert_eq!(encode_u64(0x0102_0304_0506_0708), vec![8, 7, 6, 5, 4, 3, 2, 1]);
    assert_eq!(encode_u64(u64::MAX), vec![255; 8]);
}

#[test]
fn scalar_encoding_is_the_serializer_s() {
    for value in [0u64, 1, 10, 30, 255, 256, 1 << 40, u64::MAX] {
        let expected = anchor_lang::prelude::borsh::to_vec(&value).unwrap();
        assert_eq!(encode_u64(value), expected);
        assert_eq!(encode_u64(value), value.to_le_bytes().to_vec());
    }
}

#[test]
fn record_is_its_field() {
    let record = StructReturn { value: 11 };
    assert_eq!(record.serialize(), vec![11, 0, 0, 0, 0, 0, 0, 0]);
    assert_eq!(record.serialize(), encode_u64(11));
}

#[test]
fn sequence_is_length_then_items() {
    let bytes = encode_i32_seq(&vec![12, -46, 32, 87]).unwrap();
    assert_eq!(
        bytes,
        vec![4, 0, 0, 0, 12, 0, 0, 0, 210, 255, 255, 255, 32, 0, 0, 0, 87, 0, 0, 0]
    );
    assert_eq!(bytes.len(), 20);
}

#[test]
fn empty_sequence_is_its_length() {
    assert_eq!(encode_i32_seq(&Vec::new()).unwrap(), vec![0, 0, 0, 0]);
}

#[test]
fn sequence_keeps_the_order_and_the_sign() {
    let bytes = encode_i32_seq(&vec![i32::MIN, -1, 0, 1, i32::MAX]).unwrap();
    assert_eq!(
        bytes,
        vec![
            5, 0, 0, 0, 0, 0, 0, 128, 255, 255, 255, 255, 0, 0, 0, 0, 1, 0, 0, 0, 255, 255, 255,
            127,
        ]
    );
}

#[test]
fn sequence_encoding_is_the_serializer_s() {
    let items: Vec<i32> = (0..300).map(|i| i * 7919 - 1_000_000).collect();
    let expected = anchor_lang::prelude::borsh::to_vec(&items).unwrap();
    assert_eq!(encode_i32_seq(&items).unwrap(), expected);
    assert_eq!(expected.len(), 4 + 4 * 300);
}

#[test]
fn decode_reads_the_first_eight_bytes() {
    assert_eq!(decode_u64(&[10, 0, 0, 0, 0, 0, 0, 0]), Some(10));
    assert_eq!(decode_u64(&[8, 7, 6, 5, 4, 3, 2, 1]), Some(0x0102_0304_0506_0708));
    assert_eq!(decode_u64(&[1, 0, 0, 0, 0, 0, 0, 0, 99, 98]), Some(1));
}

#[test]
fn decode_needs_eight_bytes() {
    assert_eq!(decode_u64(&[]), None);
    assert_eq!(decode_u64(&[1, 2, 3, 4, 5, 6, 7]), None);
}

#[test]
fn decode_undoes_encode() {
    for value in [0u64, 1, 10, 30, 255, 256, 65_536, 1 << 40, u64::MAX - 1, u64::MAX] {
        assert_eq!(decode_u64(&encode_u64(value)), Some(value));
    }
}

#[test]
fn starts_with_compares_the_front() {
    assert!(starts_with(&[1, 2, 3], &[]));
    assert!(starts_with(&[1, 2, 3], &[1, 2]));
    assert!(starts_with(&[1, 2, 3], &[1, 2, 3]));
    assert!(!starts_with(&[1, 2, 3], &[1, 3]));
    assert!(!starts_with(&[1, 2, 3], &[2]));
    assert!(!starts_with(&[1, 2], &[1, 2, 3]));
    assert!(starts_with(&[], &[]));
}
