use bulk_rpc::encoding::{
    bytes_eq, minimal_bytes, push_hex_digits, push_lit, push_quantity_digits, u64_bytes,
};
use bulk_rpc::types::{Address, Bloom, Bytes, Hash256, U256};

#[test]
fn hex_digits_of_bytes() {
    let mut out: Vec<u8> = Vec::new();
    push_hex_digits(&mut out, &[0x00, 0x00, 0x1a]);
    assert_eq!(out, b"00001a".to_vec());
}

#[test]
fn hex_digits_of_empty() {
    let mut out: Vec<u8> = Vec::new();
    push_hex_digits(&mut out, &[]);
    assert_eq!(out, Vec::<u8>::new());
}

#[test]
fn quantity_digits_strip_leading_zeros() {
    let mut out: Vec<u8> = Vec::new();
    push_quantity_digits(&mut out, &[0x00, 0x00, 0x1a]);
    assert_eq!(out, b"1a".to_vec());
}

#[test]
fn quantity_digits_of_zero_is_single_digit() {
    let mut out: Vec<u8> = Vec::new();
    push_quantity_digits(&mut out, &[0x00, 0x00, 0x00]);
    assert_eq!(out, b"0".to_vec());
}

#[test]
fn quantity_digits_keep_low_nibble_zero() {
    let mut out: Vec<u8> = Vec::new();
    push_quantity_digits(&mut out, &[0x04, 0xd2]);
    assert_eq!(out, b"4d2".to_vec());
}

#[test]
fn push_lit_appends_utf8_bytes() {
    let mut out: Vec<u8> = Vec::new();
    push_lit(&mut out, "null");
    assert_eq!(out, b"null".to_vec());
}

#[test]
fn u64_bytes_is_big_endian() {
    assert_eq!(u64_bytes(0x0102030405060708), vec![1, 2, 3, 4, 5, 6, 7, 8]);
    assert_eq!(u64_bytes(0), vec![0; 8]);
}

#[test]
fn minimal_bytes_strips_leading_zero_bytes() {
    assert_eq!(minimal_bytes(&[0, 0, 9, 0]), vec![9, 0]);
    assert_eq!(minimal_bytes(&[0, 0]), Vec::<u8>::new());
}

#[test]
fn bytes_eq_compares_contents() {
    assert!(bytes_eq(&[1, 2], &[1, 2]));
    assert!(!bytes_eq(&[1, 2], &[1, 3]));
    assert!(!bytes_eq(&[1, 2], &[1, 2, 3]));
}

#[test]
fn hash256_rejects_wrong_length() {
    assert!(Hash256::new(vec![0; 31]).is_none());
    assert!(Hash256::new(vec![0; 32]).is_some());
}

#[test]
fn address_rejects_wrong_length() {
    assert!(Address::new(vec![0; 19]).is_none());
    assert!(Address::new(vec![0; 20]).is_some());
}

#[test]
fn u256_rejects_wrong_length() {
    assert!(U256::new(vec![0; 33]).is_none());
    assert!(U256::new(vec![0; 32]).is_some());
}

#[test]
fn bloom_rejects_wrong_length() {
    assert!(Bloom::new(vec![0; 255]).is_none());
    assert!(Bloom::new(vec![0; 256]).is_some());
}

#[test]
fn bytes_wraps_any_length() {
    let b = Bytes::new(vec![1, 2, 3]);
    assert_eq!(b.bytes, vec![1, 2, 3]);
}
