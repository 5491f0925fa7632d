use game_contracts::encoding::{decimal_to_ascii, push_big_uint_nested, push_u32_nested, push_u64_nested};
use multiversx_sc::codec::NestedEncode;

fn codec_nested<T: NestedEncode>(v: &T) -> Vec<u8> {
    let mut out: Vec<u8> = Vec::new();
    v.dep_encode(&mut out).unwrap();
    out
}

#[test]
fn u32_encoding_matches_codec() {
    for x in [0u32, 1, 255, 256, 0x01020304, u32::MAX] {
        let mut out = Vec::new();
        push_u32_nested(&mut out, x);
        assert_eq!(out, codec_nested(&x));
    }
}

#[test]
fn u64_encoding_matches_codec() {
    for x in [0u64, 1, 3600, 1_700_000_000, 0x0102030405060708, u64::MAX] {
        let mut out = Vec::new();
        push_u64_nested(&mut out, x);
        assert_eq!(out, codec_nested(&x));
    }
}

#[test]
fn big_uint_encoding_matches_codec() {
    for x in [0u128, 1, 255, 256, 65535, 180_000_000_000_000_000_000, u128::MAX] {
        let mut out = Vec::new();
        push_big_uint_nested(&mut out, x);
        // A managed big integer is nested-encoded as the buffer of its
        // shortest big-endian bytes.
        let bytes: Vec<u8> = x.to_be_bytes().iter().copied().skip_while(|b| *b == 0).collect();
        assert_eq!(out, codec_nested(&bytes));
    }
}

#[test]
fn encodings_append() {
    let mut out = vec![0xAA];
    push_u32_nested(&mut out, 7);
    assert_eq!(out, vec![0xAA, 0, 0, 0, 7]);
}

#[test]
fn decimal_text() {
    assert_eq!(decimal_to_ascii(0), b"0".to_vec());
    assert_eq!(decimal_to_ascii(100), b"100".to_vec());
    assert_eq!(decimal_to_ascii(4294967295), b"4294967295".to_vec());
}
