use nanolog_rs::encoding::{push_bytes, push_dec_u128, push_dec_u64};

#[test]
fn test_decimal_rendering() {
    let mut out = Vec::new();
    push_dec_u128(&mut out, 0);
    assert_eq!(out, b"0".to_vec());

    let mut out = Vec::new();
    push_dec_u64(&mut out, 12345);
    assert_eq!(out, b"12345".to_vec());

    let mut out = Vec::new();
    push_dec_u128(&mut out, u128::MAX);
    assert_eq!(out, b"340282366920938463463374607431768211455".to_vec());
}

#[test]
fn test_push_bytes_appends_in_order() {
    let mut out = b"ab".to_vec();
    push_bytes(&mut out, b"cd");
    assert_eq!(out, b"abcd".to_vec());
}
