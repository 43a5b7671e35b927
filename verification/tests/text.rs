use oura::mapper::certificates::ip_string_from_bytes;
use oura::text::{i128_to_string, i64_to_string, text_from_utf8, u128_to_string, u64_to_string, ToHex};

#[test]
fn hex_of_bytes_is_lowercase_pairs() {
    assert_eq!(vec![0u8, 1, 15, 16, 171, 255].to_hex(), "00010f10abff");
    assert_eq!(Vec::<u8>::new().to_hex(), "");
    let slice: &[u8] = &[222, 173, 190, 239];
    assert_eq!(slice.to_hex(), "deadbeef");
}

#[test]
fn decimal_of_numbers() {
    assert_eq!(u64_to_string(0), "0");
    assert_eq!(u64_to_string(7), "7");
    assert_eq!(u64_to_string(1234567890), "1234567890");
    assert_eq!(u64_to_string(u64::MAX), "18446744073709551615");
    assert_eq!(i64_to_string(-1), "-1");
    assert_eq!(i64_to_string(i64::MIN), "-9223372036854775808");
    assert_eq!(i128_to_string(i128::MIN), i128::MIN.to_string());
    assert_eq!(i128_to_string(-18446744073709551616), "-18446744073709551616");
}

#[test]
fn ip_string_is_dotted_decimal() {
    assert_eq!(ip_string_from_bytes(&[10, 0, 0, 1]), "10.0.0.1");
    assert_eq!(ip_string_from_bytes(&[255, 254, 253, 252, 9, 9]), "255.254.253.252");
}

#[test]
fn text_of_utf8_bytes() {
    assert_eq!(text_from_utf8(b"plain".to_vec()), Some("plain".to_string()));
    assert_eq!(text_from_utf8("\u{4f60}\u{597d}".as_bytes().to_vec()), Some("\u{4f60}\u{597d}".to_string()));
    assert_eq!(text_from_utf8(Vec::new()), Some(String::new()));
    assert_eq!(text_from_utf8(vec![0xc3]), None);
    assert_eq!(text_from_utf8(vec![0xff, 0x41]), None);
}

#[test]
fn hex_of_an_array() {
    assert_eq!([0x0au8, 0xb0].to_hex(), "0ab0");
    assert_eq!([0u8; 0].to_hex(), "");
    assert_eq!(u128_to_string(u128::MAX), u128::MAX.to_string());
}
