use rust_decoder::discriminator::{extract_discriminator, same_discriminator};
use rust_decoder::hex::hex_to_bytes;

#[test]
fn hex_plain_digits() {
    assert_eq!(hex_to_bytes("00ff7f"), Some(vec![0u8, 255, 127]));
}

#[test]
fn hex_with_prefix_and_mixed_case() {
    assert_eq!(hex_to_bytes("0x0A0b"), Some(vec![10u8, 11]));
}

#[test]
fn hex_trims_white_space() {
    assert_eq!(hex_to_bytes("  \tab\n"), Some(vec![171u8]));
    assert_eq!(hex_to_bytes("\u{3000}0x01\u{a0}"), Some(vec![1u8]));
}

#[test]
fn hex_empty_inputs() {
    assert_eq!(hex_to_bytes(""), Some(vec![]));
    assert_eq!(hex_to_bytes("0x"), Some(vec![]));
}

#[test]
fn hex_rejects_odd_length() {
    assert_eq!(hex_to_bytes("abc"), None);
    assert_eq!(hex_to_bytes("0x1"), None);
}

#[test]
fn hex_rejects_non_digits() {
    assert_eq!(hex_to_bytes("zz"), None);
    assert_eq!(hex_to_bytes("+f"), None);
    assert_eq!(hex_to_bytes("0X00"), None);
    assert_eq!(hex_to_bytes("a b "), None);
    assert_eq!(hex_to_bytes("é0"), None);
}

#[test]
fn hex_round_trip_lowercases() {
    let text = "DeadBEEF01";
    let bytes = hex_to_bytes(text).unwrap();
    let back: String = bytes.iter().map(|b| format!("{:02x}", b)).collect();
    assert_eq!(back, text.to_lowercase());
}

#[test]
fn discriminator_of_short_input() {
    assert_eq!(extract_discriminator(&[]), None);
    assert_eq!(extract_discriminator(&[1, 2, 3, 4, 5, 6, 7]), None);
}

#[test]
fn discriminator_is_first_eight_bytes() {
    let data = [1u8, 2, 3, 4, 5, 6, 7, 8, 9, 10];
    assert_eq!(extract_discriminator(&data), Some([1u8, 2, 3, 4, 5, 6, 7, 8]));
}

#[test]
fn discriminators_compared_bytewise() {
    assert!(same_discriminator(&[1; 8], &[1; 8]));
    assert!(!same_discriminator(&[1; 8], &[1, 1, 1, 1, 1, 1, 1, 2]));
}
