use tid::encoding::encode_native_string;
use tid::EncodingError;

#[test]
fn text_is_followed_by_one_zero_byte() {
    assert_eq!(encode_native_string("Unlock"), Ok(b"Unlock\0".to_vec()));
}

#[test]
fn empty_text_encodes_to_the_terminator_alone() {
    assert_eq!(encode_native_string(""), Ok(vec![0u8]));
}

#[test]
fn text_beyond_ascii_keeps_its_utf8_bytes() {
    let encoded = encode_native_string("Entsperren \u{00fc}ber Touch ID").unwrap();
    let mut expected = "Entsperren \u{00fc}ber Touch ID".as_bytes().to_vec();
    expected.push(0);
    assert_eq!(encoded, expected);
    assert_eq!(encoded.iter().filter(|b| **b == 0).count(), 1);
}

#[test]
fn zero_byte_inside_is_refused_with_its_position() {
    assert_eq!(encode_native_string("Use\0 Touch ID"), Err(EncodingError { nul_position: 3 }));
}

#[test]
fn first_of_several_zero_bytes_is_reported() {
    assert_eq!(encode_native_string("a\0b\0c\0"), Err(EncodingError { nul_position: 1 }));
    assert_eq!(encode_native_string("\0"), Err(EncodingError { nul_position: 0 }));
}

#[test]
fn position_counts_bytes_not_characters() {
    assert_eq!(encode_native_string("\u{00fc}\0"), Err(EncodingError { nul_position: 2 }));
}

#[test]
fn trailing_zero_byte_is_refused_too() {
    assert_eq!(encode_native_string("Cancel\0"), Err(EncodingError { nul_position: 6 }));
}
