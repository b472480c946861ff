use std::str::FromStr;
use timeflake::encoding::ascii::{is_all_alphanumeric, is_all_lower_hex};
use timeflake::encoding::radix16::is_hex_form;
use timeflake::encoding::radix62::{encode_fixed, is_base62_form};
use timeflake::error::Error;
use timeflake::{Timeflake, BASE62, HEX};

const SAMPLE: [u8; 16] = [
    0x01, 0x6f, 0xa9, 0x36, 0xbf, 0xf0, 0x99, 0x7a, 0x0a, 0x3c, 0x42, 0x85, 0x48, 0xfe, 0xe8, 0xc9,
];

fn parse_error(result: Result<Timeflake, Error>) -> (String, String) {
    match result {
        Err(Error::ParseError { input, reason }) => (input, reason),
        other => panic!("expected a parse error, got {:?}", other),
    }
}

#[test]
fn alphabets_are_in_digit_order() {
    assert_eq!(BASE62, "0123456789ABCDEFGHIJKLMNOPQRSTUVWXYZabcdefghijklmnopqrstuvwxyz");
    assert_eq!(BASE62.len(), 62);
    assert_eq!(BASE62.chars().next(), Some('0'));
    assert_eq!(HEX, "0123456789abcdef");
}

#[test]
fn zero_has_fixed_width_forms() {
    let zero = Timeflake::from_bytes([0u8; 16]).unwrap();
    assert_eq!(zero.to_base62(), "0000000000000000000000");
    assert_eq!(zero.to_base62().len(), 22);
    assert_eq!(zero.to_hex(), "00000000000000000000000000000000");
    assert_eq!(zero.to_hex().len(), 32);
}

#[test]
fn largest_identifier_has_fixed_width_forms() {
    let max = Timeflake::from_bytes([0xffu8; 16]).unwrap();
    assert_eq!(max.to_base62(), "7n42DGM5Tflk9n8mt7Fhc7");
    assert_eq!(max.to_hex(), "ffffffffffffffffffffffffffffffff");
}

#[test]
fn encode_fixed_pads_with_the_zero_symbol() {
    assert_eq!(encode_fixed(0), "0000000000000000000000");
    assert_eq!(encode_fixed(61), "000000000000000000000z");
    assert_eq!(encode_fixed(62), "0000000000000000000010");
    assert_eq!(encode_fixed(1337), "00000000000000000000LZ");
    assert_eq!(encode_fixed(u128::MAX), "7n42DGM5Tflk9n8mt7Fhc7");
}

#[test]
fn base62_uses_upper_case_before_lower_case() {
    assert_eq!(encode_fixed(10), "000000000000000000000A");
    assert_eq!(encode_fixed(35), "000000000000000000000Z");
    assert_eq!(encode_fixed(36), "000000000000000000000a");
    let flake = Timeflake::from_base62("Aa").unwrap();
    assert_eq!(flake.to_bytes()[14..], [0x02, 0x90]);
}

#[test]
fn base62_round_trip() {
    for bytes in [[0u8; 16], [0xffu8; 16], SAMPLE] {
        let flake = Timeflake::from_bytes(bytes).unwrap();
        let text = flake.to_base62();
        assert_eq!(Timeflake::from_base62(&text).unwrap(), flake);
        assert_eq!(Timeflake::from_str(&text).unwrap(), flake);
        assert_eq!(Timeflake::from_str(&text).unwrap().to_bytes(), &bytes);
    }
}

#[test]
fn hex_round_trip() {
    for bytes in [[0u8; 16], [0xffu8; 16], SAMPLE] {
        let flake = Timeflake::from_bytes(bytes).unwrap();
        let text = flake.to_hex();
        assert_eq!(Timeflake::from_str(&text).unwrap(), flake);
        assert_eq!(Timeflake::from_str(&text).unwrap().to_bytes(), &bytes);
    }
}

#[test]
fn from_str_reads_hex() {
    let flake = Timeflake::from_str("016fa936bff0997a0a3c428548fee8c9").unwrap();
    assert_eq!(flake.to_bytes(), &SAMPLE);
    assert_eq!(flake.to_base62(), "02i1KoFfY3auBS745gImbZ");
}

#[test]
fn from_str_reads_base62() {
    let flake = Timeflake::from_str("02i1KoFfY3auBS745gImbZ").unwrap();
    assert_eq!(flake.to_bytes(), &SAMPLE);
    assert_eq!(flake.to_hex(), "016fa936bff0997a0a3c428548fee8c9");
}

#[test]
fn parse_goes_through_from_str() {
    let flake: Timeflake = "02i1KoFfY3auBS745gImbZ".parse().unwrap();
    assert_eq!(flake.to_bytes(), &SAMPLE);
}

#[test]
fn hex_form_is_read_as_hex_not_base62() {
    // All digits: a numeral in both alphabets. Read as hex it is 16, read as
    // Base62 it would be 62.
    let text = "00000000000000000000000000000010";
    let flake = Timeflake::from_str(text).unwrap();
    assert_eq!(flake.to_hex(), text);
    assert_eq!(flake.to_base62(), "000000000000000000000G");
    assert_eq!(flake.to_bytes()[15], 16);

    let text = "abcdefabcdefabcdefabcdefabcdefab";
    let flake = Timeflake::from_str(text).unwrap();
    assert_eq!(flake.to_hex(), text);
}

#[test]
fn from_str_refuses_upper_case_hex() {
    let text = "016FA936BFF0997A0A3C428548FEE8C9";
    let (input, reason) = parse_error(Timeflake::from_str(text));
    assert_eq!(input, text);
    assert_eq!(reason, "String must be either a 32-character hex string or a base62 string");
}

#[test]
fn from_str_refuses_other_shapes() {
    let reason_expected = "String must be either a 32-character hex string or a base62 string";
    for text in [
        "00000000000000000000000",
        "016fa936bff0997a0a3c428548fee8c",
        "016fa936bff0997a0a3c428548fee8c9a",
        "016fa936-bff0-997a-0a3c-428548fee8c9",
        "02i1KoFfY3auBS745gImb!",
        "02i1KoFfY3 uBS745gImbZ",
        "ü",
        "016fa936bff0997a0a3c428548fee8cg",
    ] {
        let (input, reason) = parse_error(Timeflake::from_str(text));
        assert_eq!(input, text);
        assert_eq!(reason, reason_expected);
    }
}

#[test]
fn from_str_refuses_the_empty_string() {
    let (input, reason) = parse_error(Timeflake::from_str(""));
    assert_eq!(input, "");
    assert_eq!(reason, "Invalid base62 encoding");
}

#[test]
fn from_base62_reads_short_numerals() {
    let zero = Timeflake::from_base62("0").unwrap();
    assert_eq!(zero.to_bytes(), &[0u8; 16]);

    let flake = Timeflake::from_base62("LZ").unwrap();
    let mut expected = [0u8; 16];
    expected[14] = 0x05;
    expected[15] = 0x39;
    assert_eq!(flake.to_bytes(), &expected);
    assert_eq!(Timeflake::from_str("LZ").unwrap().to_bytes(), &expected);
}

#[test]
fn from_base62_ignores_leading_zeros() {
    let flake = Timeflake::from_base62("0000000000000000000000000LZ").unwrap();
    assert_eq!(flake.to_base62(), "00000000000000000000LZ");
}

#[test]
fn from_base62_reads_the_largest_identifier() {
    let flake = Timeflake::from_base62("7n42DGM5Tflk9n8mt7Fhc7").unwrap();
    assert_eq!(flake.to_bytes(), &[0xffu8; 16]);
}

#[test]
fn from_base62_refuses_what_is_no_numeral() {
    for text in ["", "02i1KoFfY3auBS745gImb!", "-1", "LZ ", "é", "0_10"] {
        let (input, reason) = parse_error(Timeflake::from_base62(text));
        assert_eq!(input, text);
        assert_eq!(reason, "Invalid base62 encoding");
    }
}

#[test]
fn from_base62_refuses_values_out_of_range() {
    for text in [
        "7n42DGM5Tflk9n8mt7Fhc8",
        "zzzzzzzzzzzzzzzzzzzzzz",
        "10000000000000000000000",
        "zzzzzzzzzzzzzzzzzzzzzzzzzzzzzzzzzzzzzzzz",
    ] {
        let (input, reason) = parse_error(Timeflake::from_base62(text));
        assert_eq!(input, text);
        assert_eq!(reason, "Base62 value out of range");
    }
    let (_, reason) = parse_error(Timeflake::from_str("7n42DGM5Tflk9n8mt7Fhc8"));
    assert_eq!(reason, "Base62 value out of range");
}

#[test]
fn from_base62_checked_reads_a_valid_numeral() {
    let flake = Timeflake::from_base62_checked("02i1KoFfY3auBS745gImbZ");
    assert_eq!(flake.to_bytes(), &SAMPLE);
}

#[test]
fn to_string_is_the_base62_form() {
    let flake = Timeflake::from_bytes(SAMPLE).unwrap();
    assert_eq!(flake.to_string(), "02i1KoFfY3auBS745gImbZ");
    assert_eq!(flake.to_string(), flake.to_base62());
}

#[test]
fn character_classes() {
    assert!(is_all_alphanumeric(""));
    assert!(is_all_alphanumeric("09AZaz"));
    assert!(!is_all_alphanumeric("09AZ-az"));
    assert!(!is_all_alphanumeric("/"));
    assert!(!is_all_alphanumeric(":"));
    assert!(!is_all_alphanumeric("@"));
    assert!(!is_all_alphanumeric("["));
    assert!(!is_all_alphanumeric("`"));
    assert!(!is_all_alphanumeric("{"));
    assert!(!is_all_alphanumeric("é"));

    assert!(is_all_lower_hex(""));
    assert!(is_all_lower_hex("0123456789abcdef"));
    assert!(!is_all_lower_hex("g"));
    assert!(!is_all_lower_hex("A"));
    assert!(!is_all_lower_hex("`"));
    assert!(!is_all_lower_hex("0é"));
}

#[test]
fn shapes_of_the_two_forms() {
    assert!(is_hex_form("016fa936bff0997a0a3c428548fee8c9"));
    assert!(!is_hex_form("016fa936bff0997a0a3c428548fee8c"));
    assert!(!is_hex_form("016fa936bff0997a0a3c428548fee8c9a"));
    assert!(!is_hex_form("016FA936BFF0997A0A3C428548FEE8C9"));
    assert!(!is_hex_form(""));
    // 32 bytes, but fewer characters, and not all of them hexadecimal.
    assert!(!is_hex_form("éééééééééééééééé"));

    assert!(is_base62_form(""));
    assert!(is_base62_form("02i1KoFfY3auBS745gImbZ"));
    assert!(!is_base62_form("02i1KoFfY3auBS745gImbZ0"));
    assert!(!is_base62_form("02i1KoFfY3auBS745gImb-"));
    assert!(!is_base62_form("ééééééééééé"));
}
