use timeflake::bytes::{be_bytes_to_u128, to_array16, u128_to_be_bytes};
use timeflake::text::push_decimal;

#[test]
fn bytes_are_read_most_significant_first() {
    assert_eq!(be_bytes_to_u128(&[]), 0);
    assert_eq!(be_bytes_to_u128(&[0]), 0);
    assert_eq!(be_bytes_to_u128(&[1, 2]), 258);
    assert_eq!(be_bytes_to_u128(&[0, 0, 1, 2]), 258);
    assert_eq!(be_bytes_to_u128(&[0xff; 10]), (1u128 << 80) - 1);
    assert_eq!(be_bytes_to_u128(&[0xff; 16]), u128::MAX);
    let sample = [
        0x01, 0x6f, 0xa9, 0x36, 0xbf, 0xf0, 0x99, 0x7a, 0x0a, 0x3c, 0x42, 0x85, 0x48, 0xfe, 0xe8,
        0xc9,
    ];
    assert_eq!(be_bytes_to_u128(&sample), 1909005012028578488143182045514754249);
    assert_eq!(be_bytes_to_u128(&sample), u128::from_be_bytes(sample));
}

#[test]
fn numbers_are_written_most_significant_first() {
    assert_eq!(u128_to_be_bytes(0), [0u8; 16]);
    assert_eq!(u128_to_be_bytes(258), [0, 0, 0, 0, 0, 0, 0, 0, 0, 0, 0, 0, 0, 0, 1, 2]);
    assert_eq!(u128_to_be_bytes(u128::MAX), [0xffu8; 16]);
    let value = 1909005012028578488143182045514754249u128;
    assert_eq!(u128_to_be_bytes(value), value.to_be_bytes());
    assert_eq!(be_bytes_to_u128(&u128_to_be_bytes(value)), value);
}

#[test]
fn sixteen_bytes_are_copied() {
    let bytes: Vec<u8> = (1..=16).collect();
    assert_eq!(to_array16(&bytes), [1, 2, 3, 4, 5, 6, 7, 8, 9, 10, 11, 12, 13, 14, 15, 16]);
}

#[test]
fn decimal_numerals() {
    for (n, expected) in [
        (0u64, "0"),
        (7, "7"),
        (10, "10"),
        (17, "17"),
        (1009, "1009"),
        (281474976710656, "281474976710656"),
        (u64::MAX, "18446744073709551615"),
    ] {
        let mut out = String::from("n=");
        push_decimal(&mut out, n);
        assert_eq!(out, format!("n={}", expected));
        assert_eq!(&out[2..], n.to_string());
    }
}
