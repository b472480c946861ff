use num_bigint::BigUint;
use num_traits::{One, Zero};
use timeflake::error::Error;
use timeflake::{
    max_random_biguint, max_timeflake_biguint, Timeflake, MAX_RANDOM, MAX_TIMEFLAKE,
    MAX_TIMESTAMP,
};
use uuid::Uuid;

fn decimal(text: &str) -> BigUint {
    BigUint::parse_bytes(text.as_bytes(), 10).unwrap()
}

#[test]
fn limits_have_their_normative_values() {
    assert_eq!(MAX_TIMESTAMP, 281474976710655);
    assert_eq!(MAX_TIMESTAMP, (1u64 << 48) - 1);
    assert_eq!(MAX_RANDOM, 1208925819614629174706175);
    assert_eq!(MAX_RANDOM, (1u128 << 80) - 1);
    assert_eq!(MAX_TIMEFLAKE, 340282366920938463463374607431768211455);
    assert_eq!(MAX_TIMEFLAKE, u128::MAX);
    assert_eq!(max_random_biguint(), decimal("1208925819614629174706175"));
    assert_eq!(max_timeflake_biguint(), decimal("340282366920938463463374607431768211455"));
}

#[test]
fn components_are_packed_high_and_low() {
    let flake = Timeflake::from_components(1, &BigUint::one()).unwrap();
    assert_eq!(flake.to_bigint(), &decimal("1208925819614629174706177"));
    assert_eq!(flake.to_hex(), "00000000000100000000000000000001");
    assert_eq!(flake.to_bytes(), &[0, 0, 0, 0, 0, 1, 0, 0, 0, 0, 0, 0, 0, 0, 0, 1]);
    assert_eq!(flake.timestamp(), 1);
    assert_eq!(flake.random(), BigUint::one());
}

#[test]
fn components_timestamp_only() {
    let flake = Timeflake::from_components(123, &BigUint::zero()).unwrap();
    assert_eq!(flake.timestamp(), 123);
    assert_eq!(flake.random(), BigUint::zero());
    assert_eq!(flake.to_bigint(), &decimal("148697875812599388488859648"));
    assert!(flake.to_bigint() <= &max_timeflake_biguint());
    assert_eq!(flake.to_hex(), "00000000007b00000000000000000000");
    assert_eq!(flake.to_base62(), "0000000BzNlPM8COrde99U");
}

#[test]
fn components_are_read_back() {
    let random = decimal("724773312193627487660233");
    let flake = Timeflake::from_components(1579091935216, &random).unwrap();
    assert_eq!(flake.timestamp(), 1579091935216);
    assert_eq!(flake.random(), random);
    assert_eq!(flake.to_bigint(), &decimal("1909005012028578488143182045514754249"));
    assert_eq!(flake.to_base62(), "02i1KoFfY3auBS745gImbZ");
}

#[test]
fn largest_components_give_the_largest_identifier() {
    let flake = Timeflake::from_components(MAX_TIMESTAMP, &max_random_biguint()).unwrap();
    assert_eq!(flake.to_bytes(), &[0xffu8; 16]);
    assert_eq!(flake.to_bigint(), &max_timeflake_biguint());
    assert_eq!(flake.timestamp(), MAX_TIMESTAMP);
    assert_eq!(flake.random(), max_random_biguint());
}

#[test]
fn timestamp_out_of_range_is_refused() {
    match Timeflake::from_components(MAX_TIMESTAMP + 1, &BigUint::zero()) {
        Err(Error::InvalidTimestamp(timestamp)) => assert_eq!(timestamp, 281474976710656),
        other => panic!("expected an invalid timestamp, got {:?}", other),
    }
    assert!(matches!(
        Timeflake::from_components(u64::MAX, &BigUint::zero()),
        Err(Error::InvalidTimestamp(u64::MAX))
    ));
    assert!(Timeflake::from_components(MAX_TIMESTAMP, &BigUint::zero()).is_ok());
}

#[test]
fn random_out_of_range_is_refused() {
    let too_large = max_random_biguint() + BigUint::one();
    assert!(matches!(Timeflake::from_components(0, &too_large), Err(Error::InvalidRandom)));
    assert!(matches!(
        Timeflake::from_components(MAX_TIMESTAMP, &too_large),
        Err(Error::InvalidRandom)
    ));
    assert!(matches!(
        Timeflake::from_components(0, &max_timeflake_biguint()),
        Err(Error::InvalidRandom)
    ));
    // Larger than 128 bits can hold.
    let huge = max_timeflake_biguint() + BigUint::one();
    assert!(matches!(Timeflake::from_components(0, &huge), Err(Error::InvalidRandom)));
    assert!(Timeflake::from_components(0, &max_random_biguint()).is_ok());
}

#[test]
fn timestamp_is_reported_before_random() {
    let too_large = max_random_biguint() + BigUint::one();
    assert!(matches!(
        Timeflake::from_components(MAX_TIMESTAMP + 1, &too_large),
        Err(Error::InvalidTimestamp(281474976710656))
    ));
}

#[test]
fn checked_constructors_build_the_same_identifiers() {
    let random = BigUint::from(456u32);
    let flake = Timeflake::from_components_checked(123, &random);
    assert_eq!(flake, Timeflake::from_components(123, &random).unwrap());
    assert_eq!(flake.to_hex(), "00000000007b000000000000000001c8");

    let bytes = [7u8; 16];
    assert_eq!(Timeflake::from_bytes_checked(bytes).to_bytes(), &bytes);

    let value = decimal("1909005012028578488143182045514754249");
    assert_eq!(Timeflake::from_bigint_checked(value.clone()).to_bigint(), &value);

    let uuid = Uuid::parse_str("016fa936-bff0-997a-0a3c-428548fee8c9").unwrap();
    assert_eq!(Timeflake::from_uuid_checked(uuid).to_uuid(), uuid);
}

#[test]
fn new_random_packs_time_and_entropy() {
    let flake = Timeflake::new_random(1700000000000, [1, 2, 3, 4, 5, 6, 7, 8, 9, 10]);
    assert_eq!(flake.timestamp(), 1700000000000);
    assert_eq!(flake.random(), decimal("4759477275222530853130"));
    assert_eq!(flake.to_bigint(), &decimal("2055173893344874356477774422530853130"));
    assert_eq!(flake.to_hex(), "018bcfe568000102030405060708090a");
    assert_eq!(flake.to_base62(), "02usyDNX6feFko1SuVyVfG");

    let first = Timeflake::new_random(0, [0u8; 10]);
    assert_eq!(first.to_bytes(), &[0u8; 16]);
    let last = Timeflake::new_random(MAX_TIMESTAMP, [0xffu8; 10]);
    assert_eq!(last.to_bytes(), &[0xffu8; 16]);
}

#[test]
fn bytes_round_trip() {
    for bytes in [[0u8; 16], [0xffu8; 16], [1, 2, 3, 4, 5, 6, 7, 8, 9, 10, 11, 12, 13, 14, 15, 16]] {
        let flake = Timeflake::from_bytes(bytes).unwrap();
        assert_eq!(flake.to_bytes(), &bytes);
        assert_eq!(Timeflake::from_bytes(*flake.to_bytes()).unwrap(), flake);
    }
}

#[test]
fn bytes_are_big_endian() {
    let flake = Timeflake::from_bytes([0, 0, 0, 0, 0, 0, 0, 0, 0, 0, 0, 0, 0, 0, 1, 2]).unwrap();
    assert_eq!(flake.to_bigint(), &BigUint::from(258u32));
    assert_eq!(flake.timestamp(), 0);
    assert_eq!(flake.random(), BigUint::from(258u32));

    let flake = Timeflake::from_bytes([0, 0, 0, 0, 1, 2, 0, 0, 0, 0, 0, 0, 0, 0, 0, 0]).unwrap();
    assert_eq!(flake.timestamp(), 258);
    assert_eq!(flake.random(), BigUint::zero());
}

#[test]
fn bigint_round_trip() {
    for text in ["0", "1", "1909005012028578488143182045514754249", "340282366920938463463374607431768211455"] {
        let value = decimal(text);
        let flake = Timeflake::from_bigint(value.clone()).unwrap();
        assert_eq!(flake.to_bigint(), &value);
        assert_eq!(Timeflake::from_bigint(flake.to_bigint().clone()).unwrap(), flake);
    }
}

#[test]
fn bigint_is_padded_on_the_left() {
    let flake = Timeflake::from_bigint(BigUint::from(0x0102u32)).unwrap();
    assert_eq!(flake.to_bytes(), &[0, 0, 0, 0, 0, 0, 0, 0, 0, 0, 0, 0, 0, 0, 1, 2]);
    let zero = Timeflake::from_bigint(BigUint::zero()).unwrap();
    assert_eq!(zero.to_bytes(), &[0u8; 16]);
}

#[test]
fn bigint_too_large_names_the_bytes_it_needs() {
    let value = max_timeflake_biguint() + BigUint::one();
    match Timeflake::from_bigint(value) {
        Err(Error::ConversionError(details)) => {
            assert_eq!(details, "BigUint is too large to fit in 16 bytes (got 17 bytes)")
        },
        other => panic!("expected a conversion error, got {:?}", other),
    }

    let value = BigUint::from_bytes_be(&[1u8; 123]);
    match Timeflake::from_bigint(value) {
        Err(Error::ConversionError(details)) => {
            assert_eq!(details, "BigUint is too large to fit in 16 bytes (got 123 bytes)")
        },
        other => panic!("expected a conversion error, got {:?}", other),
    }
}

#[test]
fn uuid_round_trip() {
    let uuid = Uuid::parse_str("016fa936-bff0-997a-0a3c-428548fee8c9").unwrap();
    let flake = Timeflake::from_uuid(uuid).unwrap();
    assert_eq!(
        flake.to_bytes(),
        &[
            0x01, 0x6f, 0xa9, 0x36, 0xbf, 0xf0, 0x99, 0x7a, 0x0a, 0x3c, 0x42, 0x85, 0x48, 0xfe,
            0xe8, 0xc9
        ]
    );
    assert_eq!(flake.to_uuid(), uuid);
    assert_eq!(flake.to_uuid().into_bytes(), *flake.to_bytes());
    assert_eq!(Timeflake::from_uuid(flake.to_uuid()).unwrap(), flake);
}

#[test]
fn clone_is_an_independent_equal_copy() {
    let flake = Timeflake::from_components(123, &BigUint::from(456u32)).unwrap();
    let copy = flake.clone();
    assert_eq!(copy, flake);
    assert_eq!(copy.to_bytes(), flake.to_bytes());
    assert_eq!(copy.to_bigint(), flake.to_bigint());
    drop(flake);
    assert_eq!(copy.timestamp(), 123);
}
