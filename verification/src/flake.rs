//! The identifier: sixteen bytes, and the integer that they denote.

use crate::bigint::{
    biguint_from_u128, biguint_to_bytes, biguint_to_u128, biguint_value, bytes_to_biguint,
    too_large_message,
};
use crate::bytes::{
    be_bytes, be_bytes_to_u128, be_value, lemma_be_value_bound, lemma_be_value_of_be_bytes,
    lemma_pow256_widths, min_byte_len, to_array16, u128_to_be_bytes,
};
use crate::encoding::ascii::{all_alphanumeric, is_all_alphanumeric};
use crate::encoding::radix16::{
    hex_bytes, hex_decode, hex_encode, hex_text, is_hex_form, is_hex_text, lemma_hex_round_trip,
};
use crate::encoding::radix62::{
    base62_decode, base62_fixed, base62_value, encode_fixed, is_base62_form, is_base62_text,
};
use crate::error::{Error, ErrorView};
use crate::interop::uuid_bytes;
use crate::layout::{
    high_bits, lemma_pack_components, low_bits, pack, pack_components, random_of, timestamp_of,
    MAX_RANDOM, MAX_TIMEFLAKE, MAX_TIMESTAMP,
};
use crate::text::push_decimal;
use core::hash::{Hash, Hasher};
use core::str::FromStr;
use num_bigint::BigUint;
use uuid::Uuid;
use vstd::prelude::*;

verus! {

/// A 128-bit, roughly time-ordered identifier.
///
/// The sixteen bytes are the big-endian form of the value; the value is the
/// timestamp in its 48 high-order bits and the random component in its 80
/// low-order bits. An identifier never changes once it is built.
#[derive(Debug, Eq, Ord)]
pub struct Timeflake {
    /// The big-endian bytes of the value.
    bytes: [u8; 16],
    /// The value, equal to what `bytes` denotes.
    int_value: BigUint,
}

impl View for Timeflake {
    type V = Seq<u8>;

    /// The sixteen bytes.
    closed spec fn view(&self) -> Seq<u8> {
        self.bytes@
    }
}

/// What a constructor returns: the bytes of the identifier it built, or what
/// its error says.
pub open spec fn outcome(r: Result<Timeflake, Error>) -> Result<Seq<u8>, ErrorView> {
    match r {
        Ok(flake) => Ok(flake@),
        Err(e) => Err(e@),
    }
}

/// Why a string that is no Base62 numeral is refused.
pub open spec fn reason_invalid_base62() -> Seq<char> {
    "Invalid base62 encoding"@
}

/// Why a Base62 numeral that denotes more than 128 bits can hold is refused.
pub open spec fn reason_out_of_range() -> Seq<char> {
    "Base62 value out of range"@
}

/// Why a string that fits neither encoding is refused.
pub open spec fn reason_no_format() -> Seq<char> {
    "String must be either a 32-character hex string or a base62 string"@
}

impl Timeflake {
    #[verifier::type_invariant]
    spec fn well_formed(self) -> bool {
        biguint_value(self.int_value) == be_value(self.bytes@)
    }

    /// The integer value: what the sixteen bytes denote, most significant first.
    pub open spec fn value(&self) -> nat {
        be_value(self@)
    }

    /// The timestamp component, the 48 high-order bits of the value.
    pub open spec fn spec_timestamp(&self) -> nat {
        timestamp_of(self.value())
    }

    /// The random component, the 80 low-order bits of the value.
    pub open spec fn spec_random(&self) -> nat {
        random_of(self.value())
    }

    /// What `from_bytes` returns: every sixteen bytes are an identifier.
    pub open spec fn spec_from_bytes(bytes: Seq<u8>) -> Result<Seq<u8>, ErrorView> {
        Ok(bytes)
    }

    /// What `from_components` returns.
    pub open spec fn spec_from_components(timestamp: u64, random: nat) -> Result<
        Seq<u8>,
        ErrorView,
    > {
        if timestamp > MAX_TIMESTAMP {
            Err(ErrorView::InvalidTimestamp(timestamp))
        } else if random > MAX_RANDOM {
            Err(ErrorView::InvalidRandom)
        } else {
            Ok(be_bytes(pack(timestamp as nat, random), 16))
        }
    }

    /// What `from_bigint` returns for an integer that holds `value`.
    pub open spec fn spec_from_bigint(value: nat) -> Result<Seq<u8>, ErrorView> {
        if value <= MAX_TIMEFLAKE {
            Ok(be_bytes(value, 16))
        } else {
            Err(ErrorView::ConversionError(too_large_message(min_byte_len(value))))
        }
    }

    /// What `from_base62` returns.
    pub open spec fn spec_from_base62(s: Seq<char>) -> Result<Seq<u8>, ErrorView> {
        if !is_base62_text(s) {
            Err(ErrorView::ParseError { input: s, reason: reason_invalid_base62() })
        } else if base62_value(s) > MAX_TIMEFLAKE {
            Err(ErrorView::ParseError { input: s, reason: reason_out_of_range() })
        } else {
            Ok(be_bytes(base62_value(s), 16))
        }
    }

    /// What `from_str` returns: the hexadecimal reading wherever the string
    /// has the hexadecimal form, the Base62 reading for other strings of at
    /// most 22 letters and digits, and a refusal for the rest.
    pub open spec fn spec_from_str(s: Seq<char>) -> Result<Seq<u8>, ErrorView> {
        if is_hex_text(s) {
            Ok(hex_bytes(s))
        } else if s.len() <= 22 && all_alphanumeric(s) {
            Self::spec_from_base62(s)
        } else {
            Err(ErrorView::ParseError { input: s, reason: reason_no_format() })
        }
    }

    /// An identifier has sixteen bytes, and so a value of at most 128 bits.
    pub proof fn lemma_view(self)
        ensures
            self@.len() == 16,
            self.value() <= MAX_TIMEFLAKE,
    {
        lemma_be_value_bound(self@);
        lemma_pow256_widths();
    }

    /// The identifier with the given value.
    fn from_u128(value: u128) -> (flake: Timeflake)
        ensures
            flake@ == be_bytes(value as nat, 16),
            flake.value() == value,
    {
        let bytes = u128_to_be_bytes(value);
        let int_value = bytes_to_biguint(&bytes);
        Timeflake { bytes, int_value }
    }

    /// The value as a native integer.
    pub(crate) fn to_u128(&self) -> (value: u128)
        ensures
            value == self.value(),
    {
        be_bytes_to_u128(self.bytes.as_slice())
    }

    /// Builds the identifier for the time `now`, in milliseconds since the
    /// epoch, from ten bytes of entropy. The caller reads the clock and draws
    /// the entropy.
    pub fn new_random(now: u64, random_bytes: [u8; 10]) -> (flake: Timeflake)
        requires
            now <= MAX_TIMESTAMP,
        ensures
            flake@ == be_bytes(pack(now as nat, be_value(random_bytes@)), 16),
            flake.spec_timestamp() == now,
            flake.spec_random() == be_value(random_bytes@),
    {
        proof {
            lemma_be_value_bound(random_bytes@);
            lemma_pow256_widths();
            lemma_pack_components(now as nat, be_value(random_bytes@));
        }
        let random = be_bytes_to_u128(random_bytes.as_slice());
        Self::from_u128(pack_components(now, random))
    }

    /// Builds the identifier that has the given bytes. Every sixteen bytes
    /// denote a value within the range, so this never fails.
    pub fn from_bytes(bytes: [u8; 16]) -> (r: Result<Timeflake, Error>)
        ensures
            outcome(r) == Self::spec_from_bytes(bytes@),
            r matches Ok(flake) && flake@ == bytes@,
    {
        let int_value = bytes_to_biguint(&bytes);
        Ok(Timeflake { bytes, int_value })
    }

    /// Builds the identifier that has the given bytes.
    pub fn from_bytes_checked(bytes: [u8; 16]) -> (flake: Timeflake)
        ensures
            flake@ == bytes@,
    {
        Self::from_bytes(bytes).unwrap()
    }

    /// Builds an identifier from its two components.
    ///
    /// Fails with `InvalidTimestamp` where the timestamp exceeds
    /// `MAX_TIMESTAMP`, and otherwise with `InvalidRandom` where the random
    /// component exceeds `MAX_RANDOM`.
    pub fn from_components(timestamp: u64, random: &BigUint) -> (r: Result<Timeflake, Error>)
        ensures
            outcome(r) == Self::spec_from_components(timestamp, biguint_value(*random)),
            match r {
                Ok(flake) => flake.spec_timestamp() == timestamp && flake.spec_random()
                    == biguint_value(*random),
                Err(_) => timestamp > MAX_TIMESTAMP || biguint_value(*random) > MAX_RANDOM,
            },
    {
        if timestamp > MAX_TIMESTAMP {
            return Err(Error::InvalidTimestamp(timestamp));
        }
        let random = match biguint_to_u128(random) {
            Some(random) => random,
            None => {
                return Err(Error::InvalidRandom);
            },
        };
        if random > MAX_RANDOM {
            return Err(Error::InvalidRandom);
        }
        proof {
            lemma_pack_components(timestamp as nat, random as nat);
        }
        Ok(Self::from_u128(pack_components(timestamp, random)))
    }

    /// Builds an identifier from two components that are known to be within
    /// their ranges.
    pub fn from_components_checked(timestamp: u64, random: &BigUint) -> (flake: Timeflake)
        requires
            timestamp <= MAX_TIMESTAMP,
            biguint_value(*random) <= MAX_RANDOM,
        ensures
            flake@ == be_bytes(pack(timestamp as nat, biguint_value(*random)), 16),
            flake.spec_timestamp() == timestamp,
            flake.spec_random() == biguint_value(*random),
    {
        Self::from_components(timestamp, random).unwrap()
    }

    /// Reads a Base62 numeral.
    ///
    /// Fails with `ParseError` in two cases, which the reason tells apart: the
    /// string is empty or holds a character outside the alphabet, or the
    /// numeral denotes more than 128 bits can hold.
    pub fn from_base62(s: &str) -> (r: Result<Timeflake, Error>)
        ensures
            outcome(r) == Self::spec_from_base62(s@),
            r matches Ok(flake) ==> flake.value() == base62_value(s@),
    {
        if s.is_empty() || !is_all_alphanumeric(s) {
            return Err(
                Error::ParseError {
                    input: s.to_owned(),
                    reason: "Invalid base62 encoding".to_owned(),
                },
            );
        }
        match base62_decode(s) {
            Ok(value) => Ok(Self::from_u128(value)),
            Err(_) => Err(
                Error::ParseError {
                    input: s.to_owned(),
                    reason: "Base62 value out of range".to_owned(),
                },
            ),
        }
    }

    /// Reads a Base62 numeral that is known to denote an identifier.
    pub fn from_base62_checked(s: &str) -> (flake: Timeflake)
        requires
            is_base62_text(s@),
            base62_value(s@) <= MAX_TIMEFLAKE,
        ensures
            flake@ == be_bytes(base62_value(s@), 16),
            flake.value() == base62_value(s@),
    {
        Self::from_base62(s).unwrap()
    }

    /// Builds the identifier that has the given integer value.
    ///
    /// Fails with `ConversionError` where the integer does not fit in sixteen
    /// bytes; the error names the number of bytes that it needs.
    pub fn from_bigint(value: BigUint) -> (r: Result<Timeflake, Error>)
        ensures
            outcome(r) == Self::spec_from_bigint(biguint_value(value)),
            r matches Ok(flake) ==> flake.value() == biguint_value(value),
    {
        proof {
            if biguint_value(value) <= MAX_TIMEFLAKE {
                lemma_pow256_widths();
                lemma_be_value_of_be_bytes(biguint_value(value), 16);
            }
        }
        match biguint_to_bytes(&value) {
            Ok(bytes) => Self::from_bytes(bytes),
            Err(e) => Err(e),
        }
    }

    /// Builds the identifier that has the given integer value, known to fit
    /// in sixteen bytes.
    pub fn from_bigint_checked(value: BigUint) -> (flake: Timeflake)
        requires
            biguint_value(value) <= MAX_TIMEFLAKE,
        ensures
            flake@ == be_bytes(biguint_value(value), 16),
            flake.value() == biguint_value(value),
    {
        Self::from_bigint(value).unwrap()
    }

    /// Builds the identifier that has the bytes of a UUID. This never fails.
    pub fn from_uuid(uuid: Uuid) -> (r: Result<Timeflake, Error>)
        ensures
            outcome(r) == Self::spec_from_bytes(uuid_bytes(uuid)),
            r matches Ok(flake) && flake@ == uuid_bytes(uuid),
    {
        Self::from_bytes(uuid.into_bytes())
    }

    /// Builds the identifier that has the bytes of a UUID.
    pub fn from_uuid_checked(uuid: Uuid) -> (flake: Timeflake)
        ensures
            flake@ == uuid_bytes(uuid),
    {
        Self::from_uuid(uuid).unwrap()
    }

    /// The UUID that has the bytes of this identifier.
    pub fn to_uuid(&self) -> (uuid: Uuid)
        ensures
            uuid_bytes(uuid) == self@,
    {
        Uuid::from_bytes(self.bytes)
    }

    /// The Base62 form: the numeral of the value, padded with `0` to 22 symbols.
    pub fn to_base62(&self) -> (s: String)
        ensures
            s@ == base62_fixed(self.value()),
            s@.len() == 22,
    {
        encode_fixed(self.to_u128())
    }

    /// The timestamp component, in milliseconds since the epoch.
    pub fn timestamp(&self) -> (timestamp: u64)
        ensures
            timestamp == self.spec_timestamp(),
            timestamp <= MAX_TIMESTAMP,
    {
        high_bits(self.to_u128())
    }

    /// The random component.
    pub fn random(&self) -> (random: BigUint)
        ensures
            biguint_value(random) == self.spec_random(),
            biguint_value(random) <= MAX_RANDOM,
    {
        biguint_from_u128(low_bits(self.to_u128()))
    }

    /// The hexadecimal form: 32 lower-case symbols, two for each byte.
    pub fn to_hex(&self) -> (s: String)
        ensures
            s@ == hex_text(self@),
            s@.len() == 32,
    {
        proof {
            lemma_hex_round_trip(self@);
        }
        hex_encode(self.bytes.as_slice())
    }

    /// The sixteen bytes.
    pub fn to_bytes(&self) -> (bytes: &[u8; 16])
        ensures
            bytes@ == self@,
    {
        &self.bytes
    }

    /// The integer value.
    pub fn to_bigint(&self) -> (value: &BigUint)
        ensures
            biguint_value(*value) == self.value(),
    {
        proof {
            use_type_invariant(self);
        }
        &self.int_value
    }

    /// The default textual form, which is the Base62 form.
    pub fn to_string(&self) -> (s: String)
        ensures
            s@ == base62_fixed(self.value()),
            s@.len() == 22,
    {
        self.to_base62()
    }
}

impl FromStr for Timeflake {
    type Err = Error;

    /// Reads either textual form, telling them apart by their shape.
    ///
    /// A string of 32 characters, all digits or `a` to `f`, is read as
    /// hexadecimal, also where it would be a Base62 numeral too. Any other
    /// string of at most 22 letters and digits is read as Base62. Every other
    /// string is refused with `ParseError`.
    fn from_str(s: &str) -> (r: Result<Timeflake, Error>)
        ensures
            outcome(r) == Timeflake::spec_from_str(s@),
    {
        if is_hex_form(s) {
            // A string of this form always decodes to sixteen bytes; the two
            // refusals below only keep the match total.
            return match hex_decode(s) {
                Ok(bytes) => {
                    if bytes.len() != 16 {
                        let mut reason = "Expected 16 bytes, got ".to_owned();
                        push_decimal(&mut reason, bytes.len() as u64);
                        return Err(Error::ParseError { input: s.to_owned(), reason });
                    }
                    Timeflake::from_bytes(to_array16(bytes.as_slice()))
                },
                Err(_) => Err(
                    Error::ParseError { input: s.to_owned(), reason: "Invalid hex".to_owned() },
                ),
            };
        }
        if is_base62_form(s) {
            return Timeflake::from_base62(s);
        }
        Err(
            Error::ParseError {
                input: s.to_owned(),
                reason: "String must be either a 32-character hex string or a base62 string".to_owned(),
            },
        )
    }
}

impl Clone for Timeflake {
    /// An independent copy with the same bytes.
    fn clone(&self) -> (copy: Timeflake)
        ensures
            copy@ == self@,
    {
        proof {
            use_type_invariant(self);
        }
        Timeflake { bytes: self.bytes, int_value: self.int_value.clone() }
    }
}

impl Hash for Timeflake {
    /// `Hash::hash` on the sixteen bytes: the hash depends on the bytes and on
    /// nothing else, so equal identifiers hash alike.
    #[verifier::external_body]
    fn hash<H: Hasher>(&self, state: &mut H) {
        self.bytes.hash(state)
    }
}

} // verus!
