//! Laws that relate the operations on identifiers to one another.
//!
//! Each law is stated over the functions that say what an operation returns,
//! so that it holds of every identifier and of every input, not of examples.

use crate::bytes::{
    be_value, is_minimal, lemma_be_bytes_len, lemma_be_bytes_of_be_value,
    lemma_be_bytes_pads_left, lemma_be_value_of_be_bytes, lemma_pow256_widths,
};
use crate::encoding::radix16::{hex_bytes, hex_text, is_hex_text, lemma_hex_round_trip};
use crate::encoding::radix62::{base62_fixed, lemma_fixed};
use crate::error::ErrorView;
use crate::flake::Timeflake;
use crate::layout::{
    lemma_components_of, lemma_pack_components, lemma_pack_is_shift_or, pack, random_of,
    timestamp_of, MAX_RANDOM, MAX_TIMEFLAKE, MAX_TIMESTAMP,
};
use vstd::prelude::*;

verus! {

/// What holds of every identifier: it has sixteen bytes; its value is within
/// 128 bits; its two components are within their ranges; and the value is the
/// timestamp shifted left by 80 bits, joined to the random component.
pub proof fn law_invariants(x: Timeflake)
    ensures
        x@.len() == 16,
        x.value() <= MAX_TIMEFLAKE,
        x.spec_timestamp() <= MAX_TIMESTAMP,
        x.spec_random() <= MAX_RANDOM,
        x.value() == pack(x.spec_timestamp(), x.spec_random()),
        x.value() == ((x.spec_timestamp() as u128) << 80) | (x.spec_random() as u128),
{
    x.lemma_view();
    lemma_components_of(x.value());
    lemma_pack_is_shift_or(x.spec_timestamp() as u64, x.spec_random() as u128);
}

/// Building an identifier from the bytes of an identifier gives the
/// identifier back.
pub proof fn law_bytes_round_trip(x: Timeflake)
    ensures
        Timeflake::spec_from_bytes(x@) == Ok::<Seq<u8>, ErrorView>(x@),
{
}

/// Building an identifier from the integer value of an identifier gives the
/// identifier back.
pub proof fn law_bigint_round_trip(x: Timeflake)
    ensures
        Timeflake::spec_from_bigint(x.value()) == Ok::<Seq<u8>, ErrorView>(x@),
{
    x.lemma_view();
    lemma_be_bytes_of_be_value(x@);
}

/// The identifier built from an integer has the shortest big-endian form of
/// the integer, padded with zero bytes on the left to sixteen bytes.
pub proof fn law_bigint_is_padded(shortest: Seq<u8>)
    requires
        is_minimal(shortest),
        shortest.len() <= 16,
    ensures
        Timeflake::spec_from_bigint(be_value(shortest)) == Ok::<Seq<u8>, ErrorView>(
            Seq::new((16 - shortest.len()) as nat, |i: int| 0u8) + shortest,
        ),
{
    lemma_be_bytes_pads_left(shortest, 16);
    crate::bytes::lemma_be_value_bound(shortest);
    crate::bytes::lemma_pow256_monotonic(shortest.len(), 16);
    lemma_pow256_widths();
}

/// Reading the Base62 form of an identifier gives the identifier back,
/// whether it is read as Base62 or as a string of either form.
pub proof fn law_base62_round_trip(x: Timeflake)
    ensures
        Timeflake::spec_from_base62(base62_fixed(x.value())) == Ok::<Seq<u8>, ErrorView>(x@),
        Timeflake::spec_from_str(base62_fixed(x.value())) == Ok::<Seq<u8>, ErrorView>(x@),
{
    x.lemma_view();
    lemma_fixed(x.value());
    lemma_be_bytes_of_be_value(x@);
}

/// Reading the hexadecimal form of an identifier gives the identifier back.
pub proof fn law_hex_round_trip(x: Timeflake)
    ensures
        Timeflake::spec_from_str(hex_text(x@)) == Ok::<Seq<u8>, ErrorView>(x@),
{
    x.lemma_view();
    lemma_hex_round_trip(x@);
}

/// Both textual forms have a fixed width: 22 symbols in Base62 and 32 in
/// hexadecimal, for every identifier, zero included.
pub proof fn law_fixed_width(x: Timeflake)
    ensures
        base62_fixed(x.value()).len() == 22,
        hex_text(x@).len() == 32,
{
    x.lemma_view();
    lemma_fixed(x.value());
    lemma_hex_round_trip(x@);
}

/// A timestamp is refused exactly where it exceeds `MAX_TIMESTAMP`, whatever
/// the random component is.
pub proof fn law_timestamp_range(timestamp: u64, random: nat)
    ensures
        Timeflake::spec_from_components(timestamp, random) == Err::<Seq<u8>, ErrorView>(
            ErrorView::InvalidTimestamp(timestamp),
        ) <==> timestamp > MAX_TIMESTAMP,
{
}

/// With a timestamp within its range, a random component is refused exactly
/// where it exceeds `MAX_RANDOM`. (A timestamp out of range is reported
/// first, whatever the random component is.)
pub proof fn law_random_range(timestamp: u64, random: nat)
    requires
        timestamp <= MAX_TIMESTAMP,
    ensures
        Timeflake::spec_from_components(timestamp, random) == Err::<Seq<u8>, ErrorView>(
            ErrorView::InvalidRandom,
        ) <==> random > MAX_RANDOM,
{
}

/// Components within their ranges always give an identifier, and the
/// identifier has exactly the components it was built from.
pub proof fn law_packing(timestamp: u64, random: nat)
    requires
        timestamp <= MAX_TIMESTAMP,
        random <= MAX_RANDOM,
    ensures
        Timeflake::spec_from_components(timestamp, random) matches Ok(bytes) && {
            &&& bytes.len() == 16
            &&& be_value(bytes) == pack(timestamp as nat, random)
            &&& be_value(bytes) <= MAX_TIMEFLAKE
            &&& timestamp_of(be_value(bytes)) == timestamp
            &&& random_of(be_value(bytes)) == random
        },
{
    let value = pack(timestamp as nat, random);
    lemma_pack_components(timestamp as nat, random);
    lemma_pow256_widths();
    lemma_be_bytes_len(value, 16);
    lemma_be_value_of_be_bytes(value, 16);
}

/// An identifier built from components reports them: its timestamp and its
/// random component are the ones that were given.
pub proof fn law_components_read_back(x: Timeflake, timestamp: u64, random: nat)
    requires
        Timeflake::spec_from_components(timestamp, random) == Ok::<Seq<u8>, ErrorView>(x@),
    ensures
        x.spec_timestamp() == timestamp,
        x.spec_random() == random,
{
    law_packing(timestamp, random);
}

/// A string in the hexadecimal form is read as hexadecimal, and never as
/// Base62, though its characters are letters and digits.
pub proof fn law_hex_precedence(s: Seq<char>)
    requires
        is_hex_text(s),
    ensures
        Timeflake::spec_from_str(s) == Ok::<Seq<u8>, ErrorView>(hex_bytes(s)),
        hex_bytes(s).len() == 16,
{
}

} // verus!
