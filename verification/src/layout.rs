//! How the 128 bits of an identifier are divided between its two components.
//!
//! The timestamp occupies the 48 high-order bits and the random component the
//! 80 low-order bits: `value == (timestamp << 80) | random`. The two fields
//! never overlap, so the same rule reads as `timestamp * 2^80 + random`.

use vstd::prelude::*;

verus! {

/// The largest timestamp, `2^48 - 1` milliseconds.
pub const MAX_TIMESTAMP: u64 = 281474976710655;

/// The largest random component, `2^80 - 1`.
pub const MAX_RANDOM: u128 = 1208925819614629174706175;

/// The largest identifier, `2^128 - 1`.
pub const MAX_TIMEFLAKE: u128 = 340282366920938463463374607431768211455;

/// How many values the random component can take, `2^80`.
pub const RANDOM_SPAN: u128 = 1208925819614629174706176;

/// The value of the identifier with the given components.
pub open spec fn pack(timestamp: nat, random: nat) -> nat {
    timestamp * RANDOM_SPAN as nat + random
}

/// The timestamp component of an identifier's value.
pub open spec fn timestamp_of(value: nat) -> nat {
    value / RANDOM_SPAN as nat
}

/// The random component of an identifier's value.
pub open spec fn random_of(value: nat) -> nat {
    value % RANDOM_SPAN as nat
}

/// Packing by multiplication and addition is packing by shift and bitwise
/// or, and the components are read back by shift and mask.
pub proof fn lemma_pack_is_shift_or(timestamp: u64, random: u128)
    requires
        timestamp <= MAX_TIMESTAMP,
        random <= MAX_RANDOM,
    ensures
        ((timestamp as u128) << 80) | random == pack(timestamp as nat, random as nat),
        (((timestamp as u128) << 80) | random) >> 80 == timestamp,
        (((timestamp as u128) << 80) | random) & MAX_RANDOM == random,
{
    assert(((timestamp as u128) << 80) | random == timestamp * 0x1_0000_0000_0000_0000_0000
        + random) by (bit_vector)
        requires
            timestamp <= 0xFFFF_FFFF_FFFF,
            random <= 0xFFFF_FFFF_FFFF_FFFF_FFFF,
    ;
    assert((((timestamp as u128) << 80) | random) >> 80 == timestamp) by (bit_vector)
        requires
            timestamp <= 0xFFFF_FFFF_FFFF,
            random <= 0xFFFF_FFFF_FFFF_FFFF_FFFF,
    ;
    assert((((timestamp as u128) << 80) | random) & 0xFFFF_FFFF_FFFF_FFFF_FFFF == random)
        by (bit_vector)
        requires
            timestamp <= 0xFFFF_FFFF_FFFF,
            random <= 0xFFFF_FFFF_FFFF_FFFF_FFFF,
    ;
}

/// Every 128-bit value is the packing of its own two components, and both
/// are within their ranges.
pub proof fn lemma_components_of(value: nat)
    requires
        value <= MAX_TIMEFLAKE,
    ensures
        timestamp_of(value) <= MAX_TIMESTAMP,
        random_of(value) <= MAX_RANDOM,
        pack(timestamp_of(value), random_of(value)) == value,
{
}

/// The components of a packed value are the ones that were packed, and the
/// packed value is within the 128-bit range.
pub proof fn lemma_pack_components(timestamp: nat, random: nat)
    requires
        timestamp <= MAX_TIMESTAMP,
        random <= MAX_RANDOM,
    ensures
        pack(timestamp, random) <= MAX_TIMEFLAKE,
        timestamp_of(pack(timestamp, random)) == timestamp,
        random_of(pack(timestamp, random)) == random,
{
}

/// A later timestamp gives a larger value, whatever the random components.
pub proof fn lemma_pack_monotonic(timestamp1: nat, random1: nat, timestamp2: nat, random2: nat)
    requires
        timestamp1 < timestamp2,
        random1 <= MAX_RANDOM,
    ensures
        pack(timestamp1, random1) < pack(timestamp2, random2),
{
}

/// Puts a timestamp above a random component.
pub(crate) fn pack_components(timestamp: u64, random: u128) -> (value: u128)
    requires
        timestamp <= MAX_TIMESTAMP,
        random <= MAX_RANDOM,
    ensures
        value == pack(timestamp as nat, random as nat),
{
    proof {
        lemma_pack_is_shift_or(timestamp, random);
    }
    ((timestamp as u128) << 80) | random
}

/// Reads the timestamp, the 48 high-order bits.
pub(crate) fn high_bits(value: u128) -> (timestamp: u64)
    ensures
        timestamp == timestamp_of(value as nat),
        timestamp <= MAX_TIMESTAMP,
{
    assert(value >> 80 == value / 0x1_0000_0000_0000_0000_0000) by (bit_vector);
    assert(value >> 80 <= 0xFFFF_FFFF_FFFF) by (bit_vector);
    (value >> 80) as u64
}

/// Reads the random component, the 80 low-order bits.
pub(crate) fn low_bits(value: u128) -> (random: u128)
    ensures
        random == random_of(value as nat),
        random <= MAX_RANDOM,
{
    assert(value & 0xFFFF_FFFF_FFFF_FFFF_FFFF == value % 0x1_0000_0000_0000_0000_0000)
        by (bit_vector);
    value & MAX_RANDOM
}

} // verus!
