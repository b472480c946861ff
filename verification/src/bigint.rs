//! Arbitrary-precision integers at the edge of the library.
//!
//! Callers hand in and take out `num_bigint::BigUint` values. The library
//! itself computes on the sixteen bytes and on `u128`; this module states
//! what is taken on trust about `BigUint` and converts in both directions.

use crate::bytes::{
    be_bytes, be_value, is_minimal, lemma_be_bytes_pads_left, lemma_min_byte_len_fits,
    lemma_minimal_len, lemma_pow256_widths, min_byte_len, u128_to_be_bytes,
};
use crate::error::{Error, ErrorView};
use crate::layout::{MAX_RANDOM, MAX_TIMEFLAKE};
use crate::text::{decimal_text, push_decimal};
use num_bigint::BigUint;
use num_traits::ToPrimitive;
use vstd::prelude::*;

verus! {

/// `num_bigint::BigUint`, an unsigned integer of any size. The proofs see
/// nothing of its inside; they speak of it through [`biguint_value`].
#[verifier::external_type_specification]
#[verifier::external_body]
pub struct ExBigUint(num_bigint::BigUint);

/// The number that a `BigUint` holds.
pub uninterp spec fn biguint_value(n: BigUint) -> nat;

/// `BigUint::from_bytes_be`, taken on trust: the result holds the number that
/// the bytes denote, most significant byte first (zero for no bytes).
pub assume_specification[ BigUint::from_bytes_be ](bytes: &[u8]) -> (n: BigUint)
    ensures
        biguint_value(n) == be_value(bytes@),
;

/// `BigUint::to_bytes_be`, taken on trust: the result denotes the number, most
/// significant byte first, and is its shortest such form (one zero byte for
/// zero, otherwise no leading zero byte).
pub assume_specification[ BigUint::to_bytes_be ](n: &BigUint) -> (bytes: Vec<u8>)
    ensures
        be_value(bytes@) == biguint_value(*n),
        is_minimal(bytes@),
;

/// `<BigUint as Clone>::clone`, taken on trust: the copy holds the same number.
pub assume_specification[ <BigUint as Clone>::clone ](n: &BigUint) -> (copy: BigUint)
    ensures
        biguint_value(copy) == biguint_value(*n),
;

/// `ToPrimitive::to_u128` on a `BigUint`, taken on trust: the number itself
/// where it fits in 128 bits, and `None` where it does not.
#[verifier::external_body]
pub(crate) fn biguint_to_u128(n: &BigUint) -> (r: Option<u128>)
    ensures
        match r {
            Some(v) => v == biguint_value(*n),
            None => biguint_value(*n) > u128::MAX,
        },
{
    n.to_u128()
}

/// The `BigUint` that holds `v`.
pub(crate) fn biguint_from_u128(v: u128) -> (n: BigUint)
    ensures
        biguint_value(n) == v,
{
    let bytes = u128_to_be_bytes(v);
    BigUint::from_bytes_be(bytes.as_slice())
}

/// The `BigUint` that sixteen big-endian bytes denote.
pub(crate) fn bytes_to_biguint(bytes: &[u8; 16]) -> (n: BigUint)
    ensures
        biguint_value(n) == be_value(bytes@),
{
    BigUint::from_bytes_be(bytes.as_slice())
}

/// What a conversion error says of a number that needs `len` bytes.
pub open spec fn too_large_message(len: nat) -> Seq<char> {
    "BigUint is too large to fit in 16 bytes (got "@ + decimal_text(len) + " bytes)"@
}

/// The sixteen big-endian bytes of `n`, padded with zero bytes on the left.
/// Fails where `n` needs more than sixteen bytes, and says how many.
pub(crate) fn biguint_to_bytes(n: &BigUint) -> (r: Result<[u8; 16], Error>)
    ensures
        match r {
            Ok(bytes) => biguint_value(*n) <= MAX_TIMEFLAKE && bytes@ == be_bytes(
                biguint_value(*n),
                16,
            ),
            Err(e) => biguint_value(*n) > MAX_TIMEFLAKE && e@ == ErrorView::ConversionError(
                too_large_message(min_byte_len(biguint_value(*n))),
            ),
        },
{
    let bytes = n.to_bytes_be();
    proof {
        lemma_minimal_len(bytes@);
        lemma_min_byte_len_fits(biguint_value(*n), 16);
        lemma_pow256_widths();
    }
    if bytes.len() > 16 {
        let mut details = "BigUint is too large to fit in 16 bytes (got ".to_owned();
        push_decimal(&mut details, bytes.len() as u64);
        details.append(" bytes)");
        return Err(Error::ConversionError(details));
    }
    let offset = 16 - bytes.len();
    let mut result = [0u8; 16];
    let mut i: usize = 0;
    while i < bytes.len()
        invariant
            i <= bytes@.len() <= 16,
            offset == 16 - bytes@.len(),
            forall|k: int| 0 <= k < offset ==> result@[k] == 0,
            forall|k: int| 0 <= k < i ==> result@[offset + k] == bytes@[k],
        decreases bytes@.len() - i,
    {
        result[offset + i] = bytes[i];
        i = i + 1;
    }
    proof {
        assert(result@ =~= Seq::new(offset as nat, |k: int| 0u8) + bytes@);
        lemma_be_bytes_pads_left(bytes@, 16);
    }
    Ok(result)
}

/// The largest random component, `2^80 - 1`, as a `BigUint`.
pub fn max_random_biguint() -> (n: BigUint)
    ensures
        biguint_value(n) == MAX_RANDOM,
{
    biguint_from_u128(MAX_RANDOM)
}

/// The largest identifier, `2^128 - 1`, as a `BigUint`.
pub fn max_timeflake_biguint() -> (n: BigUint)
    ensures
        biguint_value(n) == MAX_TIMEFLAKE,
{
    biguint_from_u128(MAX_TIMEFLAKE)
}

} // verus!
