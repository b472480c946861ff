//! Hexadecimal: two symbols for each byte, the high-order half first.
//!
//! Identifiers are written in lower case, 32 symbols for their 16 bytes, and
//! only that form is read as hexadecimal.

use crate::encoding::ascii::{all_lower_hex, is_all_lower_hex, is_lower_hex};
use hex::FromHexError;
use vstd::prelude::*;

verus! {

/// The alphabet, in the order of its digits.
pub const HEX: &'static str = "0123456789abcdef";

/// How many symbols the hexadecimal form of an identifier has.
pub const HEX_WIDTH: usize = 32;

/// The lower-case symbol of the digit `d`, `d < 16`.
pub open spec fn hex_symbol(d: nat) -> char {
    if d < 10 {
        (d + 48) as char
    } else {
        (d + 87) as char
    }
}

/// A hexadecimal symbol in either case.
pub open spec fn is_hex_symbol(c: char) -> bool {
    is_lower_hex(c) || ('A' <= c && c <= 'F')
}

/// The digit that the symbol `c` stands for, in either case.
pub open spec fn hex_digit(c: char) -> nat {
    if '0' <= c && c <= '9' {
        (c as int - 48) as nat
    } else if 'a' <= c && c <= 'f' {
        (c as int - 87) as nat
    } else {
        (c as int - 55) as nat
    }
}

/// The lower-case hexadecimal form of `bytes`.
pub open spec fn hex_text(bytes: Seq<u8>) -> Seq<char> {
    Seq::new(
        2 * bytes.len(),
        |i: int|
            if i % 2 == 0 {
                hex_symbol((bytes[i / 2] / 16) as nat)
            } else {
                hex_symbol((bytes[i / 2] % 16) as nat)
            },
    )
}

/// The bytes that a string of an even number of hexadecimal symbols denotes.
pub open spec fn hex_bytes(s: Seq<char>) -> Seq<u8> {
    Seq::new(
        s.len() / 2,
        |i: int| (hex_digit(s[2 * i]) * 16 + hex_digit(s[2 * i + 1])) as u8,
    )
}

/// Every symbol is hexadecimal, in either case.
pub open spec fn all_hex(s: Seq<char>) -> bool {
    forall|i: int| 0 <= i < s.len() ==> is_hex_symbol(#[trigger] s[i])
}

/// The hexadecimal form of an identifier: 32 symbols, digits and `a` to `f`.
pub open spec fn is_hex_text(s: Seq<char>) -> bool {
    s.len() == 32 && all_lower_hex(s)
}

/// `hex::FromHexError`, the reason why `hex::decode` gave no bytes.
#[verifier::external_type_specification]
#[verifier::external_body]
pub struct ExFromHexError(hex::FromHexError);

/// `hex::encode`, taken on trust: two lower-case symbols for each byte, the
/// high-order half first.
#[verifier::external_body]
pub(crate) fn hex_encode(bytes: &[u8]) -> (s: String)
    ensures
        s@ == hex_text(bytes@),
{
    ::hex::encode(bytes)
}

/// `hex::decode`, taken on trust: it gives bytes exactly for the strings of
/// an even number of hexadecimal symbols, upper or lower case, and each byte
/// is the one that its two symbols denote.
#[verifier::external_body]
pub(crate) fn hex_decode(s: &str) -> (r: Result<Vec<u8>, FromHexError>)
    ensures
        match r {
            Ok(bytes) => s@.len() % 2 == 0 && all_hex(s@) && bytes@ == hex_bytes(s@),
            Err(_) => s@.len() % 2 != 0 || !all_hex(s@),
        },
{
    ::hex::decode(s)
}

/// The alphabet constant lists the symbols in the order of their digits.
pub proof fn lemma_alphabet(d: nat)
    requires
        d < 16,
    ensures
        HEX@.len() == 16,
        HEX@[d as int] == hex_symbol(d),
{
    reveal_strlit("0123456789abcdef");
}

/// The lower-case hexadecimal symbols are exactly the characters of the
/// alphabet constant.
pub proof fn lemma_alphabet_members(c: char)
    ensures
        HEX@.contains(c) <==> is_lower_hex(c),
{
    reveal_strlit("0123456789abcdef");
    if is_lower_hex(c) {
        let d = hex_digit(c);
        lemma_alphabet(d);
        assert(HEX@[d as int] == c);
    }
    if HEX@.contains(c) {
        let i = choose|i: int| 0 <= i < HEX@.len() && HEX@[i] == c;
        lemma_alphabet(i as nat);
        lemma_symbol_digit(i as nat);
    }
}

/// Symbols and digits correspond one to one.
pub proof fn lemma_symbol_digit(d: nat)
    requires
        d < 16,
    ensures
        is_lower_hex(hex_symbol(d)),
        hex_digit(hex_symbol(d)) == d,
{
}

/// The hexadecimal form of `n` bytes has `2n` lower-case symbols, and reading
/// it back gives the bytes.
pub proof fn lemma_hex_round_trip(bytes: Seq<u8>)
    ensures
        hex_text(bytes).len() == 2 * bytes.len(),
        all_lower_hex(hex_text(bytes)),
        all_hex(hex_text(bytes)),
        hex_bytes(hex_text(bytes)) == bytes,
{
    let text = hex_text(bytes);
    assert forall|i: int| 0 <= i < text.len() implies is_lower_hex(#[trigger] text[i]) by {
        lemma_symbol_digit((bytes[i / 2] / 16) as nat);
        lemma_symbol_digit((bytes[i / 2] % 16) as nat);
    }
    assert forall|k: int| 0 <= k < bytes.len() implies #[trigger] hex_bytes(text)[k]
        == bytes[k] by {
        lemma_symbol_digit((bytes[k] / 16) as nat);
        lemma_symbol_digit((bytes[k] % 16) as nat);
        assert(text[2 * k] == hex_symbol((bytes[k] / 16) as nat));
        assert(text[2 * k + 1] == hex_symbol((bytes[k] % 16) as nat));
    }
    assert(hex_bytes(text) =~= bytes);
}

/// Whether `s` has the hexadecimal form of an identifier.
pub fn is_hex_form(s: &str) -> (r: bool)
    ensures
        r == is_hex_text(s@),
{
    proof {
        if all_lower_hex(s@) {
            assert(vstd::utf8::is_ascii_chars(s@));
            vstd::string::is_ascii_spec_bytes(s);
        }
    }
    if s.as_bytes().len() != HEX_WIDTH {
        return false;
    }
    is_all_lower_hex(s)
}

} // verus!
