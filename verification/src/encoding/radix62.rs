//! Base62: numerals over the digits, the upper-case and the lower-case letters.
//!
//! The order of the alphabet is `0-9`, `A-Z`, `a-z`; it is this order, not
//! the order of the character codes, that gives each symbol its digit. An
//! identifier is written with exactly 22 symbols, padded on the left with
//! `0`: 22 is the least width that holds every 128-bit number, because
//! `62^21 < 2^128 < 62^22`.

use crate::encoding::ascii::{all_alphanumeric, is_all_alphanumeric, is_alphanumeric};
use base62::DecodeError;
use vstd::prelude::*;

verus! {

/// The alphabet, in the order of its digits: index 0 is `'0'`.
pub const BASE62: &'static str = "0123456789ABCDEFGHIJKLMNOPQRSTUVWXYZabcdefghijklmnopqrstuvwxyz";

/// How many symbols the fixed-width form has.
pub const BASE62_WIDTH: usize = 22;

/// The symbol of the digit `d`, `d < 62`.
pub open spec fn base62_symbol(d: nat) -> char {
    if d < 10 {
        (d + 48) as char
    } else if d < 36 {
        (d + 55) as char
    } else {
        (d + 61) as char
    }
}

/// The digit that the symbol `c` stands for.
pub open spec fn base62_digit(c: char) -> nat {
    if '0' <= c && c <= '9' {
        (c as int - 48) as nat
    } else if 'A' <= c && c <= 'Z' {
        (c as int - 55) as nat
    } else {
        (c as int - 61) as nat
    }
}

/// `62^n`.
pub open spec fn pow62(n: nat) -> nat
    decreases n,
{
    if n == 0 {
        1
    } else {
        62 * pow62((n - 1) as nat)
    }
}

/// The numeral of `v`: at least one symbol, no leading `0` but for zero itself.
pub open spec fn base62_digits(v: nat) -> Seq<char>
    decreases v,
{
    if v < 62 {
        seq![base62_symbol(v)]
    } else {
        base62_digits(v / 62).push(base62_symbol(v % 62))
    }
}

/// The number that a numeral denotes, most significant symbol first.
pub open spec fn base62_value(s: Seq<char>) -> nat
    decreases s.len(),
{
    if s.len() == 0 {
        0
    } else {
        base62_value(s.drop_last()) * 62 + base62_digit(s.last())
    }
}

/// A numeral: one symbol or more, each of the alphabet.
pub open spec fn is_base62_text(s: Seq<char>) -> bool {
    s.len() > 0 && all_alphanumeric(s)
}

/// The numeral of `v`, padded on the left with `'0'` to 22 symbols.
pub open spec fn base62_fixed(v: nat) -> Seq<char> {
    let digits = base62_digits(v);
    if digits.len() < 22 {
        Seq::new((22 - digits.len()) as nat, |i: int| '0') + digits
    } else {
        digits
    }
}

/// `base62::DecodeError`, the reason why `base62::decode` gave no number.
#[verifier::external_type_specification]
#[verifier::external_body]
pub struct ExDecodeError(base62::DecodeError);

/// `base62::encode`, taken on trust: the numeral of `v` in the standard
/// alphabet, `"0"` for zero and no leading `0` otherwise.
#[verifier::external_body]
pub(crate) fn base62_encode(v: u128) -> (s: String)
    ensures
        s@ == base62_digits(v as nat),
{
    ::base62::encode(v)
}

/// `base62::decode`, taken on trust: it gives a number exactly for the
/// non-empty strings of symbols of the standard alphabet that denote a number
/// of at most 128 bits, and the number is the one denoted; leading `0`s count
/// for nothing.
#[verifier::external_body]
pub(crate) fn base62_decode(s: &str) -> (r: Result<u128, DecodeError>)
    ensures
        match r {
            Ok(v) => is_base62_text(s@) && v == base62_value(s@),
            Err(_) => !is_base62_text(s@) || base62_value(s@) > u128::MAX,
        },
{
    ::base62::decode(s)
}

/// The alphabet constant lists the symbols in the order of their digits.
pub proof fn lemma_alphabet(d: nat)
    requires
        d < 62,
    ensures
        BASE62@.len() == 62,
        BASE62@[d as int] == base62_symbol(d),
{
    reveal_strlit("0123456789ABCDEFGHIJKLMNOPQRSTUVWXYZabcdefghijklmnopqrstuvwxyz");
}

/// The letters and digits are exactly the characters of the alphabet
/// constant.
pub proof fn lemma_alphabet_members(c: char)
    ensures
        BASE62@.contains(c) <==> is_alphanumeric(c),
{
    reveal_strlit("0123456789ABCDEFGHIJKLMNOPQRSTUVWXYZabcdefghijklmnopqrstuvwxyz");
    if is_alphanumeric(c) {
        let d = base62_digit(c);
        lemma_alphabet(d);
        assert(BASE62@[d as int] == c);
    }
    if BASE62@.contains(c) {
        let i = choose|i: int| 0 <= i < BASE62@.len() && BASE62@[i] == c;
        lemma_alphabet(i as nat);
        lemma_symbol_digit(i as nat);
    }
}

/// Symbols and digits correspond one to one.
pub proof fn lemma_symbol_digit(d: nat)
    requires
        d < 62,
    ensures
        is_alphanumeric(base62_symbol(d)),
        base62_digit(base62_symbol(d)) == d,
{
}

/// The widths at which the powers of 62 pass the 128-bit range.
pub proof fn lemma_pow62_widths()
    ensures
        pow62(21) == 43674252383913877424036476406214950912,
        pow62(22) == 2707803647802660400290261537185326956544,
        pow62(21) <= u128::MAX < pow62(22),
{
    reveal_with_fuel(pow62, 23);
}

/// A numeral is a well-formed text and denotes the number it was made from.
pub proof fn lemma_digits(v: nat)
    ensures
        is_base62_text(base62_digits(v)),
        base62_value(base62_digits(v)) == v,
    decreases v,
{
    let digits = base62_digits(v);
    if v < 62 {
        lemma_symbol_digit(v);
        assert(base62_value(digits.drop_last()) == 0);
    } else {
        lemma_digits(v / 62);
        lemma_symbol_digit(v % 62);
        assert(digits.drop_last() =~= base62_digits(v / 62));
    }
}

/// A number below `62^k` has a numeral of at most `k` symbols.
pub proof fn lemma_digits_len(v: nat, k: nat)
    requires
        k >= 1,
        v < pow62(k),
    ensures
        base62_digits(v).len() <= k,
    decreases k,
{
    if v >= 62 {
        reveal_with_fuel(pow62, 2);
        if k > 1 {
            lemma_digits_len(v / 62, (k - 1) as nat);
        }
    }
}

/// Appending `b` shifts `a` left by the width of `b`.
pub proof fn lemma_value_concat(a: Seq<char>, b: Seq<char>)
    ensures
        base62_value(a + b) == base62_value(a) * pow62(b.len()) + base62_value(b),
    decreases b.len(),
{
    if b.len() == 0 {
        assert(a + b =~= a);
        assert(base62_value(a) * 1 == base62_value(a));
    } else {
        let b0 = b.drop_last();
        assert((a + b).drop_last() =~= a + b0);
        assert((a + b).last() == b.last());
        lemma_value_concat(a, b0);
        let x = base62_value(a);
        let p = pow62(b0.len());
        assert(pow62(b.len()) == 62 * p);
        assert(x * (62 * p) == (x * p) * 62) by (nonlinear_arith);
        assert(base62_value(a + b) == (x * p + base62_value(b0)) * 62 + base62_digit(b.last()));
        assert(base62_value(a + b) == x * (62 * p) + base62_value(b));
    }
}

/// A run of `'0'` denotes zero.
pub proof fn lemma_value_zeros(k: nat)
    ensures
        base62_value(Seq::new(k, |i: int| '0')) == 0,
    decreases k,
{
    if k > 0 {
        assert(Seq::new(k, |i: int| '0').drop_last() =~= Seq::new((k - 1) as nat, |i: int| '0'));
        lemma_value_zeros((k - 1) as nat);
    }
}

/// The fixed-width form of a 128-bit number has exactly 22 symbols, all of
/// the alphabet, and denotes the number.
pub proof fn lemma_fixed(v: nat)
    requires
        v <= u128::MAX,
    ensures
        base62_fixed(v).len() == 22,
        is_base62_text(base62_fixed(v)),
        base62_value(base62_fixed(v)) == v,
{
    let digits = base62_digits(v);
    lemma_pow62_widths();
    lemma_digits_len(v, 22);
    lemma_digits(v);
    if digits.len() < 22 {
        let zeros = Seq::new((22 - digits.len()) as nat, |i: int| '0');
        lemma_value_zeros(zeros.len());
        lemma_value_concat(zeros, digits);
        assert(0 * pow62(digits.len()) == 0) by (nonlinear_arith);
        assert forall|i: int| 0 <= i < (zeros + digits).len() implies is_alphanumeric(
            #[trigger] (zeros + digits)[i],
        ) by {
            if i >= zeros.len() {
                assert((zeros + digits)[i] == digits[i - zeros.len()]);
            }
        }
    }
}

/// Whether `s` may be the Base62 form of an identifier: at most 22 symbols,
/// all of the alphabet.
pub fn is_base62_form(s: &str) -> (r: bool)
    ensures
        r == (s@.len() <= 22 && all_alphanumeric(s@)),
{
    proof {
        if all_alphanumeric(s@) {
            assert(vstd::utf8::is_ascii_chars(s@));
            vstd::string::is_ascii_spec_bytes(s);
        }
    }
    if s.as_bytes().len() > BASE62_WIDTH {
        return false;
    }
    is_all_alphanumeric(s)
}

/// The 22 symbols that stand for `v`.
pub fn encode_fixed(v: u128) -> (s: String)
    ensures
        s@ == base62_fixed(v as nat),
        s@.len() == 22,
{
    let encoded = base62_encode(v);
    proof {
        lemma_fixed(v as nat);
    }
    let len = encoded.as_str().unicode_len();
    if len < BASE62_WIDTH {
        let mut padded = String::new();
        let mut k: usize = len;
        while k < BASE62_WIDTH
            invariant
                len <= k <= 22,
                padded@ == Seq::new((k - len) as nat, |i: int| '0'),
            decreases 22 - k,
        {
            proof {
                reveal_strlit("0");
            }
            padded.append("0");
            k = k + 1;
        }
        padded.append(encoded.as_str());
        return padded;
    }
    encoded
}

} // verus!
