//! Big-endian byte strings and the numbers they denote.
//!
//! Every representation of an identifier is normalised through its sixteen
//! bytes; this module says which number a byte string stands for, which byte
//! string stands for a number, and proves that the two are inverse.

use vstd::prelude::*;

verus! {

/// `256^n`: how many values `n` bytes can tell apart.
pub open spec fn pow256(n: nat) -> nat
    decreases n,
{
    if n == 0 {
        1
    } else {
        256 * pow256((n - 1) as nat)
    }
}

/// The number that `s` denotes, most significant byte first.
pub open spec fn be_value(s: Seq<u8>) -> nat
    decreases s.len(),
{
    if s.len() == 0 {
        0
    } else {
        be_value(s.drop_last()) * 256 + s.last() as nat
    }
}

/// The `len` low-order bytes of `v`, most significant byte first.
pub open spec fn be_bytes(v: nat, len: nat) -> Seq<u8>
    decreases len,
{
    if len == 0 {
        Seq::empty()
    } else {
        be_bytes(v / 256, (len - 1) as nat).push((v % 256) as u8)
    }
}

/// How many bytes the shortest big-endian form of `v` has; zero takes one byte.
pub open spec fn min_byte_len(v: nat) -> nat
    decreases v,
{
    if v < 256 {
        1
    } else {
        1 + min_byte_len(v / 256)
    }
}

/// A byte string without superfluous leading zero bytes.
pub open spec fn is_minimal(s: Seq<u8>) -> bool {
    s.len() >= 1 && (s.len() > 1 ==> s[0] != 0)
}

/// The powers of 256 at the widths this crate works with.
pub proof fn lemma_pow256_widths()
    ensures
        pow256(0) == 1,
        pow256(1) == 0x100,
        pow256(6) == 0x1_0000_0000_0000,
        pow256(10) == 0x1_0000_0000_0000_0000_0000,
        pow256(15) == 0x1_0000_0000_0000_0000_0000_0000_0000_00,
        pow256(16) == 0x1_0000_0000_0000_0000_0000_0000_0000_0000,
{
    reveal_with_fuel(pow256, 17);
}

/// No power of 256 is zero.
pub proof fn lemma_pow256_positive(n: nat)
    ensures
        pow256(n) >= 1,
    decreases n,
{
    if n > 0 {
        lemma_pow256_positive((n - 1) as nat);
    }
}

/// A greater exponent gives no smaller power.
pub proof fn lemma_pow256_monotonic(a: nat, b: nat)
    requires
        a <= b,
    ensures
        pow256(a) <= pow256(b),
    decreases b,
{
    if a < b {
        lemma_pow256_monotonic(a, (b - 1) as nat);
    }
}

/// A string of `n` bytes denotes a number below `256^n`.
pub proof fn lemma_be_value_bound(s: Seq<u8>)
    ensures
        be_value(s) < pow256(s.len()),
    decreases s.len(),
{
    if s.len() > 0 {
        lemma_be_value_bound(s.drop_last());
    }
}

/// Appending `b` shifts `a` left by the width of `b`.
pub proof fn lemma_be_value_concat(a: Seq<u8>, b: Seq<u8>)
    ensures
        be_value(a + b) == be_value(a) * pow256(b.len()) + be_value(b),
    decreases b.len(),
{
    if b.len() == 0 {
        assert(a + b =~= a);
        assert(be_value(a) * 1 == be_value(a));
    } else {
        let b0 = b.drop_last();
        assert((a + b).drop_last() =~= a + b0);
        assert((a + b).last() == b.last());
        lemma_be_value_concat(a, b0);
        let x = be_value(a);
        let p = pow256(b0.len());
        assert(pow256(b.len()) == 256 * p);
        assert(x * (256 * p) == (x * p) * 256) by (nonlinear_arith);
        assert(be_value(a + b) == (x * p + be_value(b0)) * 256 + b.last());
        assert(be_value(a + b) == x * (256 * p) + be_value(b));
    }
}

/// A run of zero bytes denotes zero.
pub proof fn lemma_be_value_zeros(k: nat)
    ensures
        be_value(Seq::new(k, |i: int| 0u8)) == 0,
    decreases k,
{
    if k > 0 {
        assert(Seq::new(k, |i: int| 0u8).drop_last() =~= Seq::new((k - 1) as nat, |i: int| 0u8));
        lemma_be_value_zeros((k - 1) as nat);
    }
}

/// Leading zero bytes do not change the number.
pub proof fn lemma_be_value_zero_prefix(k: nat, s: Seq<u8>)
    ensures
        be_value(Seq::new(k, |i: int| 0u8) + s) == be_value(s),
{
    lemma_be_value_zeros(k);
    lemma_be_value_concat(Seq::new(k, |i: int| 0u8), s);
    assert(0 * pow256(s.len()) == 0) by (nonlinear_arith);
}

/// A string whose first byte is not zero uses its full width.
pub proof fn lemma_be_value_leading(s: Seq<u8>)
    requires
        s.len() >= 1,
        s[0] != 0,
    ensures
        be_value(s) >= pow256((s.len() - 1) as nat),
    decreases s.len(),
{
    if s.len() == 1 {
        assert(s.drop_last().len() == 0);
    } else {
        lemma_be_value_leading(s.drop_last());
    }
}

/// Writing at the width `len` gives `len` bytes.
pub proof fn lemma_be_bytes_len(v: nat, len: nat)
    ensures
        be_bytes(v, len).len() == len,
    decreases len,
{
    if len > 0 {
        lemma_be_bytes_len(v / 256, (len - 1) as nat);
    }
}

/// Reading back the `len` bytes of a number that fits in them gives the number.
pub proof fn lemma_be_value_of_be_bytes(v: nat, len: nat)
    requires
        v < pow256(len),
    ensures
        be_value(be_bytes(v, len)) == v,
    decreases len,
{
    if len > 0 {
        let head = be_bytes(v / 256, (len - 1) as nat);
        lemma_be_value_of_be_bytes(v / 256, (len - 1) as nat);
        assert(be_bytes(v, len).drop_last() =~= head);
    }
}

/// Writing out the number that a byte string denotes, at the string's own
/// width, gives the string.
pub proof fn lemma_be_bytes_of_be_value(s: Seq<u8>)
    ensures
        be_bytes(be_value(s), s.len()) == s,
    decreases s.len(),
{
    if s.len() > 0 {
        lemma_be_bytes_of_be_value(s.drop_last());
        assert(be_bytes(be_value(s), s.len()) =~= s);
    } else {
        assert(be_bytes(be_value(s), s.len()) =~= s);
    }
}

/// Writing a number at a width greater than that of a byte string which
/// denotes it pads the string with zero bytes on the left.
pub proof fn lemma_be_bytes_pads_left(s: Seq<u8>, len: nat)
    requires
        s.len() <= len,
    ensures
        be_bytes(be_value(s), len) == Seq::new((len - s.len()) as nat, |i: int| 0u8) + s,
{
    let padded = Seq::new((len - s.len()) as nat, |i: int| 0u8) + s;
    lemma_be_value_zero_prefix((len - s.len()) as nat, s);
    lemma_be_bytes_of_be_value(padded);
}

/// Two byte strings of one width that denote the same number are equal.
pub proof fn lemma_be_value_injective(a: Seq<u8>, b: Seq<u8>)
    requires
        a.len() == b.len(),
        be_value(a) == be_value(b),
    ensures
        a == b,
{
    lemma_be_bytes_of_be_value(a);
    lemma_be_bytes_of_be_value(b);
}

/// A number fits in `k` bytes exactly when its shortest form has at most `k`.
pub proof fn lemma_min_byte_len_fits(v: nat, k: nat)
    requires
        k >= 1,
    ensures
        min_byte_len(v) <= k <==> v < pow256(k),
    decreases k,
{
    lemma_pow256_widths();
    if v >= 256 {
        assert(min_byte_len(v) == 1 + min_byte_len(v / 256));
        if k > 1 {
            lemma_min_byte_len_fits(v / 256, (k - 1) as nat);
            assert(pow256(k) == 256 * pow256((k - 1) as nat));
        }
    } else {
        lemma_pow256_monotonic(1, k);
    }
}

/// The shortest big-endian form of a number has `min_byte_len` bytes.
pub proof fn lemma_minimal_len(s: Seq<u8>)
    requires
        is_minimal(s),
    ensures
        s.len() == min_byte_len(be_value(s)),
    decreases s.len(),
{
    if s.len() == 1 {
        assert(be_value(s.drop_last()) == 0);
    } else {
        let head = s.drop_last();
        lemma_be_value_leading(head);
        lemma_pow256_positive((head.len() - 1) as nat);
        lemma_minimal_len(head);
        assert(be_value(s) >= 256);
        assert(be_value(s) / 256 == be_value(head));
        assert(min_byte_len(be_value(s)) == 1 + min_byte_len(be_value(s) / 256));
    }
}

/// Reads up to sixteen bytes as one number, most significant byte first.
pub fn be_bytes_to_u128(bytes: &[u8]) -> (v: u128)
    requires
        bytes@.len() <= 16,
    ensures
        v == be_value(bytes@),
{
    let mut v: u128 = 0;
    let mut i: usize = 0;
    while i < bytes.len()
        invariant
            i <= bytes@.len() <= 16,
            v == be_value(bytes@.take(i as int)),
        decreases bytes@.len() - i,
    {
        proof {
            lemma_be_value_bound(bytes@.take(i as int));
            lemma_pow256_monotonic(i as nat, 15);
            lemma_pow256_widths();
            assert(bytes@.take(i + 1).drop_last() =~= bytes@.take(i as int));
        }
        v = v * 256 + bytes[i] as u128;
        i = i + 1;
    }
    proof {
        assert(bytes@.take(bytes@.len() as int) =~= bytes@);
    }
    v
}

/// Copies sixteen bytes into an array.
pub fn to_array16(bytes: &[u8]) -> (array: [u8; 16])
    requires
        bytes@.len() == 16,
    ensures
        array@ == bytes@,
{
    let mut array = [0u8; 16];
    let mut i: usize = 0;
    while i < 16
        invariant
            i <= 16,
            bytes@.len() == 16,
            forall|k: int| 0 <= k < i ==> array@[k] == bytes@[k],
        decreases 16 - i,
    {
        array[i] = bytes[i];
        i = i + 1;
    }
    proof {
        assert(array@ =~= bytes@);
    }
    array
}

/// Writes a number as sixteen bytes, most significant byte first.
pub fn u128_to_be_bytes(v: u128) -> (bytes: [u8; 16])
    ensures
        bytes@ == be_bytes(v as nat, 16),
        be_value(bytes@) == v,
{
    let mut bytes = [0u8; 16];
    let mut rest: u128 = v;
    let mut i: usize = 16;
    proof {
        assert(bytes@.subrange(16, 16) =~= Seq::<u8>::empty());
        assert(pow256(0) == 1);
        assert(rest * 1 == rest);
    }
    while i > 0
        invariant
            i <= 16,
            be_value(bytes@.subrange(i as int, 16)) + rest * pow256((16 - i) as nat) == v,
        decreases i,
    {
        let ghost tail = bytes@.subrange(i as int, 16);
        let ghost p = pow256((16 - i) as nat);
        let low: u8 = (rest % 256) as u8;
        let high: u128 = rest / 256;
        i = i - 1;
        bytes[i] = low;
        proof {
            assert(bytes@.subrange(i as int, 16) =~= seq![low] + tail);
            lemma_be_value_concat(seq![low], tail);
            assert(seq![low].drop_last() =~= Seq::<u8>::empty());
            assert(be_value(seq![low].drop_last()) == 0);
            assert(be_value(seq![low]) == low);
            assert(rest * p == high * (256 * p) + low * p) by (nonlinear_arith)
                requires
                    rest == high * 256 + low,
            ;
        }
        rest = high;
    }
    proof {
        assert(bytes@.subrange(0, 16) =~= bytes@);
        lemma_pow256_widths();
        lemma_be_value_bound(bytes@);
        assert(rest == 0) by (nonlinear_arith)
            requires
                be_value(bytes@) + rest * 0x1_0000_0000_0000_0000_0000_0000_0000_0000 == v,
                v < 0x1_0000_0000_0000_0000_0000_0000_0000_0000,
                rest >= 0,
        ;
        lemma_be_bytes_of_be_value(bytes@);
    }
    bytes
}

} // verus!
