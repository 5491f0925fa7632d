//! Byte encodings that the contracts sign and verify: the MultiversX nested
//! encoding of fixed-width integers and of big unsigned integers, and the
//! decimal text of an integer.

use vstd::prelude::*;

verus! {

/// The nested encoding of a `u32`: its four bytes, most significant first.
pub open spec fn u32_nested(x: u32) -> Seq<u8> {
    seq![
        (x / 0x1000000) as u8,
        ((x / 0x10000) % 0x100) as u8,
        ((x / 0x100) % 0x100) as u8,
        (x % 0x100) as u8,
    ]
}

/// The nested encoding of a `u64`: its eight bytes, most significant first.
pub open spec fn u64_nested(x: u64) -> Seq<u8> {
    seq![
        (x / 0x100000000000000) as u8,
        ((x / 0x1000000000000) % 0x100) as u8,
        ((x / 0x10000000000) % 0x100) as u8,
        ((x / 0x100000000) % 0x100) as u8,
        ((x / 0x1000000) % 0x100) as u8,
        ((x / 0x10000) % 0x100) as u8,
        ((x / 0x100) % 0x100) as u8,
        (x % 0x100) as u8,
    ]
}

/// The value of a big-endian byte string.
pub open spec fn be_value(s: Seq<u8>) -> nat
    decreases s.len(),
{
    if s.len() == 0 {
        0
    } else {
        (be_value(s.drop_last()) * 256 + s.last()) as nat
    }
}

/// The shortest big-endian byte string of a number: empty for zero.
pub open spec fn minimal_be(x: nat) -> Seq<u8>
    decreases x,
{
    if x == 0 {
        Seq::empty()
    } else {
        minimal_be(x / 256).push((x % 256) as u8)
    }
}

/// The nested encoding of a big unsigned integer: the length of its shortest
/// big-endian bytes as a `u32`, then those bytes.
pub open spec fn big_uint_nested(x: u128) -> Seq<u8> {
    let bytes = minimal_be(x as nat);
    u32_nested(bytes.len() as u32) + bytes
}

/// The ASCII digits of a number in base ten, without leading zeros.
pub open spec fn decimal_digits(n: nat) -> Seq<u8>
    decreases n,
{
    if n < 10 {
        seq![(48 + n) as u8]
    } else {
        decimal_digits(n / 10).push((48 + n % 10) as u8)
    }
}

/// The value of a string of ASCII digits read in base ten.
pub open spec fn decimal_value(s: Seq<u8>) -> nat
    decreases s.len(),
{
    if s.len() == 0 {
        0
    } else {
        decimal_value(s.drop_last()) * 10 + (s.last() - 48) as nat
    }
}

/// Appends the nested encoding of a `u32`.
pub fn push_u32_nested(out: &mut Vec<u8>, x: u32)
    ensures
        final(out)@ == old(out)@ + u32_nested(x),
{
    out.push((x / 0x1000000) as u8);
    out.push(((x / 0x10000) % 0x100) as u8);
    out.push(((x / 0x100) % 0x100) as u8);
    out.push((x % 0x100) as u8);
    assert(out@ =~= old(out)@ + u32_nested(x));
}

/// Appends the nested encoding of a `u64`.
pub fn push_u64_nested(out: &mut Vec<u8>, x: u64)
    ensures
        final(out)@ == old(out)@ + u64_nested(x),
{
    out.push((x / 0x100000000000000) as u8);
    out.push(((x / 0x1000000000000) % 0x100) as u8);
    out.push(((x / 0x10000000000) % 0x100) as u8);
    out.push(((x / 0x100000000) % 0x100) as u8);
    out.push(((x / 0x1000000) % 0x100) as u8);
    out.push(((x / 0x10000) % 0x100) as u8);
    out.push(((x / 0x100) % 0x100) as u8);
    out.push((x % 0x100) as u8);
    assert(out@ =~= old(out)@ + u64_nested(x));
}

proof fn lemma_minimal_be_bound(x: nat, n: nat)
    requires
        x < pow256(n),
    ensures
        minimal_be(x).len() <= n,
    decreases x,
{
    if x != 0 {
        assert(n > 0) by {
            if n == 0 {
                assert(pow256(0) == 1);
            }
        }
        assert(pow256(n) == 256 * pow256((n - 1) as nat));
        assert(x / 256 < pow256((n - 1) as nat)) by (nonlinear_arith)
            requires
                x < pow256(n),
                pow256(n) == 256 * pow256((n - 1) as nat),
        ;
        lemma_minimal_be_bound(x / 256, (n - 1) as nat);
    }
}

/// 256 to the power `n`.
pub open spec fn pow256(n: nat) -> nat
    decreases n,
{
    if n == 0 {
        1
    } else {
        256 * pow256((n - 1) as nat)
    }
}

/// Appends the nested encoding of a big unsigned integer held in a `u128`.
pub fn push_big_uint_nested(out: &mut Vec<u8>, x: u128)
    ensures
        final(out)@ == old(out)@ + big_uint_nested(x),
{
    let mut bytes: Vec<u8> = Vec::new();
    let mut m: u128 = x;
    while m > 0
        invariant
            minimal_be(x as nat) == minimal_be(m as nat) + bytes@,
        decreases m,
    {
        let b: u8 = (m % 256) as u8;
        proof {
            let d = minimal_be((m / 256) as nat);
            assert(minimal_be(m as nat) == d.push(b));
            assert(d.push(b) + bytes@ =~= d + (seq![b] + bytes@));
        }
        let ghost prev = bytes@;
        bytes.insert(0, b);
        assert(bytes@ =~= seq![b] + prev);
        m = m / 256;
    }
    assert(minimal_be(0) =~= Seq::<u8>::empty());
    assert(bytes@ =~= minimal_be(x as nat));
    proof {
        assert(pow256(16) == 0x100000000000000000000000000000000) by {
            reveal_with_fuel(pow256, 17);
        }
        lemma_minimal_be_bound(x as nat, 16);
    }
    push_u32_nested(out, bytes.len() as u32);
    let mut i: usize = 0;
    let ghost start = out@;
    while i < bytes.len()
        invariant
            i <= bytes@.len(),
            out@ == start + bytes@.subrange(0, i as int),
        decreases bytes@.len() - i,
    {
        out.push(bytes[i]);
        i = i + 1;
        assert(out@ =~= start + bytes@.subrange(0, i as int));
    }
    assert(bytes@.subrange(0, bytes@.len() as int) =~= bytes@);
    assert(out@ =~= old(out)@ + big_uint_nested(x));
}

/// The decimal text of a number, as ASCII digits without leading zeros.
pub fn decimal_to_ascii(number: u32) -> (r: Vec<u8>)
    ensures
        r@ == decimal_digits(number as nat),
{
    let mut m: u32 = number;
    let mut out: Vec<u8> = Vec::new();
    while m >= 10
        invariant
            decimal_digits(number as nat) == decimal_digits(m as nat) + out@,
        decreases m,
    {
        let d: u8 = 48 + (m % 10) as u8;
        proof {
            let p = decimal_digits((m / 10) as nat);
            assert(decimal_digits(m as nat) == p.push(d));
            assert(p.push(d) + out@ =~= p + (seq![d] + out@));
        }
        let ghost prev = out@;
        out.insert(0, d);
        assert(out@ =~= seq![d] + prev);
        m = m / 10;
    }
    let d: u8 = 48 + m as u8;
    let ghost prev = out@;
    out.insert(0, d);
    assert(out@ =~= seq![d] + prev);
    assert(decimal_digits(m as nat) =~= seq![d]);
    out
}

/// The decimal digits of a number are ASCII digits, the first of them not a
/// zero unless the number is, at most ten of them for a `u32`, and read in
/// base ten they give the number back.
pub proof fn lemma_decimal_roundtrip(n: nat)
    ensures
        decimal_value(decimal_digits(n)) == n,
        decimal_digits(n).len() >= 1,
        forall|i: int| 0 <= i < decimal_digits(n).len() ==> 48 <= #[trigger] decimal_digits(n)[i] <= 57,
        n > 0 ==> decimal_digits(n)[0] != 48,
        n <= u32::MAX ==> decimal_digits(n).len() <= 10,
    decreases n,
{
    if n < 10 {
        assert(decimal_digits(n).drop_last() =~= Seq::<u8>::empty());
        assert(decimal_value(Seq::<u8>::empty()) == 0);
        assert(decimal_digits(n).last() == (48 + n) as u8);
        assert(decimal_value(decimal_digits(n)) == 0 * 10 + n);
    } else {
        lemma_decimal_roundtrip(n / 10);
        let p = decimal_digits(n / 10);
        assert(decimal_digits(n).drop_last() =~= p);
        assert(decimal_digits(n).last() == (48 + n % 10) as u8);
        assert(decimal_value(decimal_digits(n)) == decimal_value(p) * 10 + n % 10);
        assert forall|i: int| 0 <= i < decimal_digits(n).len() implies 48 <= #[trigger] decimal_digits(n)[i] <= 57 by {
            if i < p.len() {
                assert(decimal_digits(n)[i] == p[i]);
            }
        }
        assert(decimal_digits(n)[0] == p[0]);
        if n <= u32::MAX {
            lemma_decimal_len(n);
        }
    }
}

proof fn lemma_decimal_len(n: nat)
    requires
        n <= 4294967295,
    ensures
        decimal_digits(n).len() <= 10,
{
    assert(pow10(10) == 10000000000) by {
        reveal_with_fuel(pow10, 11);
    }
    lemma_decimal_len_below(n, 10);
}

proof fn lemma_decimal_len_below(n: nat, k: nat)
    requires
        n < pow10(k),
        k >= 1,
    ensures
        decimal_digits(n).len() <= k,
    decreases n,
{
    reveal_with_fuel(pow10, 11);
    if n >= 10 {
        assert(pow10(k) == 10 * pow10((k - 1) as nat));
        assert(n / 10 < pow10((k - 1) as nat)) by (nonlinear_arith)
            requires
                n < pow10(k),
                pow10(k) == 10 * pow10((k - 1) as nat),
        ;
        if k == 1 {
            assert(pow10(0) == 1);
        }
        lemma_decimal_len_below(n / 10, (k - 1) as nat);
    }
}

/// 10 to the power `k`.
pub open spec fn pow10(k: nat) -> nat
    decreases k,
{
    if k == 0 { 1 } else { 10 * pow10((k - 1) as nat) }
}

/// The shortest big-endian bytes of a number read back give the number.
pub proof fn lemma_minimal_be_roundtrip(x: nat)
    ensures
        be_value(minimal_be(x)) == x,
    decreases x,
{
    if x > 0 {
        lemma_minimal_be_roundtrip(x / 256);
        assert(minimal_be(x).drop_last() =~= minimal_be(x / 256));
    }
}

/// The nested encoding of a `u64` read back gives the number.
#[verifier::spinoff_prover]
#[verifier::rlimit(50)]
pub proof fn lemma_u64_roundtrip(x: u64)
    ensures
        be_value(u64_nested(x)) == x,
{
    let s = u64_nested(x);
    reveal_with_fuel(be_value, 9);
    assert(s.take(7) =~= s.drop_last());
    assert(s.take(6) =~= s.take(7).drop_last());
    assert(s.take(5) =~= s.take(6).drop_last());
    assert(s.take(4) =~= s.take(5).drop_last());
    assert(s.take(3) =~= s.take(4).drop_last());
    assert(s.take(2) =~= s.take(3).drop_last());
    assert(s.take(1) =~= s.take(2).drop_last());
    assert(s.take(0) =~= s.take(1).drop_last());
    assert(be_value(s.take(1)) == x / 0x100000000000000);
    assert(be_value(s.take(2)) == x / 0x1000000000000);
    assert(be_value(s.take(3)) == x / 0x10000000000);
    assert(be_value(s.take(4)) == x / 0x100000000);
    assert(be_value(s.take(5)) == x / 0x1000000);
    assert(be_value(s.take(6)) == x / 0x10000);
    assert(be_value(s.take(7)) == x / 0x100);
}

/// Equal nested encodings of `u64`s are encodings of the same number.
pub proof fn lemma_u64_nested_injective(x: u64, y: u64)
    requires
        u64_nested(x) == u64_nested(y),
    ensures
        x == y,
{
    lemma_u64_roundtrip(x);
    lemma_u64_roundtrip(y);
}

} // verus!
