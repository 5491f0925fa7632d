//! Exact integer arithmetic on `u128` values whose intermediate products may
//! not fit in a `u128`.

use vstd::prelude::*;
use vstd::arithmetic::div_mod::{lemma_fundamental_div_mod, lemma_fundamental_div_mod_converse};

verus! {

/// Adds two residues modulo `t`: the carry (zero or one) and the sum's
/// residue.
fn add_mod(x: u128, y: u128, t: u128) -> (r: (u128, u128))
    requires
        x < t,
        y < t,
    ensures
        r.0 <= 1,
        r.1 < t,
        r.0 * t + r.1 == x + y,
{
    if x >= t - y {
        (1, x - (t - y))
    } else {
        (0, x + y)
    }
}

/// ⌊a · n / t⌋, computed without an intermediate product; `None` when the
/// result does not fit in a `u128`.
pub fn mul_div(a: u128, n: u32, t: u128) -> (r: Option<u128>)
    requires
        t > 0,
    ensures
        match r {
            Some(v) => v == (a * n) / (t as int),
            None => (a * n) / (t as int) > u128::MAX,
        },
{
    let q = a / t;
    let rem = a % t;
    proof {
        lemma_fundamental_div_mod(a as int, t as int);
    }
    let mut x: u32 = n;
    let mut bq: u128 = 0;
    let mut br: u128 = rem;
    let mut rq: u128 = 0;
    let mut rr: u128 = 0;
    let ghost mut p: int = 1;
    while x > 0
        invariant
            t > 0,
            rem < t,
            br < t,
            rr < t,
            1 <= p,
            x * p <= n,
            bq * t + br == rem * p,
            rq * t + rr + x * (rem * p) == rem * n,
            bq < p,
            rq <= n,
        decreases x,
    {
        let ghost v: int = rem * p;
        let ghost r0: int = rq * t + rr;
        proof {
            assert(p <= n) by (nonlinear_arith)
                requires
                    x * p <= n,
                    x >= 1,
                    p >= 1,
            ;
            assert(v >= 0) by (nonlinear_arith)
                requires
                    v == rem * p,
                    rem >= 0,
                    p >= 1,
            ;
        }
        if x % 2 == 1 {
            let (c, s) = add_mod(rr, br, t);
            proof {
                assert((rq + bq + c) * t + s == r0 + v) by (nonlinear_arith)
                    requires
                        bq * t + br == v,
                        c * t + s == rr + br,
                        r0 == rq * t + rr,
                ;
                assert(rq + bq + c <= n) by (nonlinear_arith)
                    requires
                        (rq + bq + c) * t + s == r0 + v,
                        r0 + x * v == rem * n,
                        x >= 1,
                        v >= 0,
                        s >= 0,
                        0 <= rem < t,
                        n >= 1,
                ;
            }
            rq = rq + bq + c;
            rr = s;
        }
        proof {
            assert(rq * t + rr + (x / 2) * (rem * (2 * p)) == rem * n) by (nonlinear_arith)
                requires
                    x % 2 == 1 ==> rq * t + rr == r0 + v,
                    x % 2 != 1 ==> rq * t + rr == r0,
                    r0 + x * v == rem * n,
                    v == rem * p,
                    x >= 0,
            ;
            assert((x / 2) * (2 * p) <= n) by (nonlinear_arith)
                requires
                    x * p <= n,
                    x >= 1,
                    p >= 1,
            ;
        }
        let (c2, s2) = add_mod(br, br, t);
        proof {
            assert((bq + bq + c2) * t + s2 == rem * (2 * p)) by (nonlinear_arith)
                requires
                    bq * t + br == rem * p,
                    c2 * t + s2 == br + br,
            ;
            assert(bq + bq + c2 < 2 * p) by (nonlinear_arith)
                requires
                    (bq + bq + c2) * t + s2 == rem * (2 * p),
                    0 <= rem < t,
                    s2 >= 0,
                    p >= 1,
            ;
        }
        bq = bq + bq + c2;
        br = s2;
        x = x / 2;
        proof {
            p = 2 * p;
        }
    }
    proof {
        assert(rq * t + rr == rem * n);
        lemma_fundamental_div_mod_converse(rem * n, t as int, rq as int, rr as int);
        assert(a * n == (q * n + rq) * t + rr) by (nonlinear_arith)
            requires
                a == t * q + rem,
                rq * t + rr == rem * n;
        lemma_fundamental_div_mod_converse(a * n, t as int, q * n + rq, rr as int);
    }
    match q.checked_mul(n as u128) {
        None => None,
        Some(qn) => qn.checked_add(rq),
    }
}

/// The base of the halves in which `scaled_le` splits its numbers.
pub const HALF: u128 = 0x1_0000_0000_0000_0000;

/// Whether `k · (a + b + c) <= m · x`, computed without overflow for
/// multipliers below 2^16.
pub fn scaled_le(k: u128, a: u128, b: u128, c: u128, m: u128, x: u128) -> (r: bool)
    requires
        k < 0x10000,
        m < 0x10000,
    ensures
        r == (k * (a + b + c) <= m * x),
{
    let ah = a / HALF;
    let al = a % HALF;
    let bh = b / HALF;
    let bl = b % HALF;
    let ch = c / HALF;
    let cl = c % HALF;
    let xh = x / HALF;
    let xl = x % HALF;
    proof {
        lemma_fundamental_div_mod(a as int, HALF as int);
        lemma_fundamental_div_mod(b as int, HALF as int);
        lemma_fundamental_div_mod(c as int, HALF as int);
        lemma_fundamental_div_mod(x as int, HALF as int);
        assert(ah < HALF && bh < HALF && ch < HALF && xh < HALF);
        assert(k * (ah + bh + ch) < 0x10000 * (3 * HALF)) by (nonlinear_arith)
            requires
                0 <= k < 0x10000,
                0 <= ah + bh + ch < 3 * HALF,
        ;
        assert(k * (al + bl + cl) < 0x10000 * (3 * HALF)) by (nonlinear_arith)
            requires
                0 <= k < 0x10000,
                0 <= al + bl + cl < 3 * HALF,
        ;
        assert(m * xh < 0x10000 * HALF) by (nonlinear_arith)
            requires
                0 <= m < 0x10000,
                0 <= xh < HALF,
        ;
        assert(m * xl < 0x10000 * HALF) by (nonlinear_arith)
            requires
                0 <= m < 0x10000,
                0 <= xl < HALF,
        ;
    }
    let l1 = k * (ah + bh + ch);
    let l0 = k * (al + bl + cl);
    let r1 = m * xh;
    let r0 = m * xl;
    let lh = l1 + l0 / HALF;
    let ll = l0 % HALF;
    let rh = r1 + r0 / HALF;
    let rl = r0 % HALF;
    proof {
        lemma_fundamental_div_mod(l0 as int, HALF as int);
        lemma_fundamental_div_mod(r0 as int, HALF as int);
        assert(k * (a + b + c) == lh * HALF + ll) by (nonlinear_arith)
            requires
                a == HALF * ah + al,
                b == HALF * bh + bl,
                c == HALF * ch + cl,
                l1 == k * (ah + bh + ch),
                l0 == k * (al + bl + cl),
                l0 == HALF * (l0 / HALF) + ll,
                lh == l1 + l0 / HALF,
        ;
        assert(m * x == rh * HALF + rl) by (nonlinear_arith)
            requires
                x == HALF * xh + xl,
                r1 == m * xh,
                r0 == m * xl,
                r0 == HALF * (r0 / HALF) + rl,
                rh == r1 + r0 / HALF,
        ;
        assert((lh * HALF + ll <= rh * HALF + rl) == (lh < rh || (lh == rh && ll <= rl))) by (nonlinear_arith)
            requires
                0 <= ll < HALF,
                0 <= rl < HALF,
                lh >= 0,
                rh >= 0,
        ;
    }
    lh < rh || (lh == rh && ll <= rl)
}

/// ⌊m · x / (a + b + c)⌋ for a part `x` of the total `a + b + c`, computed
/// without overflow for a scale `m` below 2^16.
pub fn scaled_share(m: u128, x: u128, a: u128, b: u128, c: u128) -> (r: u128)
    requires
        0 < m < 0x10000,
        a + b + c > 0,
        x <= a + b + c,
    ensures
        r == (m * x) / (a + b + c),
        r <= m,
{
    let ghost t: int = a + b + c;
    let ghost big: int = m * x;
    let mut lo: u128 = 0;
    let mut hi: u128 = m + 1;
    proof {
        assert((m + 1) * t > big) by (nonlinear_arith)
            requires
                big == m * x,
                0 <= x <= t,
                t > 0,
                m > 0,
        ;
        assert(0 * t <= big) by (nonlinear_arith)
            requires
                big == m * x,
                x >= 0,
                m > 0,
        ;
    }
    while hi - lo > 1
        invariant
            t == a + b + c,
            t > 0,
            big == m * x,
            0 <= lo < hi <= m + 1,
            m < 0x10000,
            lo * t <= big,
            hi * t > big,
        decreases hi - lo,
    {
        let mid = lo + (hi - lo) / 2;
        if scaled_le(mid, a, b, c, m, x) {
            lo = mid;
        } else {
            hi = mid;
        }
    }
    proof {
        assert(hi == lo + 1);
        assert(0 <= big - lo * t < t) by (nonlinear_arith)
            requires
                lo * t <= big,
                (lo + 1) * t > big,
        ;
        lemma_fundamental_div_mod_converse(big, t, lo as int, big - lo * t);
    }
    lo
}

} // verus!
