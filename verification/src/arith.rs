//! Exact integer arithmetic for depletion projections.

use vstd::arithmetic::div_mod::{
    lemma_div_denominator, lemma_fundamental_div_mod, lemma_fundamental_div_mod_converse,
};
use vstd::arithmetic::power2::{lemma2_to64, lemma_pow2_unfold, pow2};
use vstd::prelude::*;

verus! {

/// `n / d` rounded up, for positive `d`.
pub open spec fn ceil_div(n: int, d: int) -> int {
    (n + d - 1) / d
}

/// `v`, or `u64::MAX` where `v` is larger.
pub open spec fn cap_u64(v: int) -> int {
    if v > u64::MAX {
        u64::MAX as int
    } else {
        v
    }
}

/// Quotient and remainder of `b * t` by `d`, for `b < d`, computed without
/// forming the (possibly 192-bit) product: the bits of `t` are taken from the
/// highest down, doubling the partial product modulo `d` at each step.
fn mul_div_mod(b: u128, t: u64, d: u128) -> (res: (u128, u128))
    requires
        b < d,
    ensures
        res.0 * d + res.1 == b * t,
        res.1 < d,
        res.0 <= t,
{
    let mut q: u128 = 0;
    let mut r: u128 = 0;
    let mut pow: u64 = 0x8000_0000_0000_0000;
    let mut i: u64 = 0;
    let ghost mut prefix: int = 0;
    proof {
        lemma2_to64();
        assert(pow2(64) == 2 * pow2(63)) by {
            lemma_pow2_unfold(64);
        }
        assert((t as int) / (pow2(64) as int) == 0);
    }
    while i < 64
        invariant
            i <= 64,
            i < 64 ==> pow == pow2((63 - i) as nat),
            i < 64 ==> prefix == (t as int) / (pow2((64 - i) as nat) as int),
            i == 64 ==> prefix == t,
            0 <= prefix <= t,
            b < d,
            q * d + r == b * prefix,
            r < d,
            q <= prefix,
        decreases 64 - i,
    {
        proof {
            vstd::arithmetic::power2::lemma_pow2_pos((63 - i) as nat);
        }
        let x: u64 = t / pow;
        let bit: u64 = x % 2;
        assert(bit < 2);
        proof {
            let s = (63 - i) as nat;
            lemma_pow2_unfold(s + 1);
            assert(pow2(s + 1) == 2 * pow2(s));
            vstd::arithmetic::power2::lemma_pow2_pos(s);
            lemma_div_denominator(t as int, pow2(s) as int, 2);
            assert(x / 2 == (t as int) / (pow2(s + 1) as int)) by {
                assert(pow2(s) * 2 == pow2(s + 1));
            }
            lemma_fundamental_div_mod(x as int, 2);
            assert(x == 2 * prefix + bit);
        }
        let ghost old_q = q;
        let ghost old_r = r;
        let r1: u128;
        let c1: u128;
        if r >= d - r {
            r1 = r - (d - r);
            c1 = 1;
        } else {
            r1 = r + r;
            c1 = 0;
        }
        let r2: u128;
        let c2: u128;
        if bit == 1 {
            if r1 >= d - b {
                r2 = r1 - (d - b);
                c2 = 1;
            } else {
                r2 = r1 + b;
                c2 = 0;
            }
            assert(r2 + c2 * d == r1 + bit * b);
        } else {
            r2 = r1;
            c2 = 0;
            assert(bit == 0);
            assert(r2 + c2 * d == r1 + bit * b);
        }
        assert(r1 + c1 * d == 2 * old_r);
        assert(r2 + c2 * d == r1 + bit * b);
        q = 2 * q + c1 + c2;
        r = r2;
        proof {
            let np = 2 * prefix + bit;
            assert(q * d + r == b * np) by (nonlinear_arith)
                requires
                    q == 2 * old_q + c1 + c2,
                    r1 + c1 * d == 2 * old_r,
                    r2 + c2 * d == r1 + bit * b,
                    r == r2,
                    old_q * d + old_r == b * prefix,
                    np == 2 * prefix + bit,
            ;
            assert(q <= np) by (nonlinear_arith)
                requires
                    q * d + r == b * np,
                    b < d,
                    0 <= r,
                    0 <= b,
                    0 <= np,
                    0 <= q,
            ;
            prefix = np;
            assert(prefix == x);
        }
        i = i + 1;
        if i < 64 {
            proof {
                let s = (63 - i) as nat;
                lemma_pow2_unfold(s + 1);
            }
            pow = pow / 2;
        } else {
            proof {
                lemma2_to64();
            }
            assert(pow == 1);
            assert(x == t);
            assert(prefix == t);
        }
    }
    (q, r)
}

/// `left * ticks / per` rounded up, capped at `u64::MAX`.
pub fn ceil_mul_div_capped(left: u128, ticks: u64, per: u128) -> (r: u64)
    requires
        per > 0,
    ensures
        r == cap_u64(ceil_div(left * ticks, per as int)),
{
    let a: u128 = left / per;
    let b: u128 = left % per;
    proof {
        lemma_fundamental_div_mod(left as int, per as int);
    }
    let (q, rem) = mul_div_mod(b, ticks, per);
    let e: u128 = if rem > 0 { q + 1 } else { q };
    proof {
        // left * ticks == (a * ticks + q) * per + rem
        assert(left * ticks == (a * ticks + q) * per + rem) by (nonlinear_arith)
            requires
                left == per * a + b,
                q * per + rem == b * ticks,
        ;
        let n = left * ticks + per - 1;
        if rem > 0 {
            assert(n == (a * ticks + q + 1) * per + (rem - 1)) by (nonlinear_arith)
                requires
                    left * ticks == (a * ticks + q) * per + rem,
                    n == left * ticks + per - 1,
            ;
            lemma_fundamental_div_mod_converse(n, per as int, a * ticks + q + 1, rem - 1);
        } else {
            assert(n == (a * ticks + q) * per + (per - 1)) by (nonlinear_arith)
                requires
                    left * ticks == (a * ticks + q) * per + rem,
                    rem == 0,
                    n == left * ticks + per - 1,
            ;
            lemma_fundamental_div_mod_converse(n, per as int, a * ticks + q, per - 1);
        }
        assert(ceil_div(left * ticks, per as int) == a * ticks + e);
    }
    if ticks == 0 {
        return 0;
    }
    let m: u64 = u64::MAX;
    if a > (m / ticks) as u128 {
        proof {
            let k = m / ticks;
            lemma_fundamental_div_mod(m as int, ticks as int);
            assert(a * ticks > u64::MAX) by (nonlinear_arith)
                requires
                    a >= k + 1,
                    m == ticks * k + m % ticks,
                    m % ticks < ticks,
                    ticks > 0,
                    m == u64::MAX,
            ;
        }
        return u64::MAX;
    }
    proof {
        assert(a * ticks <= u64::MAX) by (nonlinear_arith)
            requires
                a <= m / ticks,
                ticks > 0,
                m == u64::MAX,
        ;
    }
    let total: u128 = a * (ticks as u128) + e;
    if total > m as u128 {
        u64::MAX
    } else {
        total as u64
    }
}

} // verus!
