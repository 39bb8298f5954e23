//! Signed fixed-point arithmetic with a 16-bit fractional part.
//!
//! A fixed-point value stores `v * SCALE` as an `i64`, so one world unit is
//! `SCALE` and the smallest representable step is `1 / SCALE`. Products of
//! two fixed-point values carry `SCALE * SCALE` and are brought back with a
//! flooring division; the floor is exact integer arithmetic, so every
//! function here has a contract that pins its result completely.

use vstd::prelude::*;
use vstd::arithmetic::div_mod::{
    lemma_div_is_ordered,
    lemma_fundamental_div_mod,
    lemma_fundamental_div_mod_converse,
};

verus! {

/// Fixed-point unit: values carry 16 fractional bits.
pub const SCALE: i64 = 65536;

/// Bound on world coordinates (in fixed-point units): one coordinate may
/// reach 65536 world units in either direction.
pub const COORD_BOUND: i64 = 0x1_0000_0000;

/// The product of two fixed-point values before rescaling, as a
/// mathematical integer.
pub open spec fn fx_product(a: i64, b: i64) -> int {
    (a as int) * (b as int)
}

/// The fixed-point product `a * b`, rescaled with a flooring division.
pub open spec fn fx_mul(a: i64, b: i64) -> int {
    fx_product(a, b) / (SCALE as int)
}

/// Floor division of `p` by a positive `d`, computed through unsigned
/// division on either sign of `p`.
pub fn div_floor(p: i128, d: i128) -> (r: i128)
    requires
        0 < d,
        i128::MIN < p,
    ensures
        r == (p as int) / (d as int),
{
    if p >= 0 {
        let q = (p as u128) / (d as u128);
        proof {
            lemma_div_is_ordered(p as int, i128::MAX as int, d as int);
            lemma_div_one_keeps(i128::MAX as int, d as int);
        }
        q as i128
    } else {
        let n = (-p) as u128;
        let du = d as u128;
        let q = (n + du - 1) / du;
        proof {
            let ni = n as int;
            let di = d as int;
            let a = (ni + di - 1) / di;
            let b = (ni + di - 1) % di;
            lemma_fundamental_div_mod(ni + di - 1, di);
            // p == d * (-a) + (d - 1 - b), with the remainder in range.
            assert((-a) * di == -(a * di) && a * di == di * a) by (nonlinear_arith);
            lemma_fundamental_div_mod_converse(p as int, di, -a, di - 1 - b);
            // a <= n, so the negation below cannot overflow.
            assert(ni <= ni * di) by (nonlinear_arith)
                requires
                    1 <= ni,
                    1 <= di,
            ;
            lemma_div_is_ordered(ni + di - 1, ni * di + di - 1, di);
            lemma_fundamental_div_mod_converse(ni * di + di - 1, di, ni, di - 1);
        }
        -(q as i128)
    }
}

/// Division by one or more only shrinks a nonnegative value.
pub proof fn lemma_div_one_keeps(x: int, d: int)
    requires
        0 <= x,
        1 <= d,
    ensures
        x / d <= x,
{
    lemma_fundamental_div_mod(x, d);
    assert(x / d <= (x / d) * d) by (nonlinear_arith)
        requires
            1 <= d,
            0 <= x / d,
    ;
    assert(0 <= x / d) by {
        vstd::arithmetic::div_mod::lemma_div_pos_is_pos(x, d);
    }
}

/// The fixed-point product of `a` and `b`: `(a * b) / SCALE`, rounded
/// toward negative infinity.
pub fn mul_fx(a: i64, b: i64) -> (r: i64)
    requires
        (i64::MIN as int) * (SCALE as int) <= fx_product(a, b) <= (i64::MAX as int) * (SCALE as int),
    ensures
        r == fx_mul(a, b),
{
    let p: i128 = (a as i128) * (b as i128);
    let q = div_floor(p, SCALE as i128);
    proof {
        let s = SCALE as int;
        lemma_div_is_ordered(p as int, (i64::MAX as int) * s, s);
        lemma_fundamental_div_mod_converse((i64::MAX as int) * s, s, i64::MAX as int, 0);
        lemma_div_is_ordered((i64::MIN as int) * s, p as int, s);
        lemma_fundamental_div_mod_converse((i64::MIN as int) * s, s, i64::MIN as int, 0);
    }
    q as i64
}

/// A bound on the coordinate product gives a bound on the fixed-point
/// product: the flooring division can undershoot by at most one.
pub proof fn lemma_fx_mul_bound(a: i64, b: i64, p: int)
    requires
        -p <= fx_product(a, b) <= p,
        0 <= p,
    ensures
        -(p / (SCALE as int)) - 1 <= fx_mul(a, b) <= p / (SCALE as int),
{
    let s = SCALE as int;
    lemma_div_is_ordered(fx_product(a, b), p, s);
    lemma_div_is_ordered(-p, fx_product(a, b), s);
    let q = p / s;
    let r = p % s;
    lemma_fundamental_div_mod(p, s);
    if r == 0 {
        assert((-q) * s + 0 == -p) by (nonlinear_arith)
            requires
                p == s * q + r,
                r == 0,
        ;
        lemma_fundamental_div_mod_converse(-p, s, -q, 0);
    } else {
        assert((-q - 1) * s + (s - r) == -p) by (nonlinear_arith)
            requires
                p == s * q + r,
        ;
        lemma_fundamental_div_mod_converse(-p, s, -q - 1, s - r);
    }
}

/// The unique integer square root: `r` with `r^2 <= n < (r + 1)^2`.
pub open spec fn is_isqrt(n: int, r: int) -> bool {
    &&& 0 <= r
    &&& r * r <= n
    &&& n < (r + 1) * (r + 1)
}

/// The integer square root of `n` as a spec-level value.
pub open spec fn spec_isqrt(n: int) -> int {
    choose|r: int| is_isqrt(n, r)
}

/// Two integer square roots of the same value coincide.
pub proof fn lemma_isqrt_unique(n: int, r1: int, r2: int)
    requires
        is_isqrt(n, r1),
        is_isqrt(n, r2),
    ensures
        r1 == r2,
{
    assert(!(r1 < r2) && !(r2 < r1)) by (nonlinear_arith)
        requires
            0 <= r1,
            0 <= r2,
            r1 * r1 <= n,
            n < (r1 + 1) * (r1 + 1),
            r2 * r2 <= n,
            n < (r2 + 1) * (r2 + 1),
    ;
}

/// The integer square root of `n`, by bisection.
pub fn isqrt(n: u128) -> (r: u64)
    ensures
        is_isqrt(n as int, r as int),
        r == spec_isqrt(n as int),
{
    let mut lo: u128 = 0;
    let mut hi: u128 = 0x1_0000_0000_0000_0000;
    proof {
        assert((0x1_0000_0000_0000_0000 as int) * (0x1_0000_0000_0000_0000 as int) > n as int)
            by (nonlinear_arith)
            requires
                n as int <= u128::MAX as int,
        ;
    }
    while lo + 1 < hi
        invariant
            lo < hi <= 0x1_0000_0000_0000_0000,
            (lo as int) * (lo as int) <= n as int,
            (n as int) < (hi as int) * (hi as int),
        decreases hi - lo,
    {
        let mid = lo + (hi - lo) / 2;
        proof {
            assert(lo < mid < hi);
            assert((mid as int) * (mid as int) <= u128::MAX as int) by (nonlinear_arith)
                requires
                    mid as int <= 0xffff_ffff_ffff_ffff,
            ;
        }
        if mid * mid <= n {
            lo = mid;
        } else {
            hi = mid;
        }
    }
    proof {
        assert(is_isqrt(n as int, lo as int));
        lemma_isqrt_unique(n as int, lo as int, spec_isqrt(n as int));
    }
    lo as u64
}

/// A value whose square is at most `n` is at most the square root of `n`.
pub proof fn lemma_isqrt_dominates(n: int, r: int, v: int)
    requires
        is_isqrt(n, r),
        v * v <= n,
        0 <= v,
    ensures
        v <= r,
{
    assert(!(r < v)) by (nonlinear_arith)
        requires
            0 <= r,
            0 <= v,
            v * v <= n,
            n < (r + 1) * (r + 1),
    ;
}

} // verus!
