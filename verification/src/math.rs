//! Integer helpers shared by the fixed-point signal code: truncating
//! division (what the hardware does on signed values), clamping to full
//! scale, and a floor square root for RMS values.

use vstd::prelude::*;

verus! {

/// Truncating (round-toward-zero) division, the meaning of `/` on the
/// machine's signed integers. Spec-side `/` is Euclidean, so negative
/// numerators are handled through their magnitude.
pub open spec fn tdiv(a: int, d: int) -> int
    recommends
        d > 0,
{
    if a >= 0 {
        a / d
    } else {
        -((-a) / d)
    }
}

/// Clamp a value into `[-bound, bound]`.
pub open spec fn clamp_spec(v: int, bound: int) -> int {
    if v < -bound {
        -bound
    } else if v > bound {
        bound
    } else {
        v
    }
}

/// `r` is the floor of the square root of `n`.
pub open spec fn is_floor_sqrt(r: int, n: int) -> bool {
    0 <= r && r * r <= n && n < (r + 1) * (r + 1)
}

/// Truncating division of a signed 64-bit value by a positive divisor.
pub fn tdiv64(a: i64, d: i64) -> (r: i64)
    requires
        d > 0,
        a > i64::MIN,
    ensures
        r == tdiv(a as int, d as int),
{
    if a >= 0 {
        let q: u64 = (a as u64) / (d as u64);
        q as i64
    } else {
        let neg: u64 = (-a) as u64;
        let q: u64 = neg / (d as u64);
        -(q as i64)
    }
}

/// Clamp a signed 64-bit value into `[-bound, bound]`.
pub fn clamp64(v: i64, bound: i64) -> (r: i64)
    requires
        0 < bound,
    ensures
        r == clamp_spec(v as int, bound as int),
        -bound <= r <= bound,
{
    if v < -bound {
        -bound
    } else if v > bound {
        bound
    } else {
        v
    }
}

/// Floor square root of a 64-bit value, by bisection over the answer.
pub fn isqrt64(n: u64) -> (r: u64)
    ensures
        is_floor_sqrt(r as int, n as int),
{
    let mut lo: u64 = 0;
    let mut hi: u64 = 0xFFFF_FFFF;
    while lo < hi
        invariant
            lo <= hi <= 0xFFFF_FFFF,
            lo * lo <= n,
            n < (hi + 1) * (hi + 1),
        decreases hi - lo,
    {
        let mid: u64 = lo + (hi - lo + 1) / 2;
        assert(mid * mid <= 0xFFFF_FFFF * 0xFFFF_FFFF) by (nonlinear_arith)
            requires
                mid <= 0xFFFF_FFFF,
        ;
        if mid * mid <= n {
            lo = mid;
        } else {
            hi = mid - 1;
        }
    }
    lo
}

/// Truncating division keeps a symmetric bound: if `|a| <= m * d` then
/// `|a / d| <= m`.
pub proof fn lemma_tdiv_bound(a: int, d: int, m: int)
    requires
        d > 0,
        m >= 0,
        -(m * d) <= a <= m * d,
    ensures
        -m <= tdiv(a, d) <= m,
{
    if a >= 0 {
        vstd::arithmetic::div_mod::lemma_div_is_ordered(a, m * d, d);
        vstd::arithmetic::div_mod::lemma_div_by_multiple(m, d);
        vstd::arithmetic::div_mod::lemma_div_is_ordered(0, a, d);
        vstd::arithmetic::div_mod::lemma_div_basics(d);
    } else {
        vstd::arithmetic::div_mod::lemma_div_is_ordered(-a, m * d, d);
        vstd::arithmetic::div_mod::lemma_div_by_multiple(m, d);
        vstd::arithmetic::div_mod::lemma_div_is_ordered(0, -a, d);
        vstd::arithmetic::div_mod::lemma_div_basics(d);
    }
}

/// A bounded value has a bounded, non-negative square.
pub proof fn lemma_square_bound(v: int, m: int)
    requires
        0 <= m,
        -m <= v <= m,
    ensures
        0 <= v * v <= m * m,
{
    assert(0 <= v * v <= m * m) by (nonlinear_arith)
        requires
            0 <= m,
            -m <= v <= m,
    ;
}

/// The mean of a sum bounded by `k * m` is bounded by `m`.
pub proof fn lemma_mean_bound(sum: int, k: int, m: int)
    requires
        k >= 1,
        m >= 0,
        0 <= sum <= k * m,
    ensures
        0 <= sum / k <= m,
{
    assert(k * m == m * k) by (nonlinear_arith);
    vstd::arithmetic::div_mod::lemma_div_is_ordered(sum, m * k, k);
    vstd::arithmetic::div_mod::lemma_div_by_multiple(m, k);
    vstd::arithmetic::div_mod::lemma_div_is_ordered(0, sum, k);
    vstd::arithmetic::div_mod::lemma_div_basics(k);
}

/// A floor square root of a value below `m * m` is below `m`.
pub proof fn lemma_sqrt_bound(r: int, n: int, m: int)
    requires
        is_floor_sqrt(r, n),
        0 <= m,
        n < m * m,
    ensures
        r < m,
{
    assert(r < m) by (nonlinear_arith)
        requires
            0 <= r,
            r * r <= n,
            n < m * m,
            0 <= m,
    ;
}

} // verus!
