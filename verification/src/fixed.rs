//! Exact fixed-point sample arithmetic.
//!
//! Samples and control values are `i64` values holding `value * SCALE`:
//! signed fixed point with nine fractional decimal digits. Every operation
//! is total: results that leave the `i64` range saturate, and dividing by
//! zero yields zero — the crate degrades to a defined numeric fallback
//! instead of faulting, as real-time code must.

use vstd::prelude::*;
use vstd::arithmetic::div_mod::{
    lemma_div_pos_is_pos, lemma_div_nonincreasing, lemma_div_multiples_vanish,
};

verus! {

/// One audio sample or control value: fixed point, `SCALE` units per 1.0.
pub type Sample = i64;

/// Number of fixed-point units in 1.0.
pub const SCALE: i64 = 1_000_000_000;

/// Saturate an unbounded integer into the `i64` range.
pub open spec fn sat(x: int) -> int {
    if x > (i64::MAX as int) {
        i64::MAX as int
    } else if x < (i64::MIN as int) {
        i64::MIN as int
    } else {
        x
    }
}

/// Magnitude of an integer.
pub open spec fn abs_i(a: int) -> int {
    if a >= 0 {
        a
    } else {
        -a
    }
}

/// Division rounding toward zero, as machine division does, with the
/// convention that dividing by zero gives zero.
pub open spec fn div_trunc(a: int, b: int) -> int {
    if a == 0 || b == 0 {
        0
    } else if a > 0 && b > 0 {
        a / b
    } else if a < 0 && b < 0 {
        (a * -1) / (b * -1)
    } else if a < 0 {
        ((a * -1) / b) * -1
    } else {
        (a / (b * -1)) * -1
    }
}

/// The saturated sum.
pub open spec fn fx_add(a: int, b: int) -> int {
    sat(a + b)
}

/// The saturated difference.
pub open spec fn fx_sub(a: int, b: int) -> int {
    sat(a - b)
}

/// The saturated negation.
pub open spec fn fx_neg(a: int) -> int {
    sat(-a)
}

/// The fixed-point product `a * b / SCALE`, rounded toward zero, saturated.
pub open spec fn fx_mul(a: int, b: int) -> int {
    sat(div_trunc(a * b, SCALE as int))
}

/// The fixed-point quotient `a * SCALE / b`, rounded toward zero, saturated;
/// zero when `b` is zero.
pub open spec fn fx_div(a: int, b: int) -> int {
    sat(div_trunc(a * SCALE as int, b))
}

pub open spec fn fx_min(a: int, b: int) -> int {
    if a < b {
        a
    } else {
        b
    }
}

pub open spec fn fx_max(a: int, b: int) -> int {
    if a > b {
        a
    } else {
        b
    }
}

/// Truncating division stays within the magnitude of its dividend.
pub proof fn lemma_div_trunc_bounds(a: int, b: int)
    ensures
        div_trunc(a, b) <= abs_i(a),
        -abs_i(a) <= div_trunc(a, b),
        a >= 0 && b > 0 ==> 0 <= div_trunc(a, b) <= a,
        a <= 0 && b > 0 ==> a <= div_trunc(a, b) <= 0,
{
    if a == 0 || b == 0 {
    } else if a > 0 && b > 0 {
        lemma_div_pos_is_pos(a, b);
        lemma_div_nonincreasing(a, b);
    } else if a < 0 && b < 0 {
        lemma_div_pos_is_pos(-a, -b);
        lemma_div_nonincreasing(-a, -b);
    } else if a < 0 {
        lemma_div_pos_is_pos(-a, b);
        lemma_div_nonincreasing(-a, b);
    } else {
        lemma_div_pos_is_pos(a, -b);
        lemma_div_nonincreasing(a, -b);
    }
}

/// The product of two `i64` values fits in an `i128`.
pub proof fn lemma_i64_prod_fits(a: int, b: int)
    requires
        (i64::MIN as int) <= a <= (i64::MAX as int),
        (i64::MIN as int) <= b <= (i64::MAX as int),
    ensures
        (i128::MIN as int) < a * b,
        a * b < (i128::MAX as int),
{
    assert((i128::MIN as int) < a * b && a * b < (i128::MAX as int)) by (nonlinear_arith)
        requires
            -0x8000_0000_0000_0000 <= a <= 0x7fff_ffff_ffff_ffff,
            -0x8000_0000_0000_0000 <= b <= 0x7fff_ffff_ffff_ffff,
    ;
}

/// Multiplying by the fixed-point unit is exact: `x * 1.0 == x`.
pub proof fn lemma_fx_mul_unit(a: int)
    requires
        (i64::MIN as int) <= a <= (i64::MAX as int),
    ensures
        fx_mul(a, SCALE as int) == a,
{
    if a > 0 {
        lemma_div_multiples_vanish(a, SCALE as int);
        assert(a * SCALE as int == SCALE as int * a) by (nonlinear_arith);
    } else if a < 0 {
        lemma_div_multiples_vanish(-a, SCALE as int);
        assert((a * SCALE as int) * -1 == SCALE as int * (-a)) by (nonlinear_arith);
    }
}

/// Multiplying by zero is exactly zero.
pub proof fn lemma_fx_mul_zero(a: int)
    ensures
        fx_mul(a, 0) == 0,
{
}

/// Dividing a nonzero value by itself is exactly the fixed-point unit.
pub proof fn lemma_fx_div_self(a: int)
    requires
        a != 0,
        (i64::MIN as int) <= a <= (i64::MAX as int),
    ensures
        fx_div(a, a) == SCALE as int,
{
    if a > 0 {
        lemma_div_multiples_vanish(SCALE as int, a);
        assert(a * SCALE as int == a * SCALE as int) by (nonlinear_arith);
        assert((a * SCALE as int) / a == SCALE as int);
    } else {
        lemma_div_multiples_vanish(SCALE as int, -a);
        assert((a * SCALE as int) * -1 == (-a) * SCALE as int) by (nonlinear_arith);
        assert(((a * SCALE as int) * -1) / ((a * -1)) == SCALE as int);
    }
}

/// The integer square root: the largest `r` with `r * r <= n` (zero for
/// negative arguments).
pub open spec fn isqrt_spec(n: int) -> int
    decreases n,
{
    if n < 1 {
        0
    } else {
        let r = isqrt_spec(n - 1);
        if (r + 1) * (r + 1) <= n {
            r + 1
        } else {
            r
        }
    }
}

/// The fixed-point square root `sqrt(x / SCALE) * SCALE`, truncated; zero
/// for non-positive arguments.
pub open spec fn sqrt_fx_spec(x: int) -> int {
    if x <= 0 {
        0
    } else {
        isqrt_spec(x * SCALE as int)
    }
}

/// The integer square root is characterized by bracketing squares.
pub proof fn lemma_isqrt_props(n: int)
    requires
        n >= 0,
    ensures
        isqrt_spec(n) >= 0,
        isqrt_spec(n) * isqrt_spec(n) <= n,
        n < (isqrt_spec(n) + 1) * (isqrt_spec(n) + 1),
    decreases n,
{
    if n < 1 {
    } else {
        lemma_isqrt_props(n - 1);
        let r = isqrt_spec(n - 1);
        if (r + 1) * (r + 1) <= n {
            assert(n <= (r + 1) * (r + 1)) by (nonlinear_arith)
                requires
                    n - 1 < (r + 1) * (r + 1),
            ;
            assert((r + 2) * (r + 2) > (r + 1) * (r + 1)) by (nonlinear_arith)
                requires
                    r >= 0,
            ;
        }
    }
}

/// Bracketing squares determine the integer square root uniquely.
pub proof fn lemma_isqrt_unique(n: int, r: int)
    requires
        n >= 0,
        r >= 0,
        r * r <= n,
        n < (r + 1) * (r + 1),
    ensures
        r == isqrt_spec(n),
{
    lemma_isqrt_props(n);
    let s = isqrt_spec(n);
    if r < s {
        assert((r + 1) * (r + 1) <= s * s) by (nonlinear_arith)
            requires
                0 <= r,
                r + 1 <= s,
        ;
    }
    if s < r {
        assert((s + 1) * (s + 1) <= r * r) by (nonlinear_arith)
            requires
                0 <= s,
                s + 1 <= r,
        ;
    }
}

/// Saturate an `i128` into the `i64` range.
pub fn clamp64(q: i128) -> (r: i64)
    ensures
        r as int == sat(q as int),
{
    if q > i64::MAX as i128 {
        i64::MAX
    } else if q < i64::MIN as i128 {
        i64::MIN
    } else {
        q as i64
    }
}

/// Saturating addition.
pub fn sat_add(a: i64, b: i64) -> (r: i64)
    ensures
        r as int == fx_add(a as int, b as int),
{
    match a.checked_add(b) {
        Some(c) => c,
        None => if a >= 0 {
            i64::MAX
        } else {
            i64::MIN
        },
    }
}

/// Saturating subtraction.
pub fn sat_sub(a: i64, b: i64) -> (r: i64)
    ensures
        r as int == fx_sub(a as int, b as int),
{
    match a.checked_sub(b) {
        Some(c) => c,
        None => if a >= 0 {
            i64::MAX
        } else {
            i64::MIN
        },
    }
}

/// Saturating negation.
pub fn sat_neg(a: i64) -> (r: i64)
    ensures
        r as int == fx_neg(a as int),
{
    if a == i64::MIN {
        i64::MAX
    } else {
        -a
    }
}

/// Fixed-point multiplication: `a * b / SCALE`, truncated, saturated.
pub fn mul_fx(a: i64, b: i64) -> (r: i64)
    ensures
        r as int == fx_mul(a as int, b as int),
{
    proof {
        lemma_i64_prod_fits(a as int, b as int);
    }
    let p: i128 = (a as i128) * (b as i128);
    proof {
        lemma_div_trunc_bounds(p as int, SCALE as int);
    }
    let q: i128 = match p.checked_div(SCALE as i128) {
        Some(q) => q,
        None => 0,
    };
    clamp64(q)
}

/// Fixed-point division: `a * SCALE / b`, truncated, saturated; zero when
/// `b` is zero.
pub fn div_fx(a: i64, b: i64) -> (r: i64)
    ensures
        r as int == fx_div(a as int, b as int),
{
    if b == 0 {
        return 0;
    }
    proof {
        lemma_i64_prod_fits(a as int, SCALE as int);
    }
    let p: i128 = (a as i128) * (SCALE as i128);
    proof {
        lemma_div_trunc_bounds(p as int, b as int);
    }
    let q: i128 = match p.checked_div(b as i128) {
        Some(q) => q,
        None => 0,
    };
    clamp64(q)
}

/// Division of a fixed-point value by a plain positive integer constant.
pub fn div_c(a: i64, k: i64) -> (r: i64)
    requires
        k > 0,
    ensures
        r as int == div_trunc(a as int, k as int),
{
    proof {
        lemma_div_trunc_bounds(a as int, k as int);
    }
    match a.checked_div(k) {
        Some(q) => q,
        None => 0,
    }
}


/// The fixed-point square root, by bisection on the integer square root
/// of `x * SCALE`.
pub fn sqrt_fx(x: i64) -> (r: i64)
    ensures
        r as int == sqrt_fx_spec(x as int),
        r >= 0,
{
    if x <= 0 {
        return 0;
    }
    proof {
        assert(0 < (x as int) * (SCALE as int) < 0x4000_0000_0000_0000_0000_0000)
            by (nonlinear_arith)
            requires
                0 < (x as int) < 0x8000_0000_0000_0000,
                (SCALE as int) == 1_000_000_000,
        ;
    }
    let n: u128 = (x as u128) * (SCALE as u128);
    let mut lo: u128 = 0;
    let mut hi: u128 = 0x1_0000_0000_0000_0000;
    while lo + 1 < hi
        invariant
            lo < hi,
            hi <= 0x1_0000_0000_0000_0000,
            (lo as int) * (lo as int) <= (n as int),
            (n as int) < (hi as int) * (hi as int),
        decreases hi - lo,
    {
        let mid: u128 = lo + (hi - lo) / 2;
        proof {
            assert((mid as int) * (mid as int) < 0x1_0000_0000_0000_0000_0000_0000_0000_0000)
                by (nonlinear_arith)
                requires
                    0 <= (mid as int),
                    (mid as int) < 0x1_0000_0000_0000_0000,
            ;
        }
        if mid * mid <= n {
            lo = mid;
        } else {
            hi = mid;
        }
    }
    proof {
        lemma_isqrt_unique(n as int, lo as int);
        assert((lo as int) < 0x8000_0000_0000) by (nonlinear_arith)
            requires
                0 <= (lo as int),
                (lo as int) * (lo as int) <= (n as int),
                (n as int) < 0x4000_0000_0000_0000_0000_0000,
        ;
    }
    lo as i64
}

/// The smaller of two samples.
pub fn min_fx(a: i64, b: i64) -> (r: i64)
    ensures
        r as int == fx_min(a as int, b as int),
{
    if a < b {
        a
    } else {
        b
    }
}

/// The larger of two samples.
pub fn max_fx(a: i64, b: i64) -> (r: i64)
    ensures
        r as int == fx_max(a as int, b as int),
{
    if a > b {
        a
    } else {
        b
    }
}

} // verus!
