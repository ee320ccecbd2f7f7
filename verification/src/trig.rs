//! Fixed-point sine, cosine and base-two exponential.
//!
//! These are the crate's own deterministic approximations, used by the
//! filter-coefficient synthesis, the vibrato oscillator and the parameter
//! mapping. Each function's contract pins its result exactly to a spec
//! mirror, so every caller's contract is exact as well; the polynomial
//! cores are truncated Taylor series evaluated in saturating fixed point.

use vstd::prelude::*;
use crate::fixed::{
    SCALE, div_trunc, fx_add, fx_sub, fx_neg, fx_mul, fx_min, fx_max,
    sat_add, sat_sub, sat_neg, mul_fx, div_c, min_fx, max_fx,
};

verus! {

/// Pi in fixed-point units.
pub const PI_FX: i64 = 3_141_592_653;

/// Two pi in fixed-point units.
pub const TAU_FX: i64 = 6_283_185_307;

/// Pi over two in fixed-point units.
pub const HALF_PI_FX: i64 = 1_570_796_326;

/// The natural logarithm of two, fixed point.
pub const LN2_FX: i64 = 693_147_180;

/// The base-two logarithm of ten, fixed point.
pub const LOG2_10_FX: i64 = 3_321_928_094;

/// The base-two logarithm of one thousand, fixed point.
pub const LOG2_1000_FX: i64 = 9_965_784_284;

/// Taylor core for sine on the first quadrant, clamped to `[-1, 1]`.
pub open spec fn sin_core_spec(t: int) -> int {
    let u = fx_mul(t, t);
    let p1 = fx_sub(SCALE as int, div_trunc(u, 110));
    let p2 = fx_sub(SCALE as int, div_trunc(fx_mul(u, p1), 72));
    let p3 = fx_sub(SCALE as int, div_trunc(fx_mul(u, p2), 42));
    let p4 = fx_sub(SCALE as int, div_trunc(fx_mul(u, p3), 20));
    let p5 = fx_sub(SCALE as int, div_trunc(fx_mul(u, p4), 6));
    let s = fx_mul(t, p5);
    fx_min(fx_max(s, -(SCALE as int)), SCALE as int)
}

/// Fixed-point sine: the argument is reduced modulo two pi, then folded
/// onto the first quadrant.
pub open spec fn sin_fx_spec(x: int) -> int {
    let m = x % (TAU_FX as int);
    if m < PI_FX as int {
        if m <= HALF_PI_FX as int {
            sin_core_spec(m)
        } else {
            sin_core_spec(PI_FX as int - m)
        }
    } else {
        let m2 = m - PI_FX as int;
        if m2 <= HALF_PI_FX as int {
            fx_neg(sin_core_spec(m2))
        } else {
            fx_neg(sin_core_spec(PI_FX as int - m2))
        }
    }
}

/// Fixed-point cosine, as sine shifted a quarter turn.
pub open spec fn cos_fx_spec(x: int) -> int {
    sin_fx_spec(fx_add(x, HALF_PI_FX as int))
}

/// Taylor core for the exponential of `t = f * ln 2`, `f` in `[0, 1)`.
pub open spec fn exp2_frac_spec(f: int) -> int {
    let t = fx_mul(f, LN2_FX as int);
    let p10 = fx_add(SCALE as int, div_trunc(t, 10));
    let p9 = fx_add(SCALE as int, div_trunc(fx_mul(t, p10), 9));
    let p8 = fx_add(SCALE as int, div_trunc(fx_mul(t, p9), 8));
    let p7 = fx_add(SCALE as int, div_trunc(fx_mul(t, p8), 7));
    let p6 = fx_add(SCALE as int, div_trunc(fx_mul(t, p7), 6));
    let p5 = fx_add(SCALE as int, div_trunc(fx_mul(t, p6), 5));
    let p4 = fx_add(SCALE as int, div_trunc(fx_mul(t, p5), 4));
    let p3 = fx_add(SCALE as int, div_trunc(fx_mul(t, p4), 3));
    let p2 = fx_add(SCALE as int, div_trunc(fx_mul(t, p3), 2));
    fx_add(SCALE as int, fx_mul(t, p2))
}

/// `c` doubled (with saturation) `k` times.
pub open spec fn double_n_spec(c: int, k: int) -> int
    decreases k,
{
    if k <= 0 {
        c
    } else {
        let d = double_n_spec(c, k - 1);
        fx_add(d, d)
    }
}

/// `c` halved (truncating) `k` times.
pub open spec fn halve_n_spec(c: int, k: int) -> int
    decreases k,
{
    if k <= 0 {
        c
    } else {
        div_trunc(halve_n_spec(c, k - 1), 2)
    }
}

/// Fixed-point base-two exponential: split into integer and fractional
/// parts, the integer part applied as repeated doubling or halving (the
/// shift count is capped once it can only saturate further).
pub open spec fn exp2_fx_spec(x: int) -> int {
    let n = x / (SCALE as int);
    let f = x % (SCALE as int);
    let c = exp2_frac_spec(f);
    if n >= 0 {
        double_n_spec(c, if n > 63 { 63 } else { n })
    } else {
        halve_n_spec(c, if n < -64 { 64 } else { -n })
    }
}

/// Linear gain from a gain in decibels: `10 ^ (gain_db / 40)`.
pub open spec fn gain_lin_spec(gain_db: int) -> int {
    exp2_fx_spec(fx_mul(div_trunc(gain_db, 40), LOG2_10_FX as int))
}

/// One thousand raised to a fixed-point exponent.
pub open spec fn pow1000_spec(v: int) -> int {
    exp2_fx_spec(fx_mul(v, LOG2_1000_FX as int))
}

/// Taylor core for sine on the first quadrant.
pub fn sin_core(t: i64) -> (r: i64)
    ensures
        r as int == sin_core_spec(t as int),
        -(SCALE as int) <= r as int <= SCALE as int,
{
    let u = mul_fx(t, t);
    let p1 = sat_sub(SCALE, div_c(u, 110));
    let p2 = sat_sub(SCALE, div_c(mul_fx(u, p1), 72));
    let p3 = sat_sub(SCALE, div_c(mul_fx(u, p2), 42));
    let p4 = sat_sub(SCALE, div_c(mul_fx(u, p3), 20));
    let p5 = sat_sub(SCALE, div_c(mul_fx(u, p4), 6));
    let s = mul_fx(t, p5);
    min_fx(max_fx(s, -SCALE), SCALE)
}

/// Fixed-point sine.
pub fn sin_fx(x: i64) -> (r: i64)
    ensures
        r as int == sin_fx_spec(x as int),
        -(SCALE as int) <= r as int <= SCALE as int,
{
    let m = match x.checked_rem_euclid(TAU_FX) {
        Some(m) => m,
        None => 0,
    };
    if m < PI_FX {
        if m <= HALF_PI_FX {
            sin_core(m)
        } else {
            sin_core(PI_FX - m)
        }
    } else {
        let m2 = m - PI_FX;
        if m2 <= HALF_PI_FX {
            sat_neg(sin_core(m2))
        } else {
            sat_neg(sin_core(PI_FX - m2))
        }
    }
}

/// Fixed-point cosine.
pub fn cos_fx(x: i64) -> (r: i64)
    ensures
        r as int == cos_fx_spec(x as int),
        -(SCALE as int) <= r as int <= SCALE as int,
{
    sin_fx(sat_add(x, HALF_PI_FX))
}

/// Taylor core for `2 ^ (f / SCALE)` with `f` in `[0, SCALE)`.
pub fn exp2_frac(f: i64) -> (r: i64)
    ensures
        r as int == exp2_frac_spec(f as int),
{
    let t = mul_fx(f, LN2_FX);
    let p10 = sat_add(SCALE, div_c(t, 10));
    let p9 = sat_add(SCALE, div_c(mul_fx(t, p10), 9));
    let p8 = sat_add(SCALE, div_c(mul_fx(t, p9), 8));
    let p7 = sat_add(SCALE, div_c(mul_fx(t, p8), 7));
    let p6 = sat_add(SCALE, div_c(mul_fx(t, p7), 6));
    let p5 = sat_add(SCALE, div_c(mul_fx(t, p6), 5));
    let p4 = sat_add(SCALE, div_c(mul_fx(t, p5), 4));
    let p3 = sat_add(SCALE, div_c(mul_fx(t, p4), 3));
    let p2 = sat_add(SCALE, div_c(mul_fx(t, p3), 2));
    sat_add(SCALE, mul_fx(t, p2))
}

/// Fixed-point base-two exponential.
pub fn exp2_fx(x: i64) -> (r: i64)
    ensures
        r as int == exp2_fx_spec(x as int),
{
    let n = match x.checked_div_euclid(SCALE) {
        Some(n) => n,
        None => 0,
    };
    let f = match x.checked_rem_euclid(SCALE) {
        Some(f) => f,
        None => 0,
    };
    let mut c = exp2_frac(f);
    if n >= 0 {
        let steps: i64 = if n > 63 {
            63
        } else {
            n
        };
        let mut i: i64 = 0;
        while i < steps
            invariant
                0 <= i <= steps,
                c as int == double_n_spec(exp2_frac_spec(f as int), i as int),
            decreases steps - i,
        {
            c = sat_add(c, c);
            i = i + 1;
        }
        c
    } else {
        let steps: i64 = if n < -64 {
            64
        } else {
            -n
        };
        let mut i: i64 = 0;
        while i < steps
            invariant
                0 <= i <= steps,
                c as int == halve_n_spec(exp2_frac_spec(f as int), i as int),
            decreases steps - i,
        {
            c = div_c(c, 2);
            i = i + 1;
        }
        c
    }
}

/// Linear gain from a gain in decibels: `10 ^ (gain_db / 40)`.
pub fn gain_lin(gain_db: i64) -> (r: i64)
    ensures
        r as int == gain_lin_spec(gain_db as int),
{
    exp2_fx(mul_fx(div_c(gain_db, 40), LOG2_10_FX))
}

/// One thousand raised to a fixed-point exponent.
pub fn pow1000(v: i64) -> (r: i64)
    ensures
        r as int == pow1000_spec(v as int),
{
    exp2_fx(mul_fx(v, LOG2_1000_FX))
}

} // verus!
