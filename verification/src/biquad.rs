//! Second-order IIR ("biquad") filter: cookbook coefficient synthesis and
//! the direct-form-I step.
//!
//! Coefficients are synthesized from the response kind, center frequency,
//! sample rate, Q and decibel gain, then normalized by the leading feedback
//! coefficient: the stored form never carries a separate `a0` — it is folded
//! into the other five coefficients immediately after synthesis.

use vstd::prelude::*;
use crate::fixed::{
    SCALE, div_trunc, fx_add, fx_sub, fx_neg, fx_mul, fx_div, sqrt_fx_spec,
    sat_add, sat_sub, sat_neg, mul_fx, div_fx, div_c, sqrt_fx, lemma_fx_div_self,
};
use crate::trig::{
    TAU_FX, sin_fx_spec, cos_fx_spec, gain_lin_spec, sin_fx, cos_fx, gain_lin,
};

verus! {

/// The filter response shapes of the cookbook family.
#[derive(Clone, Copy, PartialEq, Eq, Structural, Debug)]
#[allow(non_camel_case_types)]
pub enum FilterKind {
    LOWPASS,
    HIGHPASS,
    BANDPASS,
    NOTCH,
    PEAK,
    LOWSHELF,
    HIGHSHELF,
    CUSTOM,
}

impl Default for FilterKind {
    fn default() -> (r: Self)
        ensures
            r == FilterKind::LOWPASS,
    {
        FilterKind::LOWPASS
    }
}

/// Raw (pre-normalization) coefficients of one synthesis.
pub struct RawCoeffs {
    pub b0: int,
    pub b1: int,
    pub b2: int,
    pub a0: int,
    pub a1: int,
    pub a2: int,
}

/// A second-order IIR filter: five normalized coefficients, the two-sample
/// input and output histories, and the cached configuration that synthesized
/// the coefficients.
#[derive(Clone)]
pub struct BiQuadraticFilter {
    pub kind: FilterKind,
    pub a1: i64,
    pub a2: i64,
    pub b0: i64,
    pub b1: i64,
    pub b2: i64,
    pub x1: i64,
    pub x2: i64,
    pub y: i64,
    pub y1: i64,
    pub y2: i64,
    pub gain_abs: i64,
    pub center_freq: i64,
    pub sample_rate: i64,
    pub q: i64,
    pub gain_db: i64,
}

/// Zero Q is replaced by the smallest positive fixed-point value, so the
/// synthesis never divides by zero.
pub open spec fn effective_q(q: int) -> int {
    if q == 0 {
        1
    } else {
        q
    }
}

/// The angular frequency `2 * pi * center_freq / sample_rate`.
pub open spec fn omega_spec(cf: int, sr: int) -> int {
    fx_div(fx_mul(TAU_FX as int, cf), sr)
}

/// The cookbook's pre-normalization coefficients for one response kind.
pub open spec fn raw_coeffs_spec(kind: FilterKind, sn: int, cs: int, alpha: int, ga: int, beta: int) -> RawCoeffs {
    let one = SCALE as int;
    let two_cs = fx_add(cs, cs);
    match kind {
        FilterKind::BANDPASS => RawCoeffs {
            b0: alpha,
            b1: 0,
            b2: fx_neg(alpha),
            a0: fx_add(one, alpha),
            a1: fx_neg(two_cs),
            a2: fx_sub(one, alpha),
        },
        FilterKind::LOWPASS => RawCoeffs {
            b0: div_trunc(fx_sub(one, cs), 2),
            b1: fx_sub(one, cs),
            b2: div_trunc(fx_sub(one, cs), 2),
            a0: fx_add(one, alpha),
            a1: fx_neg(two_cs),
            a2: fx_sub(one, alpha),
        },
        FilterKind::HIGHPASS => RawCoeffs {
            b0: div_trunc(fx_add(one, cs), 2),
            b1: fx_neg(fx_add(one, cs)),
            b2: div_trunc(fx_add(one, cs), 2),
            a0: fx_add(one, alpha),
            a1: fx_neg(two_cs),
            a2: fx_sub(one, alpha),
        },
        FilterKind::NOTCH => RawCoeffs {
            b0: one,
            b1: fx_neg(two_cs),
            b2: one,
            a0: fx_add(one, alpha),
            a1: fx_neg(two_cs),
            a2: fx_sub(one, alpha),
        },
        FilterKind::PEAK => RawCoeffs {
            b0: fx_add(one, fx_mul(alpha, ga)),
            b1: fx_neg(two_cs),
            b2: fx_sub(one, fx_mul(alpha, ga)),
            a0: fx_add(one, fx_div(alpha, ga)),
            a1: fx_neg(two_cs),
            a2: fx_sub(one, fx_div(alpha, ga)),
        },
        FilterKind::LOWSHELF => {
            let ap1 = fx_add(ga, one);
            let am1 = fx_sub(ga, one);
            let bsn = fx_mul(beta, sn);
            RawCoeffs {
                b0: fx_mul(ga, fx_add(fx_sub(ap1, fx_mul(am1, cs)), bsn)),
                b1: fx_mul(fx_add(ga, ga), fx_sub(am1, fx_mul(ap1, cs))),
                b2: fx_mul(ga, fx_sub(fx_sub(ap1, fx_mul(am1, cs)), bsn)),
                a0: fx_add(fx_add(ap1, fx_mul(am1, cs)), bsn),
                a1: fx_neg(fx_add(fx_add(am1, fx_mul(ap1, cs)), fx_add(am1, fx_mul(ap1, cs)))),
                a2: fx_sub(fx_add(ap1, fx_mul(am1, cs)), bsn),
            }
        },
        FilterKind::HIGHSHELF => {
            let ap1 = fx_add(ga, one);
            let am1 = fx_sub(ga, one);
            let bsn = fx_mul(beta, sn);
            RawCoeffs {
                b0: fx_mul(ga, fx_add(fx_add(ap1, fx_mul(am1, cs)), bsn)),
                b1: fx_neg(fx_mul(fx_add(ga, ga), fx_add(am1, fx_mul(ap1, cs)))),
                b2: fx_mul(ga, fx_sub(fx_add(ap1, fx_mul(am1, cs)), bsn)),
                a0: fx_add(fx_sub(ap1, fx_mul(am1, cs)), bsn),
                a1: fx_add(fx_sub(am1, fx_mul(ap1, cs)), fx_sub(am1, fx_mul(ap1, cs))),
                a2: fx_sub(fx_sub(ap1, fx_mul(am1, cs)), bsn),
            }
        },
        FilterKind::CUSTOM => RawCoeffs {
            b0: fx_neg(alpha),
            b1: 0,
            b2: alpha,
            a0: fx_add(fx_add(one, one), alpha),
            a1: fx_neg(two_cs),
            a2: fx_sub(fx_add(one, one), alpha),
        },
    }
}

impl BiQuadraticFilter {
    /// The five stored coefficients, as the synthesis leaves them.
    pub open spec fn spec_constants(self) -> (int, int, int, int, int) {
        (self.a1 as int, self.a2 as int, self.b0 as int, self.b1 as int, self.b2 as int)
    }

    /// The complete synthesis: intermediate terms, one kind's raw
    /// coefficients, then normalization by `a0`. Only the configuration and
    /// coefficient fields change; the sample histories are preserved.
    pub open spec fn recfg_spec(self, kind: FilterKind, cf: int, sr: int, q: int, gdb: int) -> Self {
        let qe = effective_q(q);
        let ga = gain_lin_spec(gdb);
        let omega = omega_spec(cf, sr);
        let sn = sin_fx_spec(omega);
        let cs = cos_fx_spec(omega);
        let alpha = fx_div(sn, fx_add(qe, qe));
        let beta = sqrt_fx_spec(fx_add(ga, ga));
        let c = raw_coeffs_spec(kind, sn, cs, alpha, ga, beta);
        BiQuadraticFilter {
            kind,
            a1: fx_div(c.a1, c.a0) as i64,
            a2: fx_div(c.a2, c.a0) as i64,
            b0: fx_div(c.b0, c.a0) as i64,
            b1: fx_div(c.b1, c.a0) as i64,
            b2: fx_div(c.b2, c.a0) as i64,
            x1: self.x1,
            x2: self.x2,
            y: self.y,
            y1: self.y1,
            y2: self.y2,
            gain_abs: ga as i64,
            center_freq: cf as i64,
            sample_rate: sr as i64,
            q: qe as i64,
            gain_db: gdb as i64,
        }
    }

    /// Re-synthesis on a center-frequency change; a write of the cached
    /// value is a no-op.
    pub open spec fn update_center_freq_spec(self, cf: int) -> Self {
        if self.center_freq as int == cf {
            self
        } else {
            self.recfg_spec(self.kind, cf, self.sample_rate as int, self.q as int, self.gain_db as int)
        }
    }

    /// One direct-form-I step: the output and the successor state.
    pub open spec fn filter_step_spec(self, x: int) -> (Self, int) {
        let acc = fx_add(fx_mul(self.b0 as int, x), fx_mul(self.b1 as int, self.x1 as int));
        let acc = fx_add(acc, fx_mul(self.b2 as int, self.x2 as int));
        let acc = fx_sub(acc, fx_mul(self.a1 as int, self.y1 as int));
        let y = fx_sub(acc, fx_mul(self.a2 as int, self.y2 as int));
        let next = BiQuadraticFilter {
            x1: x as i64,
            x2: self.x1,
            y: y as i64,
            y1: y as i64,
            y2: self.y1,
            ..self
        };
        (next, y)
    }

    /// A filter with zeroed state and coefficients, before any synthesis.
    pub open spec fn zeroed_spec() -> Self {
        BiQuadraticFilter {
            kind: FilterKind::LOWPASS,
            a1: 0,
            a2: 0,
            b0: 0,
            b1: 0,
            b2: 0,
            x1: 0,
            x2: 0,
            y: 0,
            y1: 0,
            y2: 0,
            gain_abs: 0,
            center_freq: 0,
            sample_rate: 0,
            q: 0,
            gain_db: 0,
        }
    }

    /// A freshly synthesized filter with silent history.
    pub fn new(kind: FilterKind, center_freq: i64, sample_rate: i64, q: i64, gain_db: i64) -> (r: Self)
        ensures
            r == Self::zeroed_spec().recfg_spec(kind, center_freq as int, sample_rate as int, q as int, gain_db as int),
    {
        let mut ret = BiQuadraticFilter {
            kind: FilterKind::LOWPASS,
            a1: 0,
            a2: 0,
            b0: 0,
            b1: 0,
            b2: 0,
            x1: 0,
            x2: 0,
            y: 0,
            y1: 0,
            y2: 0,
            gain_abs: 0,
            center_freq: 0,
            sample_rate: 0,
            q: 0,
            gain_db: 0,
        };
        ret.recfg(kind, center_freq, sample_rate, q, gain_db);
        ret
    }

    /// Re-synthesize only when the requested center frequency differs from
    /// the cached one; an unchanged value must not trigger recomputation.
    pub fn update_center_freq(&mut self, center_freq: i64) -> (r: ())
        ensures
            *final(self) == old(self).update_center_freq_spec(center_freq as int),
    {
        if self.center_freq != center_freq {
            let kind = self.kind;
            let sr = self.sample_rate;
            let q = self.q;
            let gdb = self.gain_db;
            self.recfg(kind, center_freq, sr, q, gdb);
        }
    }

    /// Synthesize and store the normalized coefficients for one response
    /// kind (the cookbook family), preserving the sample histories.
    pub fn recfg(&mut self, kind: FilterKind, center_freq: i64, sample_rate: i64, q: i64, gain_db: i64)
        ensures
            *final(self) == old(self).recfg_spec(kind, center_freq as int, sample_rate as int, q as int, gain_db as int),
    {
        let q = if q == 0 {
            1
        } else {
            q
        };
        let gain_abs = gain_lin(gain_db);
        let omega = div_fx(mul_fx(TAU_FX, center_freq), sample_rate);
        let sn = sin_fx(omega);
        let cs = cos_fx(omega);
        let alpha = div_fx(sn, sat_add(q, q));
        let beta = sqrt_fx(sat_add(gain_abs, gain_abs));
        let two_cs = sat_add(cs, cs);

        let b0: i64;
        let b1: i64;
        let b2: i64;
        let a0: i64;
        let a1: i64;
        let a2: i64;
        match kind {
            FilterKind::BANDPASS => {
                b0 = alpha;
                b1 = 0;
                b2 = sat_neg(alpha);
                a0 = sat_add(SCALE, alpha);
                a1 = sat_neg(two_cs);
                a2 = sat_sub(SCALE, alpha);
            },
            FilterKind::LOWPASS => {
                b0 = div_c(sat_sub(SCALE, cs), 2);
                b1 = sat_sub(SCALE, cs);
                b2 = div_c(sat_sub(SCALE, cs), 2);
                a0 = sat_add(SCALE, alpha);
                a1 = sat_neg(two_cs);
                a2 = sat_sub(SCALE, alpha);
            },
            FilterKind::HIGHPASS => {
                b0 = div_c(sat_add(SCALE, cs), 2);
                b1 = sat_neg(sat_add(SCALE, cs));
                b2 = div_c(sat_add(SCALE, cs), 2);
                a0 = sat_add(SCALE, alpha);
                a1 = sat_neg(two_cs);
                a2 = sat_sub(SCALE, alpha);
            },
            FilterKind::NOTCH => {
                b0 = SCALE;
                b1 = sat_neg(two_cs);
                b2 = SCALE;
                a0 = sat_add(SCALE, alpha);
                a1 = sat_neg(two_cs);
                a2 = sat_sub(SCALE, alpha);
            },
            FilterKind::PEAK => {
                b0 = sat_add(SCALE, mul_fx(alpha, gain_abs));
                b1 = sat_neg(two_cs);
                b2 = sat_sub(SCALE, mul_fx(alpha, gain_abs));
                a0 = sat_add(SCALE, div_fx(alpha, gain_abs));
                a1 = sat_neg(two_cs);
                a2 = sat_sub(SCALE, div_fx(alpha, gain_abs));
            },
            FilterKind::LOWSHELF => {
                let ap1 = sat_add(gain_abs, SCALE);
                let am1 = sat_sub(gain_abs, SCALE);
                let bsn = mul_fx(beta, sn);
                let am1cs = mul_fx(am1, cs);
                let ap1cs = mul_fx(ap1, cs);
                b0 = mul_fx(gain_abs, sat_add(sat_sub(ap1, am1cs), bsn));
                b1 = mul_fx(sat_add(gain_abs, gain_abs), sat_sub(am1, ap1cs));
                b2 = mul_fx(gain_abs, sat_sub(sat_sub(ap1, am1cs), bsn));
                a0 = sat_add(sat_add(ap1, am1cs), bsn);
                let t = sat_add(am1, ap1cs);
                a1 = sat_neg(sat_add(t, t));
                a2 = sat_sub(sat_add(ap1, am1cs), bsn);
            },
            FilterKind::HIGHSHELF => {
                let ap1 = sat_add(gain_abs, SCALE);
                let am1 = sat_sub(gain_abs, SCALE);
                let bsn = mul_fx(beta, sn);
                let am1cs = mul_fx(am1, cs);
                let ap1cs = mul_fx(ap1, cs);
                b0 = mul_fx(gain_abs, sat_add(sat_add(ap1, am1cs), bsn));
                b1 = sat_neg(mul_fx(sat_add(gain_abs, gain_abs), sat_add(am1, ap1cs)));
                b2 = mul_fx(gain_abs, sat_sub(sat_add(ap1, am1cs), bsn));
                a0 = sat_add(sat_sub(ap1, am1cs), bsn);
                let t = sat_sub(am1, ap1cs);
                a1 = sat_add(t, t);
                a2 = sat_sub(sat_sub(ap1, am1cs), bsn);
            },
            FilterKind::CUSTOM => {
                let two = sat_add(SCALE, SCALE);
                b0 = sat_neg(alpha);
                b1 = 0;
                b2 = alpha;
                a0 = sat_add(two, alpha);
                a1 = sat_neg(two_cs);
                a2 = sat_sub(two, alpha);
            },
        }

        self.kind = kind;
        self.b0 = div_fx(b0, a0);
        self.b1 = div_fx(b1, a0);
        self.b2 = div_fx(b2, a0);
        self.a1 = div_fx(a1, a0);
        self.a2 = div_fx(a2, a0);
        self.gain_abs = gain_abs;
        self.center_freq = center_freq;
        self.sample_rate = sample_rate;
        self.q = q;
        self.gain_db = gain_db;
    }

    /// The stored coefficient set `[a1, a2, b0, b1, b2]`.
    pub fn constants(&self) -> (r: [i64; 5])
        ensures
            (r[0] as int, r[1] as int, r[2] as int, r[3] as int, r[4] as int) == self.spec_constants(),
    {
        [self.a1, self.a2, self.b0, self.b1, self.b2]
    }

    /// Perform one filtering step: `y = b0 x + b1 x1 + b2 x2 - a1 y1 - a2 y2`,
    /// then rotate both histories.
    pub fn filter(&mut self, x: i64) -> (r: i64)
        ensures
            *final(self) == old(self).filter_step_spec(x as int).0,
            r as int == old(self).filter_step_spec(x as int).1,
    {
        let mut acc = sat_add(mul_fx(self.b0, x), mul_fx(self.b1, self.x1));
        acc = sat_add(acc, mul_fx(self.b2, self.x2));
        acc = sat_sub(acc, mul_fx(self.a1, self.y1));
        acc = sat_sub(acc, mul_fx(self.a2, self.y2));
        self.y = acc;
        self.x2 = self.x1;
        self.x1 = x;
        self.y2 = self.y1;
        self.y1 = self.y;
        self.y
    }
}

impl Default for BiQuadraticFilter {
    /// The all-zero filter (silent history, no synthesis yet).
    fn default() -> (r: Self)
        ensures
            r == Self::zeroed_spec(),
    {
        BiQuadraticFilter {
            kind: FilterKind::LOWPASS,
            a1: 0,
            a2: 0,
            b0: 0,
            b1: 0,
            b2: 0,
            x1: 0,
            x2: 0,
            y: 0,
            y1: 0,
            y2: 0,
            gain_abs: 0,
            center_freq: 0,
            sample_rate: 0,
            q: 0,
            gain_db: 0,
        }
    }
}



/// Unity gain at DC for the lowpass synthesis: in exact arithmetic the
/// feed-forward coefficients sum to the feedback coefficients,
/// `b0 + b1 + b2 == a0 + a1 + a2`, which is why a constant (DC) input
/// settles to output equal to input. In fixed point the two halved taps
/// can lose the single unit truncation takes from an odd `1 - cos`, so the
/// sums agree to within one unit; normalization divides both sides by the
/// same `a0`, preserving the ratio.
pub proof fn lemma_lowpass_dc_unity(sn: int, cs: int, alpha: int, ga: int, beta: int)
    requires
        -(SCALE as int) <= cs <= SCALE as int,
        -(i64::MAX as int) + 2 * (SCALE as int) <= alpha <= (i64::MAX as int) - 2 * (SCALE as int),
    ensures
        ({
            let c = raw_coeffs_spec(FilterKind::LOWPASS, sn, cs, alpha, ga, beta);
            let bsum = c.b0 + c.b1 + c.b2;
            let asum = c.a0 + c.a1 + c.a2;
            asum - 1 <= bsum <= asum
        }),
{
    let u = SCALE as int - cs;
    vstd::arithmetic::div_mod::lemma_fundamental_div_mod(u, 2);
    assert(0 <= u % 2 < 2);
}

/// Re-synthesizing at an unchanged center frequency is a no-op: the first
/// write caches the frequency, so the second observes it and skips.
#[verifier::rlimit(60)]
pub proof fn lemma_update_center_freq_idempotent(f: BiQuadraticFilter, cf: int)
    requires
        (i64::MIN as int) <= cf <= (i64::MAX as int),
    ensures
        f.update_center_freq_spec(cf).update_center_freq_spec(cf) == f.update_center_freq_spec(cf),
{
    let f1 = f.update_center_freq_spec(cf);
    assert(f1.center_freq as int == cf);
}

/// After normalization the leading feedback coefficient is exactly the
/// fixed-point unit: for any synthesis whose raw `a0` is nonzero,
/// reconstructing the pre-normalization ratio `a0 / a0` yields 1. The
/// stored form therefore never needs to carry `a0`.
pub proof fn lemma_a0_folded_to_unit(c: RawCoeffs)
    requires
        c.a0 != 0,
        (i64::MIN as int) <= c.a0 <= (i64::MAX as int),
    ensures
        fx_div(c.a0, c.a0) == SCALE as int,
{
    lemma_fx_div_self(c.a0);
}

} // verus!
