//! The effect variants: each transforms one channel's input block into an
//! output block and recomputes its coefficients from the parameter store on
//! demand. Per-channel state always has exactly two slots; the chain never
//! invokes an effect with a channel index of two or more.

use vstd::prelude::*;
use crate::fixed::{
    SCALE, sat, div_trunc, fx_add, fx_sub, fx_neg, fx_mul, fx_div, fx_min, fx_max,
    sqrt_fx_spec, sat_add, sat_sub, sat_neg, mul_fx, div_fx, div_c, min_fx, max_fx, sqrt_fx,
};
use crate::params::AndrewParams;
use crate::biquad::{BiQuadraticFilter, FilterKind};
use crate::audio_clip::{AudioClip, interp_spec, drop_taken};
use crate::modulator::{Lfo, LFO_PERIOD, lfo_phase_spec};
use crate::trig::sin_fx_spec;
use std::collections::VecDeque;

verus! {

/// 4 in fixed point.
pub const FX_4: i64 = 4_000_000_000;

/// Every effect reports one sample of latency; the chain does not sum them.
pub const EFFECT_LATENCY: usize = 1;

// --- Distortion -----------------------------------------------------------

/// Waveshaping distortion. By design it reads each sample from the output
/// buffer's pre-existing contents (the buffer handed down by the stage two
/// places upstream), not from its input block: the inter-stage coupling of
/// the original pipeline is kept deliberately.
pub struct DistEffect {
    pub gain: i64,
}

/// The shaper's offset `n = 0.5 * (sqrt(1 + 4 / d) - 1)`.
pub open spec fn dist_shift_spec(d: int) -> int {
    div_trunc(fx_sub(sqrt_fx_spec(fx_add(SCALE as int, fx_div(FX_4 as int, d))), SCALE as int), 2)
}

/// One shaped sample: `y = 1 - 1 / (d * (x + n)) + n` with `x = v * d`.
pub open spec fn dist_sample_spec(d: int, v: int) -> int {
    let n = dist_shift_spec(d);
    let x = fx_mul(v, d);
    fx_add(fx_sub(SCALE as int, fx_div(SCALE as int, fx_mul(d, fx_add(x, n)))), n)
}

impl DistEffect {
    /// The block transform: element-wise shaping of the scratch contents.
    pub open spec fn spec_process(self, chan: int, input: Seq<i64>, scratch: Seq<i64>) -> (Self, Seq<i64>) {
        (self, Seq::new(input.len(), |i: int| dist_sample_spec(self.gain as int, scratch[i] as int) as i64))
    }

    /// The gain recomputed from the store: `d = delay_feedback * 2`.
    pub open spec fn spec_update(self, p: AndrewParams) -> Self {
        DistEffect { gain: fx_add(p.delay_feedback as int, p.delay_feedback as int) as i64 }
    }

    pub fn new() -> (r: Self)
        ensures
            r.gain == SCALE,
    {
        DistEffect { gain: SCALE }
    }

    pub fn process(&mut self, chan_id: usize, in_buf: &Vec<i64>, out_buf: &mut Vec<i64>)
        requires
            chan_id < 2,
            old(out_buf)@.len() == in_buf@.len(),
        ensures
            *final(self) == old(self).spec_process(chan_id as int, in_buf@, old(out_buf)@).0,
            final(out_buf)@ == old(self).spec_process(chan_id as int, in_buf@, old(out_buf)@).1,
    {
        let d = self.gain;
        let n = div_c(sat_sub(sqrt_fx(sat_add(SCALE, div_fx(FX_4, d))), SCALE), 2);
        let mut i: usize = 0;
        while i < in_buf.len()
            invariant
                i <= in_buf.len(),
                out_buf@.len() == in_buf@.len(),
                d == self.gain,
                *self == *old(self),
                n as int == dist_shift_spec(d as int),
                forall|j: int| 0 <= j < i ==> out_buf@[j] as int
                    == dist_sample_spec(d as int, old(out_buf)@[j] as int),
                forall|j: int| i <= j < out_buf@.len() ==> out_buf@[j] == old(out_buf)@[j],
            decreases in_buf.len() - i,
        {
            let x = mul_fx(out_buf[i], d);
            let y = sat_add(sat_sub(SCALE, div_fx(SCALE, mul_fx(d, sat_add(x, n)))), n);
            out_buf.set(i, y);
            i = i + 1;
        }
        proof {
            assert(out_buf@ =~= old(self).spec_process(chan_id as int, in_buf@, old(out_buf)@).1);
        }
    }

    pub fn update_params(&mut self, p: &AndrewParams)
        ensures
            *final(self) == old(self).spec_update(*p),
    {
        self.gain = sat_add(p.delay_feedback, p.delay_feedback);
    }

    pub fn get_latency(&self) -> (r: usize)
        ensures
            r == EFFECT_LATENCY,
    {
        EFFECT_LATENCY
    }
}

// --- Differentiator -------------------------------------------------------

/// One channel of the differentiator: the previous input sample.
pub struct PrimeChannel {
    pub prev_sample: i64,
}

/// Differentiator: `y[n] = x[n] - x[n - 1]`.
pub struct PrimeEffect {
    pub ch0: PrimeChannel,
    pub ch1: PrimeChannel,
}

/// The differentiated block: each sample minus its predecessor (the stored
/// previous sample before the first).
pub open spec fn prime_out_spec(prev: int, input: Seq<i64>) -> Seq<i64> {
    Seq::new(
        input.len(),
        |i: int| fx_sub(input[i] as int, if i == 0 { prev } else { input[i - 1] as int }) as i64,
    )
}

/// The stored sample after a block: the block's last input, if any.
pub open spec fn last_or_spec(input: Seq<i64>, prev: int) -> int {
    if input.len() > 0 {
        input[input.len() - 1] as int
    } else {
        prev
    }
}

impl PrimeEffect {
    pub open spec fn spec_process(self, chan: int, input: Seq<i64>, scratch: Seq<i64>) -> (Self, Seq<i64>) {
        if chan == 0 {
            (
                PrimeEffect {
                    ch0: PrimeChannel { prev_sample: last_or_spec(input, self.ch0.prev_sample as int) as i64 },
                    ..self
                },
                prime_out_spec(self.ch0.prev_sample as int, input),
            )
        } else {
            (
                PrimeEffect {
                    ch1: PrimeChannel { prev_sample: last_or_spec(input, self.ch1.prev_sample as int) as i64 },
                    ..self
                },
                prime_out_spec(self.ch1.prev_sample as int, input),
            )
        }
    }

    pub fn new() -> (r: Self)
        ensures
            r.ch0.prev_sample == 0,
            r.ch1.prev_sample == 0,
    {
        PrimeEffect { ch0: PrimeChannel { prev_sample: 0 }, ch1: PrimeChannel { prev_sample: 0 } }
    }

    pub fn process(&mut self, chan_id: usize, in_buf: &Vec<i64>, out_buf: &mut Vec<i64>)
        requires
            chan_id < 2,
            old(out_buf)@.len() == in_buf@.len(),
        ensures
            *final(self) == old(self).spec_process(chan_id as int, in_buf@, old(out_buf)@).0,
            final(out_buf)@ == old(self).spec_process(chan_id as int, in_buf@, old(out_buf)@).1,
    {
        if chan_id == 0 {
            prime_channel_block(&mut self.ch0, in_buf, out_buf);
        } else {
            prime_channel_block(&mut self.ch1, in_buf, out_buf);
        }
        proof {
            assert(out_buf@ =~= old(self).spec_process(chan_id as int, in_buf@, old(out_buf)@).1);
        }
    }

    pub fn get_latency(&self) -> (r: usize)
        ensures
            r == EFFECT_LATENCY,
    {
        EFFECT_LATENCY
    }
}

fn prime_channel_block(ch: &mut PrimeChannel, in_buf: &Vec<i64>, out_buf: &mut Vec<i64>)
    requires
        old(out_buf)@.len() == in_buf@.len(),
    ensures
        final(out_buf)@ == prime_out_spec(old(ch).prev_sample as int, in_buf@),
        final(ch).prev_sample as int == last_or_spec(in_buf@, old(ch).prev_sample as int),
{
    let mut i: usize = 0;
    while i < in_buf.len()
        invariant
            i <= in_buf.len(),
            out_buf@.len() == in_buf@.len(),
            ch.prev_sample as int == (if i == 0 { old(ch).prev_sample as int } else { in_buf@[i - 1] as int }),
            forall|j: int| 0 <= j < i ==> out_buf@[j] as int
                == fx_sub(in_buf@[j] as int, if j == 0 { old(ch).prev_sample as int } else { in_buf@[j - 1] as int }),
        decreases in_buf.len() - i,
    {
        let x = in_buf[i];
        let y = sat_sub(x, ch.prev_sample);
        out_buf.set(i, y);
        ch.prev_sample = x;
        i = i + 1;
    }
    proof {
        assert(out_buf@ =~= prime_out_spec(old(ch).prev_sample as int, in_buf@));
    }
}

// --- Slew limiter ----------------------------------------------------------

/// One channel of the slew limiter.
pub struct SlewChannel {
    pub target_sample: i64,
    pub prev_sample: i64,
}

/// Slew limiter: each output moves from the previous output toward the
/// input by at most `amount` in either direction.
pub struct SlewEffect {
    pub ch0: SlewChannel,
    pub ch1: SlewChannel,
    pub amount: i64,
}

/// One limited step: the jump toward `x` clamped to `[-amount, amount]`.
pub open spec fn slew_step_spec(prev: int, x: int, amount: int) -> int {
    fx_add(prev, fx_min(fx_max(fx_sub(x, prev), fx_neg(amount)), amount))
}

/// The held output after `n` limited steps.
pub open spec fn slew_run_spec(prev: int, amount: int, input: Seq<i64>, n: int) -> int
    decreases n,
{
    if n <= 0 {
        prev
    } else {
        slew_step_spec(slew_run_spec(prev, amount, input, n - 1), input[n - 1] as int, amount)
    }
}

/// The limited block: output `i` is the held value after `i + 1` steps.
pub open spec fn slew_out_spec(prev: int, amount: int, input: Seq<i64>) -> Seq<i64> {
    Seq::new(input.len(), |i: int| slew_run_spec(prev, amount, input, i + 1) as i64)
}

impl SlewEffect {
    pub open spec fn spec_process(self, chan: int, input: Seq<i64>, scratch: Seq<i64>) -> (Self, Seq<i64>) {
        if chan == 0 {
            (
                SlewEffect {
                    ch0: SlewChannel {
                        target_sample: last_or_spec(input, self.ch0.target_sample as int) as i64,
                        prev_sample: slew_run_spec(self.ch0.prev_sample as int, self.amount as int, input, input.len() as int) as i64,
                    },
                    ..self
                },
                slew_out_spec(self.ch0.prev_sample as int, self.amount as int, input),
            )
        } else {
            (
                SlewEffect {
                    ch1: SlewChannel {
                        target_sample: last_or_spec(input, self.ch1.target_sample as int) as i64,
                        prev_sample: slew_run_spec(self.ch1.prev_sample as int, self.amount as int, input, input.len() as int) as i64,
                    },
                    ..self
                },
                slew_out_spec(self.ch1.prev_sample as int, self.amount as int, input),
            )
        }
    }

    /// The limit recomputed from the store: `amount = slew / sample_rate`.
    pub open spec fn spec_update(self, p: AndrewParams) -> Self {
        SlewEffect { amount: fx_div(p.slew as int, p.sample_rate as int) as i64, ..self }
    }

    pub fn new() -> (r: Self)
        ensures
            r.ch0 == (SlewChannel { target_sample: 0, prev_sample: 0 }),
            r.ch1 == (SlewChannel { target_sample: 0, prev_sample: 0 }),
            r.amount == SCALE,
    {
        SlewEffect {
            ch0: SlewChannel { target_sample: 0, prev_sample: 0 },
            ch1: SlewChannel { target_sample: 0, prev_sample: 0 },
            amount: SCALE,
        }
    }

    pub fn process(&mut self, chan_id: usize, in_buf: &Vec<i64>, out_buf: &mut Vec<i64>)
        requires
            chan_id < 2,
            old(out_buf)@.len() == in_buf@.len(),
        ensures
            *final(self) == old(self).spec_process(chan_id as int, in_buf@, old(out_buf)@).0,
            final(out_buf)@ == old(self).spec_process(chan_id as int, in_buf@, old(out_buf)@).1,
    {
        let amount = self.amount;
        if chan_id == 0 {
            slew_channel_block(&mut self.ch0, amount, in_buf, out_buf);
        } else {
            slew_channel_block(&mut self.ch1, amount, in_buf, out_buf);
        }
        proof {
            assert(out_buf@ =~= old(self).spec_process(chan_id as int, in_buf@, old(out_buf)@).1);
        }
    }

    pub fn update_params(&mut self, p: &AndrewParams)
        ensures
            *final(self) == old(self).spec_update(*p),
    {
        self.amount = div_fx(p.slew, p.sample_rate);
    }

    pub fn get_latency(&self) -> (r: usize)
        ensures
            r == EFFECT_LATENCY,
    {
        EFFECT_LATENCY
    }
}

fn slew_channel_block(ch: &mut SlewChannel, amount: i64, in_buf: &Vec<i64>, out_buf: &mut Vec<i64>)
    requires
        old(out_buf)@.len() == in_buf@.len(),
    ensures
        final(out_buf)@ == slew_out_spec(old(ch).prev_sample as int, amount as int, in_buf@),
        final(ch).prev_sample as int == slew_run_spec(old(ch).prev_sample as int, amount as int, in_buf@, in_buf@.len() as int),
        final(ch).target_sample as int == last_or_spec(in_buf@, old(ch).target_sample as int),
{
    let mut i: usize = 0;
    while i < in_buf.len()
        invariant
            i <= in_buf.len(),
            out_buf@.len() == in_buf@.len(),
            ch.prev_sample as int == slew_run_spec(old(ch).prev_sample as int, amount as int, in_buf@, i as int),
            ch.target_sample as int == (if i == 0 { old(ch).target_sample as int } else { in_buf@[i - 1] as int }),
            forall|j: int| 0 <= j < i ==> out_buf@[j] as int
                == slew_run_spec(old(ch).prev_sample as int, amount as int, in_buf@, j + 1),
        decreases in_buf.len() - i,
    {
        ch.target_sample = in_buf[i];
        let d = sat_sub(ch.target_sample, ch.prev_sample);
        let clamped = min_fx(max_fx(d, sat_neg(amount)), amount);
        let y = sat_add(ch.prev_sample, clamped);
        out_buf.set(i, y);
        ch.prev_sample = y;
        i = i + 1;
    }
    proof {
        assert(out_buf@ =~= slew_out_spec(old(ch).prev_sample as int, amount as int, in_buf@));
    }
}

// --- Second-order slew -----------------------------------------------------

/// One channel of the second-order slew tracker.
pub struct TooSlewChannel {
    pub target_sample: i64,
    pub prev_sample: i64,
    pub target_slope: i64,
    pub prev_slope: i64,
}

/// Second-order slew tracker: follows the input's slope rather than its
/// value. The acceleration term is deliberately not clamped to the
/// configured amount — the stored limit is currently unused by the math,
/// and that behavior is kept explicitly.
pub struct TooSlewEffect {
    pub ch0: TooSlewChannel,
    pub ch1: TooSlewChannel,
    pub amount: i64,
}

/// One tracker step over the channel state
/// `(target_sample, prev_sample, target_slope, prev_slope)`.
pub open spec fn too_step_spec(st: (int, int, int, int), x: int) -> (int, int, int, int) {
    let tslope = fx_sub(x, st.1);
    let accel = fx_sub(tslope, st.3);
    let slope = fx_add(st.3, accel);
    let sample = fx_add(st.1, slope);
    (x, sample, tslope, slope)
}

/// The channel state after `n` tracker steps.
pub open spec fn too_run_spec(st: (int, int, int, int), input: Seq<i64>, n: int) -> (int, int, int, int)
    decreases n,
{
    if n <= 0 {
        st
    } else {
        too_step_spec(too_run_spec(st, input, n - 1), input[n - 1] as int)
    }
}

/// The tracked block: output `i` is the sample part of the state after
/// `i + 1` steps.
pub open spec fn too_out_spec(st: (int, int, int, int), input: Seq<i64>) -> Seq<i64> {
    Seq::new(input.len(), |i: int| too_run_spec(st, input, i + 1).1 as i64)
}

impl TooSlewChannel {
    pub open spec fn spec_state(self) -> (int, int, int, int) {
        (self.target_sample as int, self.prev_sample as int, self.target_slope as int, self.prev_slope as int)
    }

    pub open spec fn from_state_spec(st: (int, int, int, int)) -> Self {
        TooSlewChannel {
            target_sample: st.0 as i64,
            prev_sample: st.1 as i64,
            target_slope: st.2 as i64,
            prev_slope: st.3 as i64,
        }
    }
}

impl TooSlewEffect {
    pub open spec fn spec_process(self, chan: int, input: Seq<i64>, scratch: Seq<i64>) -> (Self, Seq<i64>) {
        if chan == 0 {
            (
                TooSlewEffect {
                    ch0: TooSlewChannel::from_state_spec(too_run_spec(self.ch0.spec_state(), input, input.len() as int)),
                    ..self
                },
                too_out_spec(self.ch0.spec_state(), input),
            )
        } else {
            (
                TooSlewEffect {
                    ch1: TooSlewChannel::from_state_spec(too_run_spec(self.ch1.spec_state(), input, input.len() as int)),
                    ..self
                },
                too_out_spec(self.ch1.spec_state(), input),
            )
        }
    }

    /// The limit recomputed from the store (stored, though unused by the
    /// tracker's math).
    pub open spec fn spec_update(self, p: AndrewParams) -> Self {
        TooSlewEffect { amount: fx_div(p.slew as int, p.sample_rate as int) as i64, ..self }
    }

    pub fn new() -> (r: Self)
        ensures
            r.ch0 == (TooSlewChannel { target_sample: 0, prev_sample: 0, target_slope: 0, prev_slope: 0 }),
            r.ch1 == (TooSlewChannel { target_sample: 0, prev_sample: 0, target_slope: 0, prev_slope: 0 }),
            r.amount == SCALE,
    {
        TooSlewEffect {
            ch0: TooSlewChannel { target_sample: 0, prev_sample: 0, target_slope: 0, prev_slope: 0 },
            ch1: TooSlewChannel { target_sample: 0, prev_sample: 0, target_slope: 0, prev_slope: 0 },
            amount: SCALE,
        }
    }

    pub fn process(&mut self, chan_id: usize, in_buf: &Vec<i64>, out_buf: &mut Vec<i64>)
        requires
            chan_id < 2,
            old(out_buf)@.len() == in_buf@.len(),
        ensures
            *final(self) == old(self).spec_process(chan_id as int, in_buf@, old(out_buf)@).0,
            final(out_buf)@ == old(self).spec_process(chan_id as int, in_buf@, old(out_buf)@).1,
    {
        if chan_id == 0 {
            too_slew_channel_block(&mut self.ch0, in_buf, out_buf);
        } else {
            too_slew_channel_block(&mut self.ch1, in_buf, out_buf);
        }
        proof {
            assert(out_buf@ =~= old(self).spec_process(chan_id as int, in_buf@, old(out_buf)@).1);
        }
    }

    pub fn update_params(&mut self, p: &AndrewParams)
        ensures
            *final(self) == old(self).spec_update(*p),
    {
        self.amount = div_fx(p.slew, p.sample_rate);
    }

    pub fn get_latency(&self) -> (r: usize)
        ensures
            r == EFFECT_LATENCY,
    {
        EFFECT_LATENCY
    }
}

fn too_slew_channel_block(ch: &mut TooSlewChannel, in_buf: &Vec<i64>, out_buf: &mut Vec<i64>)
    requires
        old(out_buf)@.len() == in_buf@.len(),
    ensures
        final(out_buf)@ == too_out_spec(old(ch).spec_state(), in_buf@),
        *final(ch) == TooSlewChannel::from_state_spec(too_run_spec(old(ch).spec_state(), in_buf@, in_buf@.len() as int)),
{
    let mut i: usize = 0;
    while i < in_buf.len()
        invariant
            i <= in_buf.len(),
            out_buf@.len() == in_buf@.len(),
            ch.spec_state() == too_run_spec(old(ch).spec_state(), in_buf@, i as int),
            forall|j: int| 0 <= j < i ==> out_buf@[j] as int
                == too_run_spec(old(ch).spec_state(), in_buf@, j + 1).1,
        decreases in_buf.len() - i,
    {
        let x = in_buf[i];
        ch.target_sample = x;
        ch.target_slope = sat_sub(x, ch.prev_sample);
        let accel = sat_sub(ch.target_slope, ch.prev_slope);
        let slope = sat_add(ch.prev_slope, accel);
        let sample = sat_add(ch.prev_sample, slope);
        out_buf.set(i, sample);
        ch.prev_sample = sample;
        ch.prev_slope = slope;
        i = i + 1;
    }
    proof {
        assert(out_buf@ =~= too_out_spec(old(ch).spec_state(), in_buf@));
        assert(*ch == TooSlewChannel::from_state_spec(too_run_spec(old(ch).spec_state(), in_buf@, in_buf@.len() as int)));
    }
}


// --- Filter ----------------------------------------------------------------

/// 10000 in fixed point: the cutoff knob spans 0..10 kHz.
pub const FX_10000: i64 = 10_000_000_000_000;

/// 1000 in fixed point.
pub const FX_1000: i64 = 1_000_000_000_000;

/// Biquad filter effect: one independent filter instance per channel; the
/// two instances never share history.
pub struct FilterEffect {
    pub f0: BiQuadraticFilter,
    pub f1: BiQuadraticFilter,
}

/// The filter state after `n` direct-form steps.
pub open spec fn filt_run_spec(st: BiQuadraticFilter, input: Seq<i64>, n: int) -> BiQuadraticFilter
    decreases n,
{
    if n <= 0 {
        st
    } else {
        filt_run_spec(st, input, n - 1).filter_step_spec(input[n - 1] as int).0
    }
}

/// The filtered block: output `i` is the step output at state `i`.
pub open spec fn filt_out_spec(st: BiQuadraticFilter, input: Seq<i64>) -> Seq<i64> {
    Seq::new(input.len(), |i: int| filt_run_spec(st, input, i).filter_step_spec(input[i] as int).1 as i64)
}

impl FilterEffect {
    pub open spec fn spec_process(self, chan: int, input: Seq<i64>, scratch: Seq<i64>) -> (Self, Seq<i64>) {
        if chan == 0 {
            (
                FilterEffect { f0: filt_run_spec(self.f0, input, input.len() as int), ..self },
                filt_out_spec(self.f0, input),
            )
        } else {
            (
                FilterEffect { f1: filt_run_spec(self.f1, input, input.len() as int), ..self },
                filt_out_spec(self.f1, input),
            )
        }
    }

    /// Both channels re-synthesize from the cutoff control: `cutoff * 10000`.
    pub open spec fn spec_update(self, p: AndrewParams) -> Self {
        FilterEffect {
            f0: self.f0.update_center_freq_spec(fx_mul(p.cutoff as int, FX_10000 as int)),
            f1: self.f1.update_center_freq_spec(fx_mul(p.cutoff as int, FX_10000 as int)),
        }
    }

    /// Two fresh narrow-notch-like all-pass instances at 1 kHz.
    pub fn new() -> (r: Self)
        ensures
            r.f0 == BiQuadraticFilter::zeroed_spec().recfg_spec(
                FilterKind::CUSTOM, FX_1000 as int, crate::params::FX_44100 as int, SCALE as int, 0),
            r.f1 == r.f0,
    {
        let f0 = BiQuadraticFilter::new(FilterKind::CUSTOM, FX_1000, crate::params::FX_44100, SCALE, 0);
        let f1 = BiQuadraticFilter::new(FilterKind::CUSTOM, FX_1000, crate::params::FX_44100, SCALE, 0);
        FilterEffect { f0, f1 }
    }

    pub fn process(&mut self, chan_id: usize, in_buf: &Vec<i64>, out_buf: &mut Vec<i64>)
        requires
            chan_id < 2,
            old(out_buf)@.len() == in_buf@.len(),
        ensures
            *final(self) == old(self).spec_process(chan_id as int, in_buf@, old(out_buf)@).0,
            final(out_buf)@ == old(self).spec_process(chan_id as int, in_buf@, old(out_buf)@).1,
    {
        if chan_id == 0 {
            filter_channel_block(&mut self.f0, in_buf, out_buf);
        } else {
            filter_channel_block(&mut self.f1, in_buf, out_buf);
        }
        proof {
            assert(out_buf@ =~= old(self).spec_process(chan_id as int, in_buf@, old(out_buf)@).1);
        }
    }

    pub fn update_params(&mut self, p: &AndrewParams)
        ensures
            *final(self) == old(self).spec_update(*p),
    {
        let freq = mul_fx(p.cutoff, FX_10000);
        self.f0.update_center_freq(freq);
        self.f1.update_center_freq(freq);
    }

    pub fn get_latency(&self) -> (r: usize)
        ensures
            r == EFFECT_LATENCY,
    {
        EFFECT_LATENCY
    }
}

fn filter_channel_block(f: &mut BiQuadraticFilter, in_buf: &Vec<i64>, out_buf: &mut Vec<i64>)
    requires
        old(out_buf)@.len() == in_buf@.len(),
    ensures
        final(out_buf)@ == filt_out_spec(*old(f), in_buf@),
        *final(f) == filt_run_spec(*old(f), in_buf@, in_buf@.len() as int),
{
    let mut i: usize = 0;
    while i < in_buf.len()
        invariant
            i <= in_buf.len(),
            out_buf@.len() == in_buf@.len(),
            *f == filt_run_spec(*old(f), in_buf@, i as int),
            forall|j: int| 0 <= j < i ==> out_buf@[j] as int
                == filt_run_spec(*old(f), in_buf@, j).filter_step_spec(in_buf@[j] as int).1,
        decreases in_buf.len() - i,
    {
        let y = f.filter(in_buf[i]);
        out_buf.set(i, y);
        i = i + 1;
    }
    proof {
        assert(out_buf@ =~= filt_out_spec(*old(f), in_buf@));
    }
}

// --- Vibrato ---------------------------------------------------------------

/// 0.02 in fixed point: the vibrato's modulation depth.
pub const FX_002: i64 = 20_000_000;

/// The vibrato clip's initial silent length.
pub const VIB_BASE_SIZE: usize = 512;

/// One channel of the vibrato: a playback clip and its oscillator.
pub struct VibChannel {
    pub buf: AudioClip,
    pub lfo: Lfo,
}

/// The semantic state of one vibrato channel.
pub struct VibChannelView {
    pub buf: Seq<i64>,
    pub scale: int,
    pub playhead: int,
    pub base_sample_rate: int,
    pub looping: bool,
    pub lfo_time: int,
}

impl VibChannel {
    pub open spec fn view(self) -> VibChannelView {
        VibChannelView {
            buf: self.buf.buf@,
            scale: self.buf.scale as int,
            playhead: self.buf.playhead as int,
            base_sample_rate: self.buf.base_sample_rate as int,
            looping: self.buf.looping,
            lfo_time: self.lfo.time as int,
        }
    }
}

/// The playback-rate scale driven by the oscillator: `1 - lfo * 0.02`.
pub open spec fn vib_scale_spec(time: int) -> int {
    fx_sub(SCALE as int, fx_mul(sin_fx_spec(lfo_phase_spec(time)), FX_002 as int))
}

/// The playhead after `n` reads, each advancing by `scale`, never below zero.
pub open spec fn vib_ph_run_spec(ph: int, scale: int, n: int) -> int
    decreases n,
{
    if n <= 0 {
        ph
    } else {
        fx_max(fx_add(vib_ph_run_spec(ph, scale, n - 1), scale), 0)
    }
}

/// One vibrato block at view level: advance the oscillator by the block
/// length, set the scale, append the input, read one interpolated sample
/// per output position, then compact.
pub open spec fn vib_channel_next_spec(v: VibChannelView, input: Seq<i64>) -> VibChannelView {
    let time2 = (v.lfo_time + input.len() as int) % (LFO_PERIOD as int);
    let sc = vib_scale_spec(time2);
    let buf2 = v.buf + input;
    let ph_end = vib_ph_run_spec(v.playhead, sc, input.len() as int);
    let dcap = drop_taken(ph_end, buf2.len() as int);
    VibChannelView {
        buf: buf2.skip(dcap),
        scale: sc,
        playhead: ph_end - dcap * (SCALE as int),
        base_sample_rate: v.base_sample_rate,
        looping: v.looping,
        lfo_time: time2,
    }
}

/// The vibrato's output block: interpolated reads along the advancing
/// playhead, against the appended buffer.
pub open spec fn vib_channel_out_spec(v: VibChannelView, input: Seq<i64>) -> Seq<i64> {
    let time2 = (v.lfo_time + input.len() as int) % (LFO_PERIOD as int);
    let sc = vib_scale_spec(time2);
    let buf2 = v.buf + input;
    Seq::new(input.len(), |i: int| interp_spec(buf2, vib_ph_run_spec(v.playhead, sc, i)) as i64)
}

/// Vibrato: pitch modulation through variable-rate playback of a growing
/// clip, one clip and oscillator per channel.
pub struct VibEffect {
    pub ch0: VibChannel,
    pub ch1: VibChannel,
}

/// The semantic state of the vibrato effect.
pub struct VibView {
    pub ch0: VibChannelView,
    pub ch1: VibChannelView,
}

impl VibEffect {
    pub open spec fn view(self) -> VibView {
        VibView { ch0: self.ch0.view(), ch1: self.ch1.view() }
    }

    pub open spec fn spec_process_view(v: VibView, chan: int, input: Seq<i64>) -> (VibView, Seq<i64>) {
        if chan == 0 {
            (VibView { ch0: vib_channel_next_spec(v.ch0, input), ..v }, vib_channel_out_spec(v.ch0, input))
        } else {
            (VibView { ch1: vib_channel_next_spec(v.ch1, input), ..v }, vib_channel_out_spec(v.ch1, input))
        }
    }

    /// The state both channels start in: a silent half-kilosample clip at
    /// unit rate, oscillator at zero.
    pub open spec fn initial_channel_view() -> VibChannelView {
        VibChannelView {
            buf: Seq::<i64>::new(VIB_BASE_SIZE as nat, |k: int| 0i64),
            scale: SCALE as int,
            playhead: 0,
            base_sample_rate: crate::params::FX_44100 as int,
            looping: false,
            lfo_time: 0,
        }
    }

    /// Two silent half-kilosample clips at unit rate, oscillators at zero.
    pub fn new() -> (r: Self)
        ensures
            r.view().ch0 == Self::initial_channel_view(),
            r.view().ch1 == Self::initial_channel_view(),
    {
        let c0 = VibChannel {
            buf: AudioClip::new(VIB_BASE_SIZE, SCALE, crate::params::FX_44100, false),
            lfo: Lfo { time: 0 },
        };
        let c1 = VibChannel {
            buf: AudioClip::new(VIB_BASE_SIZE, SCALE, crate::params::FX_44100, false),
            lfo: Lfo { time: 0 },
        };
        VibEffect { ch0: c0, ch1: c1 }
    }

    pub fn process(&mut self, chan_id: usize, in_buf: &Vec<i64>, out_buf: &mut Vec<i64>)
        requires
            chan_id < 2,
            old(out_buf)@.len() == in_buf@.len(),
            in_buf@.len() < 0x1_0000_0000,
        ensures
            final(self).view() == Self::spec_process_view(old(self).view(), chan_id as int, in_buf@).0,
            final(out_buf)@ == Self::spec_process_view(old(self).view(), chan_id as int, in_buf@).1,
    {
        if chan_id == 0 {
            vib_channel_block(&mut self.ch0, in_buf, out_buf);
        } else {
            vib_channel_block(&mut self.ch1, in_buf, out_buf);
        }
    }

    pub fn get_latency(&self) -> (r: usize)
        ensures
            r == EFFECT_LATENCY,
    {
        EFFECT_LATENCY
    }
}

fn vib_channel_block(ch: &mut VibChannel, in_buf: &Vec<i64>, out_buf: &mut Vec<i64>)
    requires
        old(out_buf)@.len() == in_buf@.len(),
        in_buf@.len() < 0x1_0000_0000,
    ensures
        final(ch).view() == vib_channel_next_spec(old(ch).view(), in_buf@),
        final(out_buf)@ == vib_channel_out_spec(old(ch).view(), in_buf@),
{
    ch.lfo.forward(in_buf.len() as u32);
    let lv = ch.lfo.get();
    ch.buf.scale = sat_sub(SCALE, mul_fx(lv, FX_002));
    ch.buf.extend(in_buf);
    let ghost sc = ch.buf.scale as int;
    let ghost buf2 = ch.buf.buf@;
    let ghost ph0 = old(ch).buf.playhead as int;
    let mut i: usize = 0;
    while i < in_buf.len()
        invariant
            i <= in_buf.len(),
            out_buf@.len() == in_buf@.len(),
            ch.buf.buf@ == buf2,
            ch.buf.scale as int == sc,
            ch.buf.base_sample_rate == old(ch).buf.base_sample_rate,
            ch.buf.looping == old(ch).buf.looping,
            ch.lfo.time as int == (old(ch).lfo.time as int + in_buf@.len() as int) % (LFO_PERIOD as int),
            ch.buf.playhead as int == vib_ph_run_spec(ph0, sc, i as int),
            forall|j: int| 0 <= j < i ==> out_buf@[j] as int
                == interp_spec(buf2, vib_ph_run_spec(ph0, sc, j)),
        decreases in_buf.len() - i,
    {
        let v = ch.buf.read_playhead();
        out_buf.set(i, v);
        i = i + 1;
    }
    ch.buf.shrink();
    proof {
        assert(out_buf@ =~= vib_channel_out_spec(old(ch).view(), in_buf@));
    }
}

// --- Windowed smoothing ----------------------------------------------------

/// 1.5 in fixed point: the smoothing window's gain numerator.
pub const FX_15: i64 = 1_500_000_000;

/// 100 in fixed point.
pub const FX_100: i64 = 100_000_000_000;

/// 6 in fixed point: the initial kernel spread.
pub const FX_6: i64 = 6_000_000_000;

/// The smoothing window length.
pub const CONV_LEN: usize = 100;

/// Windowed smoothing: a sliding window of recent input convolved with a
/// spread-shaped kernel, one window per channel.
pub struct ConvEffect {
    pub buf0: VecDeque<i64>,
    pub buf1: VecDeque<i64>,
    pub pattern: Vec<i64>,
    pub spread: i64,
    pub buf_len: usize,
}

/// The semantic state of the smoothing effect.
pub struct ConvView {
    pub buf0: Seq<i64>,
    pub buf1: Seq<i64>,
    pub pattern: Seq<i64>,
    pub spread: int,
    pub buf_len: int,
}

impl ConvEffect {
    pub open spec fn view(self) -> ConvView {
        ConvView {
            buf0: self.buf0@,
            buf1: self.buf1@,
            pattern: self.pattern@,
            spread: self.spread as int,
            buf_len: self.buf_len as int,
        }
    }
}

/// One kernel tap: `1 - min(((i - len/2) / spread)^2, 1)`.
pub open spec fn conv_kernel_elem_spec(i: int, len: int, spread: int) -> int {
    let e = sat((i - len / 2) * (SCALE as int));
    let q = fx_div(e, spread);
    fx_sub(SCALE as int, fx_min(fx_mul(q, q), SCALE as int))
}

/// The kernel over a window length.
pub open spec fn conv_kernel_spec(len: int, spread: int) -> Seq<i64> {
    Seq::new(len as nat, |i: int| conv_kernel_elem_spec(i, len, spread) as i64)
}

/// The window dot product of the first `k` taps, each term scaled by
/// `factor`, accumulated left to right with saturation.
pub open spec fn conv_dot_spec(pattern: Seq<i64>, q: Seq<i64>, factor: int, k: int) -> int
    decreases k,
{
    if k <= 0 {
        0
    } else {
        fx_add(
            conv_dot_spec(pattern, q, factor, k - 1),
            fx_mul(fx_mul(pattern[k - 1] as int, q[k - 1] as int), factor),
        )
    }
}

/// One smoothing block over one window: append the input, then per output
/// position pop the oldest sample and take the kernel dot product over the
/// remaining window.
pub open spec fn conv_buf_next_spec(buf: Seq<i64>, input: Seq<i64>) -> Seq<i64> {
    (buf + input).skip(input.len() as int)
}

pub open spec fn conv_out_spec(buf: Seq<i64>, input: Seq<i64>, pattern: Seq<i64>, factor: int) -> Seq<i64> {
    let q0 = buf + input;
    Seq::new(
        input.len(),
        |i: int| conv_dot_spec(
            pattern,
            q0.skip(i + 1),
            factor,
            fx_min(pattern.len() as int, q0.len() - (i + 1)),
        ) as i64,
    )
}

impl ConvEffect {
    pub open spec fn spec_process_view(v: ConvView, chan: int, input: Seq<i64>) -> (ConvView, Seq<i64>) {
        let factor = fx_div(FX_15 as int, v.spread);
        if chan == 0 {
            (
                ConvView { buf0: conv_buf_next_spec(v.buf0, input), ..v },
                conv_out_spec(v.buf0, input, v.pattern, factor),
            )
        } else {
            (
                ConvView { buf1: conv_buf_next_spec(v.buf1, input), ..v },
                conv_out_spec(v.buf1, input, v.pattern, factor),
            )
        }
    }

    /// Recompute the kernel only when the spread derived from the store
    /// (`delay_time * 100`) actually changes.
    pub open spec fn spec_update_view(v: ConvView, p: AndrewParams) -> ConvView {
        let spread2 = fx_mul(p.delay_time as int, FX_100 as int);
        if spread2 != v.spread {
            ConvView { spread: spread2, pattern: conv_kernel_spec(v.buf_len, spread2), ..v }
        } else {
            v
        }
    }

    /// A fresh effect: window length 100, spread 6, zero-filled windows.
    pub fn new() -> (r: Self)
        ensures
            r.view().buf0 == Seq::<i64>::new(CONV_LEN as nat, |k: int| 0i64),
            r.view().buf1 == Seq::<i64>::new(CONV_LEN as nat, |k: int| 0i64),
            r.view().pattern == conv_kernel_spec(CONV_LEN as int, FX_6 as int),
            r.spread == FX_6,
            r.buf_len == CONV_LEN,
    {
        let pattern = conv_kernel(CONV_LEN, FX_6);
        let mut buf0: VecDeque<i64> = VecDeque::new();
        let mut buf1: VecDeque<i64> = VecDeque::new();
        let mut k: usize = 0;
        while k < CONV_LEN
            invariant
                k <= CONV_LEN,
                buf0@ == Seq::<i64>::new(k as nat, |j: int| 0i64),
                buf1@ == Seq::<i64>::new(k as nat, |j: int| 0i64),
            decreases CONV_LEN - k,
        {
            buf0.push_back(0);
            buf1.push_back(0);
            proof {
                assert(buf0@ =~= Seq::<i64>::new((k + 1) as nat, |j: int| 0i64));
                assert(buf1@ =~= Seq::<i64>::new((k + 1) as nat, |j: int| 0i64));
            }
            k = k + 1;
        }
        ConvEffect { buf0, buf1, pattern, spread: FX_6, buf_len: CONV_LEN }
    }

    pub fn process(&mut self, chan_id: usize, in_buf: &Vec<i64>, out_buf: &mut Vec<i64>)
        requires
            chan_id < 2,
            old(out_buf)@.len() == in_buf@.len(),
        ensures
            final(self).view() == Self::spec_process_view(old(self).view(), chan_id as int, in_buf@).0,
            final(out_buf)@ == Self::spec_process_view(old(self).view(), chan_id as int, in_buf@).1,
    {
        let factor = div_fx(FX_15, self.spread);
        if chan_id == 0 {
            conv_channel_block(&mut self.buf0, &self.pattern, factor, in_buf, out_buf);
        } else {
            conv_channel_block(&mut self.buf1, &self.pattern, factor, in_buf, out_buf);
        }
    }

    pub fn update_params(&mut self, p: &AndrewParams)
        ensures
            final(self).view() == Self::spec_update_view(old(self).view(), *p),
    {
        let spread2 = mul_fx(p.delay_time, FX_100);
        if spread2 != self.spread {
            self.spread = spread2;
            self.pattern = conv_kernel(self.buf_len, spread2);
        }
    }

    pub fn get_latency(&self) -> (r: usize)
        ensures
            r == EFFECT_LATENCY,
    {
        EFFECT_LATENCY
    }
}

/// Build the spread-shaped kernel for a window length.
fn conv_kernel(len: usize, spread: i64) -> (r: Vec<i64>)
    ensures
        r@ == conv_kernel_spec(len as int, spread as int),
{
    let mut pattern: Vec<i64> = Vec::new();
    let half = len / 2;
    let mut i: usize = 0;
    while i < len
        invariant
            i <= len,
            half == len / 2,
            pattern@ == Seq::<i64>::new(i as nat, |j: int| conv_kernel_elem_spec(j, len as int, spread as int) as i64),
        decreases len - i,
    {
        proof {
            assert(
                -0x1_0000_0000_0000_0000_0000_0000_0000 < (i as int - half as int) * (SCALE as int)
                    && (i as int - half as int) * (SCALE as int) < 0x1_0000_0000_0000_0000_0000_0000_0000
            ) by (nonlinear_arith)
                requires
                    -0x1_0000_0000_0000_0000 < (i as int - half as int) < 0x1_0000_0000_0000_0000,
                    (SCALE as int) == 1_000_000_000,
            ;
        }
        let e128: i128 = ((i as i128) - (half as i128)) * (SCALE as i128);
        let e = crate::fixed::clamp64(e128);
        let q = div_fx(e, spread);
        let elem = sat_sub(SCALE, min_fx(mul_fx(q, q), SCALE));
        pattern.push(elem);
        proof {
            assert(pattern@ =~= Seq::<i64>::new(
                (i + 1) as nat,
                |j: int| conv_kernel_elem_spec(j, len as int, spread as int) as i64,
            ));
        }
        i = i + 1;
    }
    pattern
}

fn conv_channel_block(
    q: &mut VecDeque<i64>,
    pattern: &Vec<i64>,
    factor: i64,
    in_buf: &Vec<i64>,
    out_buf: &mut Vec<i64>,
)
    requires
        old(out_buf)@.len() == in_buf@.len(),
    ensures
        final(q)@ == conv_buf_next_spec(old(q)@, in_buf@),
        final(out_buf)@ == conv_out_spec(old(q)@, in_buf@, pattern@, factor as int),
{
    let ghost q0 = old(q)@ + in_buf@;
    let mut k: usize = 0;
    while k < in_buf.len()
        invariant
            k <= in_buf.len(),
            q@ == old(q)@ + in_buf@.subrange(0, k as int),
        decreases in_buf.len() - k,
    {
        q.push_back(in_buf[k]);
        proof {
            assert(q@ =~= old(q)@ + in_buf@.subrange(0, (k + 1) as int));
        }
        k = k + 1;
    }
    proof {
        assert(q@ =~= q0);
    }
    let mut i: usize = 0;
    while i < in_buf.len()
        invariant
            i <= in_buf.len(),
            out_buf@.len() == in_buf@.len(),
            q@ == q0.skip(i as int),
            q0.len() == old(q)@.len() + in_buf@.len(),
            forall|j: int| 0 <= j < i ==> out_buf@[j] as int == conv_dot_spec(
                pattern@,
                q0.skip(j + 1),
                factor as int,
                fx_min(pattern@.len() as int, q0.len() - (j + 1)),
            ),
        decreases in_buf.len() - i,
    {
        let popped = q.pop_front();
        proof {
            assert(q@ =~= q0.skip(i + 1));
        }
        let mut acc: i64 = 0;
        let mut t: usize = 0;
        while t < pattern.len() && t < q.len()
            invariant
                t <= pattern@.len(),
                t <= q@.len(),
                q@ == q0.skip(i + 1),
                acc as int == conv_dot_spec(pattern@, q0.skip(i + 1), factor as int, t as int),
            decreases pattern@.len() - t,
        {
            acc = sat_add(acc, mul_fx(mul_fx(pattern[t], q[t]), factor));
            t = t + 1;
        }
        proof {
            assert(t as int == fx_min(pattern@.len() as int, q0.len() - (i + 1)));
        }
        out_buf.set(i, acc);
        i = i + 1;
    }
    proof {
        assert(out_buf@ =~= conv_out_spec(old(q)@, in_buf@, pattern@, factor as int));
        assert(q@ =~= conv_buf_next_spec(old(q)@, in_buf@));
    }
}


// --- Leaky integrator ------------------------------------------------------

/// The integrator's trailing-average ring length.
pub const INT_RING_LEN: usize = 1000;

/// The leak factor `20 / 44100` in fixed point, truncated.
pub const LEAK_FX: i64 = 453_514;

/// One channel of the integrator: the running sum and the trailing ring of
/// recent sums.
pub struct IntChannel {
    pub sum: i64,
    pub avg_buf: VecDeque<i64>,
}

/// The semantic state of one integrator channel.
pub struct IntChannelView {
    pub sum: int,
    pub avg_buf: Seq<i64>,
}

impl IntChannel {
    pub open spec fn view(self) -> IntChannelView {
        IntChannelView { sum: self.sum as int, avg_buf: self.avg_buf@ }
    }
}

/// The saturating left-to-right sum of the first `k` ring entries.
pub open spec fn seq_sat_sum_spec(q: Seq<i64>, k: int) -> int
    decreases k,
{
    if k <= 0 {
        0
    } else {
        fx_add(seq_sat_sum_spec(q, k - 1), q[k - 1] as int)
    }
}

/// One integrator step: bleed the trailing average off the running sum,
/// output the sum less the average's complement, then rotate the ring.
pub open spec fn int_step_spec(st: IntChannelView, x: int) -> (IntChannelView, int) {
    let avg = div_trunc(seq_sat_sum_spec(st.avg_buf, st.avg_buf.len() as int), INT_RING_LEN as int);
    let sum2 = fx_sub(fx_add(st.sum, x), fx_mul(avg, LEAK_FX as int));
    let out = fx_sub(sum2, fx_mul(avg, (SCALE - LEAK_FX) as int));
    let ring2 = (seq![sum2 as i64] + st.avg_buf).subrange(0, st.avg_buf.len() as int);
    (IntChannelView { sum: sum2, avg_buf: ring2 }, out)
}

/// The channel state after `n` integrator steps.
pub open spec fn int_run_spec(st: IntChannelView, input: Seq<i64>, n: int) -> IntChannelView
    decreases n,
{
    if n <= 0 {
        st
    } else {
        int_step_spec(int_run_spec(st, input, n - 1), input[n - 1] as int).0
    }
}

/// The integrated block: output `i` is the step output at state `i`.
pub open spec fn int_out_spec(st: IntChannelView, input: Seq<i64>) -> Seq<i64> {
    Seq::new(input.len(), |i: int| int_step_spec(int_run_spec(st, input, i), input[i] as int).1 as i64)
}

/// Leaky integrator: a running sum bled toward the trailing average of its
/// own recent values, one sum and ring per channel.
pub struct IntEffect {
    pub ch0: IntChannel,
    pub ch1: IntChannel,
}

/// The semantic state of the integrator effect.
pub struct IntView {
    pub ch0: IntChannelView,
    pub ch1: IntChannelView,
}

impl IntEffect {
    pub open spec fn view(self) -> IntView {
        IntView { ch0: self.ch0.view(), ch1: self.ch1.view() }
    }

    pub open spec fn spec_process_view(v: IntView, chan: int, input: Seq<i64>) -> (IntView, Seq<i64>) {
        if chan == 0 {
            (IntView { ch0: int_run_spec(v.ch0, input, input.len() as int), ..v }, int_out_spec(v.ch0, input))
        } else {
            (IntView { ch1: int_run_spec(v.ch1, input, input.len() as int), ..v }, int_out_spec(v.ch1, input))
        }
    }

    /// Zero sums over zero-filled rings.
    pub fn new() -> (r: Self)
        ensures
            r.view().ch0 == (IntChannelView { sum: 0, avg_buf: Seq::<i64>::new(INT_RING_LEN as nat, |k: int| 0i64) }),
            r.view().ch1 == r.view().ch0,
    {
        let mut b0: VecDeque<i64> = VecDeque::new();
        let mut b1: VecDeque<i64> = VecDeque::new();
        let mut k: usize = 0;
        while k < INT_RING_LEN
            invariant
                k <= INT_RING_LEN,
                b0@ == Seq::<i64>::new(k as nat, |j: int| 0i64),
                b1@ == Seq::<i64>::new(k as nat, |j: int| 0i64),
            decreases INT_RING_LEN - k,
        {
            b0.push_back(0);
            b1.push_back(0);
            proof {
                assert(b0@ =~= Seq::<i64>::new((k + 1) as nat, |j: int| 0i64));
                assert(b1@ =~= Seq::<i64>::new((k + 1) as nat, |j: int| 0i64));
            }
            k = k + 1;
        }
        IntEffect { ch0: IntChannel { sum: 0, avg_buf: b0 }, ch1: IntChannel { sum: 0, avg_buf: b1 } }
    }

    pub fn process(&mut self, chan_id: usize, in_buf: &Vec<i64>, out_buf: &mut Vec<i64>)
        requires
            chan_id < 2,
            old(out_buf)@.len() == in_buf@.len(),
        ensures
            final(self).view() == Self::spec_process_view(old(self).view(), chan_id as int, in_buf@).0,
            final(out_buf)@ == Self::spec_process_view(old(self).view(), chan_id as int, in_buf@).1,
    {
        if chan_id == 0 {
            int_channel_block(&mut self.ch0, in_buf, out_buf);
        } else {
            int_channel_block(&mut self.ch1, in_buf, out_buf);
        }
    }

    pub fn get_latency(&self) -> (r: usize)
        ensures
            r == EFFECT_LATENCY,
    {
        EFFECT_LATENCY
    }
}

fn int_channel_block(ch: &mut IntChannel, in_buf: &Vec<i64>, out_buf: &mut Vec<i64>)
    requires
        old(out_buf)@.len() == in_buf@.len(),
    ensures
        final(ch).view() == int_run_spec(old(ch).view(), in_buf@, in_buf@.len() as int),
        final(out_buf)@ == int_out_spec(old(ch).view(), in_buf@),
{
    let mut i: usize = 0;
    while i < in_buf.len()
        invariant
            i <= in_buf.len(),
            out_buf@.len() == in_buf@.len(),
            ch.view() == int_run_spec(old(ch).view(), in_buf@, i as int),
            forall|j: int| 0 <= j < i ==> out_buf@[j] as int
                == int_step_spec(int_run_spec(old(ch).view(), in_buf@, j), in_buf@[j] as int).1,
        decreases in_buf.len() - i,
    {
        let ghost pre = ch.view();
        let mut acc: i64 = 0;
        let mut t: usize = 0;
        while t < ch.avg_buf.len()
            invariant
                t <= ch.avg_buf@.len(),
                ch.avg_buf@ == pre.avg_buf,
                ch.sum as int == pre.sum,
                acc as int == seq_sat_sum_spec(ch.avg_buf@, t as int),
            decreases ch.avg_buf@.len() - t,
        {
            acc = sat_add(acc, ch.avg_buf[t]);
            t = t + 1;
        }
        let avg = div_c(acc, INT_RING_LEN as i64);
        let x = in_buf[i];
        let sum2 = sat_sub(sat_add(ch.sum, x), mul_fx(avg, LEAK_FX));
        let out = sat_sub(sum2, mul_fx(avg, SCALE - LEAK_FX));
        ch.sum = sum2;
        ch.avg_buf.push_front(sum2);
        let popped = ch.avg_buf.pop_back();
        proof {
            assert(ch.avg_buf@ =~= (seq![sum2] + pre.avg_buf).subrange(0, pre.avg_buf.len() as int));
            assert(ch.view() == int_step_spec(pre, x as int).0);
        }
        out_buf.set(i, out);
        i = i + 1;
    }
    proof {
        assert(out_buf@ =~= int_out_spec(old(ch).view(), in_buf@));
    }
}

// --- Feedback delay --------------------------------------------------------

/// The delay line length: one second at the nominal 44.1 kHz rate.
pub const DELAY_LEN: usize = 44_100;

/// 0.5 in fixed point: the delay's feedback gain.
pub const HALF_FX: i64 = 500_000_000;

/// Feedback delay: a fixed-length ring per channel; each step pops the
/// oldest sample, adds it to the dry input, and feeds half of that outgoing
/// sum back into the line — so an impulse returns one ring-length later at
/// half strength, halving again each further cycle.
pub struct DelayEffect {
    pub buf0: VecDeque<i64>,
    pub buf1: VecDeque<i64>,
}

/// The semantic state of the delay effect.
pub struct DelayView {
    pub buf0: Seq<i64>,
    pub buf1: Seq<i64>,
}

impl DelayEffect {
    pub open spec fn view(self) -> DelayView {
        DelayView { buf0: self.buf0@, buf1: self.buf1@ }
    }
}

/// One delay step: `(ring', y)` with `y = x + delayed` and half of that
/// outgoing sum pushed back into the line (an empty ring delays silence).
pub open spec fn delay_step_spec(ring: Seq<i64>, x: int) -> (Seq<i64>, int) {
    if ring.len() == 0 {
        (seq![fx_mul(fx_add(x, 0), HALF_FX as int) as i64], fx_add(x, 0))
    } else {
        let d = ring[0] as int;
        let y = fx_add(x, d);
        (ring.subrange(1, ring.len() as int).push(fx_mul(y, HALF_FX as int) as i64), y)
    }
}

/// The ring after `n` delay steps.
pub open spec fn delay_run_spec(ring: Seq<i64>, input: Seq<i64>, n: int) -> Seq<i64>
    decreases n,
{
    if n <= 0 {
        ring
    } else {
        delay_step_spec(delay_run_spec(ring, input, n - 1), input[n - 1] as int).0
    }
}

/// The delayed block: output `i` is the step output at ring state `i`.
pub open spec fn delay_out_spec(ring: Seq<i64>, input: Seq<i64>) -> Seq<i64> {
    Seq::new(input.len(), |i: int| delay_step_spec(delay_run_spec(ring, input, i), input[i] as int).1 as i64)
}

impl DelayEffect {
    pub open spec fn spec_process_view(v: DelayView, chan: int, input: Seq<i64>) -> (DelayView, Seq<i64>) {
        if chan == 0 {
            (DelayView { buf0: delay_run_spec(v.buf0, input, input.len() as int), ..v }, delay_out_spec(v.buf0, input))
        } else {
            (DelayView { buf1: delay_run_spec(v.buf1, input, input.len() as int), ..v }, delay_out_spec(v.buf1, input))
        }
    }

    pub fn process(&mut self, chan_id: usize, in_buf: &Vec<i64>, out_buf: &mut Vec<i64>)
        requires
            chan_id < 2,
            old(out_buf)@.len() == in_buf@.len(),
        ensures
            final(self).view() == Self::spec_process_view(old(self).view(), chan_id as int, in_buf@).0,
            final(out_buf)@ == Self::spec_process_view(old(self).view(), chan_id as int, in_buf@).1,
    {
        if chan_id == 0 {
            delay_channel_block(&mut self.buf0, in_buf, out_buf);
        } else {
            delay_channel_block(&mut self.buf1, in_buf, out_buf);
        }
    }

    pub fn get_latency(&self) -> (r: usize)
        ensures
            r == EFFECT_LATENCY,
    {
        EFFECT_LATENCY
    }
}

impl Default for DelayEffect {
    /// One second of silence in each channel's delay line.
    fn default() -> (r: Self)
        ensures
            r.view().buf0 == Seq::<i64>::new(DELAY_LEN as nat, |k: int| 0i64),
            r.view().buf1 == r.view().buf0,
    {
        let mut b0: VecDeque<i64> = VecDeque::new();
        let mut b1: VecDeque<i64> = VecDeque::new();
        let mut k: usize = 0;
        while k < DELAY_LEN
            invariant
                k <= DELAY_LEN,
                b0@ == Seq::<i64>::new(k as nat, |j: int| 0i64),
                b1@ == Seq::<i64>::new(k as nat, |j: int| 0i64),
            decreases DELAY_LEN - k,
        {
            b0.push_back(0);
            b1.push_back(0);
            proof {
                assert(b0@ =~= Seq::<i64>::new((k + 1) as nat, |j: int| 0i64));
                assert(b1@ =~= Seq::<i64>::new((k + 1) as nat, |j: int| 0i64));
            }
            k = k + 1;
        }
        DelayEffect { buf0: b0, buf1: b1 }
    }
}

fn delay_channel_block(ring: &mut VecDeque<i64>, in_buf: &Vec<i64>, out_buf: &mut Vec<i64>)
    requires
        old(out_buf)@.len() == in_buf@.len(),
    ensures
        final(ring)@ == delay_run_spec(old(ring)@, in_buf@, in_buf@.len() as int),
        final(out_buf)@ == delay_out_spec(old(ring)@, in_buf@),
{
    let mut i: usize = 0;
    while i < in_buf.len()
        invariant
            i <= in_buf.len(),
            out_buf@.len() == in_buf@.len(),
            ring@ == delay_run_spec(old(ring)@, in_buf@, i as int),
            forall|j: int| 0 <= j < i ==> out_buf@[j] as int
                == delay_step_spec(delay_run_spec(old(ring)@, in_buf@, j), in_buf@[j] as int).1,
        decreases in_buf.len() - i,
    {
        let ghost pre = ring@;
        let delayed = match ring.pop_front() {
            Some(d) => d,
            None => 0,
        };
        let y = sat_add(in_buf[i], delayed);
        ring.push_back(mul_fx(y, HALF_FX));
        proof {
            assert(ring@ =~= delay_step_spec(pre, in_buf@[i as int] as int).0);
        }
        out_buf.set(i, y);
        i = i + 1;
    }
    proof {
        assert(out_buf@ =~= delay_out_spec(old(ring)@, in_buf@));
    }
}

// --- Grains (dormant) ------------------------------------------------------

/// A bounded grain of audio for pitch-shifted replay. Present in the data
/// model but not yet driven by any effect.
pub struct Grain {
    pub buf: Vec<i64>,
    pub scale: i64,
    pub playhead: i64,
}

/// Granular pitch shifter: per-channel grain lists. It performs the base
/// passthrough transform; its grain machinery is not yet wired up.
pub struct GrainShiftEffect {
    pub grains0: Vec<AudioClip>,
    pub grains1: Vec<AudioClip>,
    pub pitch: i64,
}

impl GrainShiftEffect {
    /// The base behavior an effect has when it overrides nothing: copy the
    /// input block to the output block unchanged.
    pub fn process(&mut self, chan_id: usize, in_buf: &Vec<i64>, out_buf: &mut Vec<i64>)
        requires
            chan_id < 2,
            old(out_buf)@.len() == in_buf@.len(),
        ensures
            *final(self) == *old(self),
            final(out_buf)@ == in_buf@,
    {
        let mut i: usize = 0;
        while i < in_buf.len()
            invariant
                i <= in_buf.len(),
                out_buf@.len() == in_buf@.len(),
                *self == *old(self),
                forall|j: int| 0 <= j < i ==> out_buf@[j] == in_buf@[j],
            decreases in_buf.len() - i,
        {
            out_buf.set(i, in_buf[i]);
            i = i + 1;
        }
        proof {
            assert(out_buf@ =~= in_buf@);
        }
    }

    pub fn get_latency(&self) -> (r: usize)
        ensures
            r == EFFECT_LATENCY,
    {
        EFFECT_LATENCY
    }
}

// --- The closed effect set --------------------------------------------------

/// The chain's effect slots: a closed set of variants dispatched by match,
/// in place of dynamic dispatch over a trait object.
pub enum Effect {
    Dist(DistEffect),
    Vib(VibEffect),
    Filter(FilterEffect),
    Conv(ConvEffect),
    Prime(PrimeEffect),
    Int(IntEffect),
    Slew(SlewEffect),
    TooSlew(TooSlewEffect),
    Delay(DelayEffect),
}

/// The semantic state of one effect slot.
pub enum EffectView {
    Dist(DistEffect),
    Vib(VibView),
    Filter(FilterEffect),
    Conv(ConvView),
    Prime(PrimeEffect),
    Int(IntView),
    Slew(SlewEffect),
    TooSlew(TooSlewEffect),
    Delay(DelayView),
}

impl Effect {
    pub open spec fn view(self) -> EffectView {
        match self {
            Effect::Dist(e) => EffectView::Dist(e),
            Effect::Vib(e) => EffectView::Vib(e.view()),
            Effect::Filter(e) => EffectView::Filter(e),
            Effect::Conv(e) => EffectView::Conv(e.view()),
            Effect::Prime(e) => EffectView::Prime(e),
            Effect::Int(e) => EffectView::Int(e.view()),
            Effect::Slew(e) => EffectView::Slew(e),
            Effect::TooSlew(e) => EffectView::TooSlew(e),
            Effect::Delay(e) => EffectView::Delay(e.view()),
        }
    }
}

/// One effect slot's successor state for one channel block. The scratch
/// sequence is the output buffer's pre-existing contents, which only the
/// distortion reads.
pub open spec fn effect_view_next(v: EffectView, chan: int, input: Seq<i64>, scratch: Seq<i64>) -> EffectView {
    match v {
        EffectView::Dist(e) => EffectView::Dist(e.spec_process(chan, input, scratch).0),
        EffectView::Vib(w) => EffectView::Vib(VibEffect::spec_process_view(w, chan, input).0),
        EffectView::Filter(e) => EffectView::Filter(e.spec_process(chan, input, scratch).0),
        EffectView::Conv(w) => EffectView::Conv(ConvEffect::spec_process_view(w, chan, input).0),
        EffectView::Prime(e) => EffectView::Prime(e.spec_process(chan, input, scratch).0),
        EffectView::Int(w) => EffectView::Int(IntEffect::spec_process_view(w, chan, input).0),
        EffectView::Slew(e) => EffectView::Slew(e.spec_process(chan, input, scratch).0),
        EffectView::TooSlew(e) => EffectView::TooSlew(e.spec_process(chan, input, scratch).0),
        EffectView::Delay(w) => EffectView::Delay(DelayEffect::spec_process_view(w, chan, input).0),
    }
}

/// One effect slot's output block for one channel.
pub open spec fn effect_view_out(v: EffectView, chan: int, input: Seq<i64>, scratch: Seq<i64>) -> Seq<i64> {
    match v {
        EffectView::Dist(e) => e.spec_process(chan, input, scratch).1,
        EffectView::Vib(w) => VibEffect::spec_process_view(w, chan, input).1,
        EffectView::Filter(e) => e.spec_process(chan, input, scratch).1,
        EffectView::Conv(w) => ConvEffect::spec_process_view(w, chan, input).1,
        EffectView::Prime(e) => e.spec_process(chan, input, scratch).1,
        EffectView::Int(w) => IntEffect::spec_process_view(w, chan, input).1,
        EffectView::Slew(e) => e.spec_process(chan, input, scratch).1,
        EffectView::TooSlew(e) => e.spec_process(chan, input, scratch).1,
        EffectView::Delay(w) => DelayEffect::spec_process_view(w, chan, input).1,
    }
}

/// One effect slot after a parameter update pass: the variants that derive
/// coefficients from the store recompute them; the rest are untouched.
pub open spec fn effect_view_update(v: EffectView, p: AndrewParams) -> EffectView {
    match v {
        EffectView::Dist(e) => EffectView::Dist(e.spec_update(p)),
        EffectView::Filter(e) => EffectView::Filter(e.spec_update(p)),
        EffectView::Conv(w) => EffectView::Conv(ConvEffect::spec_update_view(w, p)),
        EffectView::Slew(e) => EffectView::Slew(e.spec_update(p)),
        EffectView::TooSlew(e) => EffectView::TooSlew(e.spec_update(p)),
        _ => v,
    }
}

impl Effect {
    /// Transform one channel's input block into the output block, mutating
    /// this slot's per-channel state.
    pub fn process(&mut self, chan_id: usize, in_buf: &Vec<i64>, out_buf: &mut Vec<i64>)
        requires
            chan_id < 2,
            old(out_buf)@.len() == in_buf@.len(),
            in_buf@.len() < 0x1_0000_0000,
        ensures
            final(self).view() == effect_view_next(old(self).view(), chan_id as int, in_buf@, old(out_buf)@),
            final(out_buf)@ == effect_view_out(old(self).view(), chan_id as int, in_buf@, old(out_buf)@),
            final(out_buf)@.len() == in_buf@.len(),
    {
        match self {
            Effect::Dist(e) => e.process(chan_id, in_buf, out_buf),
            Effect::Vib(e) => e.process(chan_id, in_buf, out_buf),
            Effect::Filter(e) => e.process(chan_id, in_buf, out_buf),
            Effect::Conv(e) => e.process(chan_id, in_buf, out_buf),
            Effect::Prime(e) => e.process(chan_id, in_buf, out_buf),
            Effect::Int(e) => e.process(chan_id, in_buf, out_buf),
            Effect::Slew(e) => e.process(chan_id, in_buf, out_buf),
            Effect::TooSlew(e) => e.process(chan_id, in_buf, out_buf),
            Effect::Delay(e) => e.process(chan_id, in_buf, out_buf),
        }
    }

    /// Recompute this slot's derived coefficients from the store.
    #[verifier::rlimit(60)]
    pub fn update_params(&mut self, p: &AndrewParams)
        ensures
            final(self).view() == effect_view_update(old(self).view(), *p),
    {
        match self {
            Effect::Dist(e) => e.update_params(p),
            Effect::Filter(e) => e.update_params(p),
            Effect::Conv(e) => e.update_params(p),
            Effect::Slew(e) => e.update_params(p),
            Effect::TooSlew(e) => e.update_params(p),
            _ => {},
        }
    }

    /// This slot's contributed delay in samples (constant; the chain does
    /// not aggregate these, by the original design's deliberate choice).
    pub fn get_latency(&self) -> (r: usize)
        ensures
            r == EFFECT_LATENCY,
    {
        match self {
            Effect::Dist(e) => e.get_latency(),
            Effect::Vib(e) => e.get_latency(),
            Effect::Filter(e) => e.get_latency(),
            Effect::Conv(e) => e.get_latency(),
            Effect::Prime(e) => e.get_latency(),
            Effect::Int(e) => e.get_latency(),
            Effect::Slew(e) => e.get_latency(),
            Effect::TooSlew(e) => e.get_latency(),
            Effect::Delay(e) => e.get_latency(),
        }
    }
}

// --- Laws -------------------------------------------------------------------

/// Every held slew value stays in the sample range.
pub proof fn lemma_slew_run_in_range(prev: int, amount: int, input: Seq<i64>, n: int)
    requires
        (i64::MIN as int) <= prev <= (i64::MAX as int),
    ensures
        (i64::MIN as int) <= slew_run_spec(prev, amount, input, n) <= (i64::MAX as int),
    decreases n,
{
    if n > 0 {
        lemma_slew_run_in_range(prev, amount, input, n - 1);
    }
}

/// The slew limiter's law: for any input sequence and any non-negative
/// limit, consecutive outputs (counting the held value before the block as
/// output zero) differ by at most the limit in either direction.
pub proof fn lemma_slew_rate_limited(prev: int, amount: int, input: Seq<i64>)
    requires
        0 <= amount <= (i64::MAX as int),
        (i64::MIN as int) <= prev <= (i64::MAX as int),
    ensures
        forall|n: int| 0 <= n ==> -amount
            <= #[trigger] slew_run_spec(prev, amount, input, n + 1) - slew_run_spec(prev, amount, input, n)
            <= amount,
{
    assert forall|n: int| 0 <= n implies -amount
        <= #[trigger] slew_run_spec(prev, amount, input, n + 1) - slew_run_spec(prev, amount, input, n)
        <= amount by {
        lemma_slew_run_in_range(prev, amount, input, n);
        let p = slew_run_spec(prev, amount, input, n);
        let x = input[n] as int;
        assert(slew_run_spec(prev, amount, input, n + 1) == slew_step_spec(p, x, amount));
    }
}

/// One update pass is idempotent for a single slot: a second pass over the
/// same store recomputes exactly the same derived coefficients (and the
/// kernel- and filter-caching slots skip their recomputation outright).
#[verifier::rlimit(60)]
pub proof fn lemma_update_idempotent(v: EffectView, p: AndrewParams)
    ensures
        effect_view_update(effect_view_update(v, p), p) == effect_view_update(v, p),
{
    match v {
        EffectView::Filter(e) => {
            let cf = fx_mul(p.cutoff as int, FX_10000 as int);
            crate::biquad::lemma_update_center_freq_idempotent(e.f0, cf);
            crate::biquad::lemma_update_center_freq_idempotent(e.f1, cf);
        },
        _ => {},
    }
}
} // verus!
