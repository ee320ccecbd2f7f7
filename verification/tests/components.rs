//! Tests for the biquad filter, the fractional playback buffer, the
//! oscillator and the parameter store.

use convdsp::fixed::{SCALE, mul_fx, div_fx, sat_add, sat_neg};
use convdsp::trig::{TAU_FX, sin_fx, cos_fx};
use convdsp::biquad::{BiQuadraticFilter, FilterKind};
use convdsp::audio_clip::AudioClip;
use convdsp::modulator::Lfo;
use convdsp::params::{AndrewParams, FX_001, FX_20, FX_44100};

fn fx(x: f64) -> i64 {
    (x * 1e9).round() as i64
}

fn norm(pre: i64, a0: i64) -> i64 {
    ((pre as i128) * (SCALE as i128) / (a0 as i128)) as i64
}

/// Recompute the lowpass cookbook coefficients independently and hold the
/// configured filter to them (center 1000 Hz, rate 44100 Hz, Q 1, gain 0).
#[test]
fn biquad_lowpass_matches_cookbook_oracle() {
    let f = BiQuadraticFilter::new(FilterKind::LOWPASS, fx(1000.0), fx(44100.0), fx(1.0), 0);

    let omega = div_fx(mul_fx(TAU_FX, fx(1000.0)), fx(44100.0));
    let sn = sin_fx(omega);
    let cs = cos_fx(omega);
    let alpha = div_fx(sn, 2 * fx(1.0));
    let b0 = (SCALE - cs) / 2;
    let b1 = SCALE - cs;
    let b2 = (SCALE - cs) / 2;
    let a0 = SCALE + alpha;
    let a1 = -2 * cs;
    let a2 = SCALE - alpha;

    let c = f.constants();
    assert_eq!(c[0], norm(a1, a0));
    assert_eq!(c[1], norm(a2, a0));
    assert_eq!(c[2], norm(b0, a0));
    assert_eq!(c[3], norm(b1, a0));
    assert_eq!(c[4], norm(b2, a0));

    // Sanity against real-valued cookbook numbers.
    let w = 2.0 * std::f64::consts::PI * 1000.0 / 44100.0;
    let al = w.sin() / 2.0;
    let exp_b0 = fx(((1.0 - w.cos()) / 2.0) / (1.0 + al));
    assert!((c[2] - exp_b0).abs() < 1000, "b0 = {}, expected about {exp_b0}", c[2]);
}

/// The custom all-pass kind stores its own closed form, normalized.
#[test]
fn biquad_custom_kind_coefficients() {
    let f = BiQuadraticFilter::new(FilterKind::CUSTOM, fx(1000.0), fx(44100.0), fx(1.0), 0);
    let omega = div_fx(mul_fx(TAU_FX, fx(1000.0)), fx(44100.0));
    let sn = sin_fx(omega);
    let cs = cos_fx(omega);
    let alpha = div_fx(sn, 2 * fx(1.0));
    let a0 = 2 * SCALE + alpha;
    let c = f.constants();
    assert_eq!(c[2], norm(-alpha, a0));
    assert_eq!(c[3], 0);
    assert_eq!(c[4], norm(alpha, a0));
    assert_eq!(c[0], norm(-2 * cs, a0));
    assert_eq!(c[1], norm(2 * SCALE - alpha, a0));
}

/// Reconstructing the pre-normalization ratio: the leading feedback
/// coefficient divided by itself is exactly one, for every kind.
#[test]
fn biquad_a0_folded_to_unit() {
    let omega = div_fx(mul_fx(TAU_FX, fx(500.0)), fx(48000.0));
    let sn = sin_fx(omega);
    let alpha = div_fx(sn, 2 * fx(0.7));
    let a0 = SCALE + alpha;
    assert_eq!(div_fx(a0, a0), SCALE);
    let a0_custom = 2 * SCALE + alpha;
    assert_eq!(div_fx(a0_custom, a0_custom), SCALE);
}

/// Zero Q is replaced by the smallest positive value, never dividing by
/// zero; the filter still produces finite coefficients.
#[test]
fn biquad_zero_q_uses_epsilon() {
    let f = BiQuadraticFilter::new(FilterKind::LOWPASS, fx(1000.0), fx(44100.0), 0, 0);
    let c = f.constants();
    for v in c.iter() {
        assert!(v.abs() <= i64::MAX);
    }
    // alpha = sn / (2 * 1e-9) is huge, so b0 / a0 collapses toward zero.
    assert_eq!(c[2], 0);
}

/// The lowpass DC identity on synthesized terms: the feed-forward and
/// feedback coefficient sums agree to within one truncation unit, the
/// fixed-point shadow of exact unity gain at DC.
#[test]
fn biquad_lowpass_dc_sums_agree() {
    let omega = div_fx(mul_fx(TAU_FX, fx(1000.0)), fx(44100.0));
    let cs = cos_fx(omega);
    let sn = sin_fx(omega);
    let alpha = div_fx(sn, 2 * fx(1.0));
    let bsum = ((SCALE - cs) / 2) * 2 + (SCALE - cs);
    let asum = (SCALE + alpha) + (-2 * cs) + (SCALE - alpha);
    assert!(asum - 1 <= bsum && bsum <= asum, "bsum {bsum}, asum {asum}");
}

/// A lowpass driven by a constant input settles to unity gain at DC.
#[test]
fn biquad_lowpass_dc_convergence() {
    let mut f = BiQuadraticFilter::new(FilterKind::LOWPASS, fx(1000.0), fx(44100.0), fx(0.7), 0);
    let x = fx(0.5);
    let mut y: i64 = 0;
    for _ in 0..4000 {
        y = f.filter(x);
    }
    assert!((y - x).abs() < fx(0.005), "settled output {y}, input {x}");
}

/// An unchanged center frequency must not trigger recomputation, and a
/// changed one must.
#[test]
fn biquad_update_center_freq_caches() {
    let mut f = BiQuadraticFilter::new(FilterKind::LOWPASS, fx(1000.0), fx(44100.0), fx(1.0), 0);
    let before = f.constants();
    f.update_center_freq(fx(1000.0));
    assert_eq!(f.constants(), before);
    f.update_center_freq(fx(2000.0));
    assert_ne!(f.constants(), before);
}

/// The direct-form step: one impulse through unit-b0 coefficients.
#[test]
fn biquad_filter_step_formula() {
    let mut f = BiQuadraticFilter::default();
    // With all coefficients zero the output is zero regardless of input.
    assert_eq!(f.filter(fx(1.0)), 0);
    let mut g = BiQuadraticFilter::new(FilterKind::NOTCH, fx(1000.0), fx(44100.0), fx(1.0), 0);
    let c = g.constants();
    let y0 = g.filter(fx(1.0));
    // y = b0 * x when every history slot is zero.
    assert_eq!(y0, mul_fx(c[2], fx(1.0)));
}

/// Exact linear blend at an interior position.
#[test]
fn interp_exact_blend() {
    let mut clip = AudioClip::new(0, SCALE, FX_44100, false);
    let data = vec![fx(1.0), fx(2.0), fx(4.0)];
    clip.extend(&data);
    assert_eq!(clip.interp(fx(0.25)), fx(1.25));
    assert_eq!(clip.interp(fx(0.5)), fx(1.5));
    assert_eq!(clip.interp(0), fx(1.0));
    assert_eq!(clip.interp(fx(1.0)), fx(2.0));
}

/// A read past the available lookahead returns exactly zero.
#[test]
fn interp_underrun_is_silence() {
    let mut clip = AudioClip::new(0, SCALE, FX_44100, false);
    clip.extend(&vec![fx(1.0), fx(2.0)]);
    // i + 2 > len: any position beyond 0 underruns a two-sample buffer.
    assert_eq!(clip.interp(1), 0);
    assert_eq!(clip.interp(fx(0.5)), 0);
    assert_eq!(clip.interp(fx(5.0)), 0);
    assert_eq!(clip.interp(-1), 0);
    assert_eq!(clip.interp(0), fx(1.0));
}

/// Compaction drops exactly the passed samples, moves the playhead back by
/// exactly the drop count, and keeps the lookahead pair.
#[test]
fn compact_retains_lookahead() {
    let mut clip = AudioClip::new(0, SCALE, FX_44100, false);
    let data: Vec<i64> = (0..10).map(|k| fx(k as f64)).collect();
    clip.extend(&data);
    for _ in 0..3 {
        clip.read_playhead();
    }
    // playhead sits at 3.0 after three unit-rate reads
    let before = clip.interp(clip.playhead);
    clip.shrink();
    assert_eq!(clip.playhead, fx(1.0));
    assert_eq!(clip.buf.len(), 8);
    assert_eq!(clip.buf[0], fx(2.0));
    assert_eq!(clip.interp(clip.playhead), before);
}

/// In the degenerate state the data model's lookahead invariant excludes
/// (a playhead far past the end), compaction removes at most the whole
/// buffer and moves the playhead back by exactly the samples removed.
#[test]
fn compact_caps_drop_at_buffer_length() {
    let mut clip = AudioClip::new(0, SCALE, FX_44100, false);
    clip.extend(&vec![fx(1.0), fx(2.0)]);
    clip.playhead = fx(10.0);
    clip.shrink();
    assert_eq!(clip.buf.len(), 0);
    assert_eq!(clip.playhead, fx(8.0));
}

/// Below one sample of progress nothing is compacted.
#[test]
fn compact_noop_below_one_sample() {
    let mut clip = AudioClip::new(4, SCALE, FX_44100, false);
    clip.shrink();
    assert_eq!(clip.buf.len(), 4);
    assert_eq!(clip.playhead, 0);
}

/// A grain clip copies its source and loops.
#[test]
fn grain_copies_and_loops() {
    let src = vec![fx(0.1), fx(0.2)];
    let g = AudioClip::grain(&src, fx(2.0), FX_44100);
    assert_eq!(g.buf, src);
    assert!(g.looping);
    assert_eq!(g.playhead, 0);
}

/// The oscillator wraps at its period and traces a sine.
#[test]
fn lfo_phase_and_wrap() {
    let mut l = Lfo::default();
    assert_eq!(l.get(), 0);
    l.forward(44_100);
    assert_eq!(l.time, 0);
    l.forward(11_025);
    let v = l.get();
    assert!((v - SCALE).abs() < 100, "sin at quarter period = {v}");
    l.forward(11_025);
    let v2 = l.get();
    assert!(v2.abs() < 10, "sin at half period = {v2}");
    l.forward(60_000);
    assert_eq!(l.time, (11_025 + 11_025 + 60_000) % 44_100);
}

/// Every indexed write lands on its control and marks the store dirty.
#[test]
fn params_set_get_roundtrip() {
    let mut p = AndrewParams::default();
    p.updated = false;
    p.set_parameter(0, fx(0.75));
    assert!(p.updated);
    assert_eq!(p.get_parameter(0), fx(0.75));
    p.set_parameter(3, fx(0.4));
    assert_eq!(p.get_parameter(3), fx(0.4));
    assert_eq!(p.get_parameter(99), 0);
}

/// The range mappings of the knob writes, exactly.
#[test]
fn params_knob_mappings() {
    let mut p = AndrewParams::default();
    p.set_parameter(2, fx(0.5));
    assert_eq!(p.get_parameter(2), fx(1.0) - mul_fx(fx(0.5), fx(0.99)));
    p.set_parameter(4, fx(0.5));
    assert_eq!(p.get_parameter(4), mul_fx(fx(0.5), fx(0.99)) + FX_001);
    p.set_parameter(1, 0);
    assert_eq!(p.get_parameter(1), FX_20);
    p.set_parameter(1, SCALE);
    let top = p.get_parameter(1);
    assert!((top - fx(20_000.0)).abs() < fx(0.5), "slew at full knob = {top}");
}

/// The defaults: dirty, fully wet, open cutoff, nominal rate.
#[test]
fn params_defaults() {
    let p = AndrewParams::default();
    assert!(p.updated);
    assert_eq!(p.dry_wet, SCALE);
    assert_eq!(p.cutoff, SCALE);
    assert_eq!(p.delay_feedback, SCALE);
    assert_eq!(p.delay_time, FX_001);
    assert_eq!(p.sample_rate, FX_44100);
}

/// Saturating helpers keep their algebraic edges.
#[test]
fn sat_neg_min_is_max() {
    assert_eq!(sat_neg(i64::MIN), i64::MAX);
    assert_eq!(sat_add(0, 0), 0);
}
