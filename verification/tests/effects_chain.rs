//! Scenario tests for the effect variants and the chain orchestration.

use convdsp::fixed::{SCALE, mul_fx, div_fx, sat_add, sat_sub, sqrt_fx};
use convdsp::effects::{
    Effect, DistEffect, VibEffect, FilterEffect, ConvEffect, PrimeEffect, IntEffect,
    SlewEffect, TooSlewEffect, DelayEffect, GrainShiftEffect, FX_4, LEAK_FX,
};
use convdsp::params::AndrewParams;
use convdsp::chain::EffectChain;
use std::collections::VecDeque;

fn fx(x: f64) -> i64 {
    (x * 1e9).round() as i64
}

/// The slew limiter fed a unit step with amount 0.1 climbs in exact tenths:
/// 0.1, 0.2, 0.3, 0.4, 0.5, 0.6, 0.7, 0.8.
#[test]
fn slew_step_input_climbs_in_tenths() {
    let mut s = SlewEffect::new();
    s.amount = fx(0.1);
    let input = vec![fx(1.0); 8];
    let mut out = vec![0i64; 8];
    s.process(0, &input, &mut out);
    let expected: Vec<i64> = (1..=8).map(|k| k * fx(0.1)).collect();
    assert_eq!(out, expected);
}

/// For any input sequence, consecutive slew outputs differ by at most the
/// configured amount.
#[test]
fn slew_rate_is_bounded_on_any_sequence() {
    let mut s = SlewEffect::new();
    s.amount = fx(0.3);
    let input = vec![fx(1.0), fx(-1.0), fx(0.25), fx(7.5), fx(-7.5), 3, -3, fx(0.31), fx(0.29)];
    let mut out = vec![0i64; input.len()];
    s.process(1, &input, &mut out);
    let mut prev = 0i64;
    for &y in out.iter() {
        assert!((y - prev).abs() <= fx(0.3), "jump from {prev} to {y}");
        prev = y;
    }
}

/// Both slew channels are independent.
#[test]
fn slew_channels_do_not_share_state() {
    let mut s = SlewEffect::new();
    s.amount = fx(0.1);
    let input = vec![fx(1.0); 3];
    let mut out = vec![0i64; 3];
    s.process(0, &input, &mut out);
    s.process(1, &input, &mut out);
    // The second channel starts from its own zero, not from channel 0's state.
    assert_eq!(out, vec![fx(0.1), fx(0.2), fx(0.3)]);
}

/// The slew amount derives from the store: `slew / sample_rate`.
#[test]
fn slew_amount_from_params() {
    let mut s = SlewEffect::new();
    let mut p = AndrewParams::default();
    p.slew = fx(4410.0);
    p.sample_rate = fx(44100.0);
    s.update_params(&p);
    assert_eq!(s.amount, div_fx(fx(4410.0), fx(44100.0)));
    assert_eq!(s.amount, fx(0.1));
}

/// The second-order tracker follows its input exactly when nothing
/// saturates: its unclamped acceleration makes the sample part land on the
/// input every step.
#[test]
fn too_slew_tracks_input_exactly() {
    let mut s = TooSlewEffect::new();
    let input = vec![fx(0.5), fx(-0.3), fx(1.2), 0, fx(2.5)];
    let mut out = vec![0i64; input.len()];
    s.process(0, &input, &mut out);
    assert_eq!(out, input);
}

/// The differentiator emits exact first differences.
#[test]
fn prime_first_differences() {
    let mut e = PrimeEffect::new();
    let input = vec![fx(1.0), fx(3.0), fx(2.5), fx(2.5)];
    let mut out = vec![0i64; 4];
    e.process(0, &input, &mut out);
    assert_eq!(out, vec![fx(1.0), fx(2.0), fx(-0.5), 0]);
    // The next block continues from the stored previous sample.
    let input2 = vec![fx(3.0)];
    let mut out2 = vec![0i64; 1];
    e.process(0, &input2, &mut out2);
    assert_eq!(out2, vec![fx(0.5)]);
}

/// The leaky integrator's first two steps, computed by hand from the
/// per-sample rule (ring 1000 deep, leak 20/44100).
#[test]
fn int_effect_exact_two_steps() {
    let mut e = IntEffect::new();
    let mut out = vec![0i64; 1];
    e.process(0, &vec![fx(1.0)], &mut out);
    // Ring is all zeros: avg = 0, sum = 1.0, out = sum.
    assert_eq!(out, vec![fx(1.0)]);
    e.process(0, &vec![0], &mut out);
    // avg = 1e9 / 1000 = 1e6; sum = 1e9 - (1e6 * LEAK / 1e9) = 999_999_547;
    // out = sum - (1e6 * (1e9 - LEAK) / 1e9) = 999_000_001.
    assert_eq!(LEAK_FX, 453_514);
    assert_eq!(out, vec![999_000_001]);
}

/// The distortion reads the output buffer's stale contents, not its input
/// block; with a zeroed scratch buffer its output is the constant the
/// shaper takes at zero.
#[test]
fn dist_reads_scratch_not_input() {
    let mut d = DistEffect::new();
    let p = AndrewParams::default();
    d.update_params(&p);
    assert_eq!(d.gain, fx(2.0));
    let input = vec![fx(0.9), fx(-0.9)];
    let mut scratch = vec![0i64; 2];
    d.process(0, &input, &mut scratch);
    // Expected from the shaper formula at scratch value 0.
    let g = fx(2.0);
    let n = sat_sub(sqrt_fx(sat_add(SCALE, div_fx(FX_4, g))), SCALE) / 2;
    let expect = sat_add(sat_sub(SCALE, div_fx(SCALE, mul_fx(g, n))), n);
    assert_eq!(scratch, vec![expect, expect]);
    // The real-valued shaper takes 0 at 0 for gain 2; fixed point lands
    // within a hair of it.
    assert!(expect.abs() < 10_000, "shaper at zero = {expect}");
}

/// A fresh filter effect is the narrow-notch all-pass at 1 kHz, and its
/// update pass re-synthesizes both channels only on a cutoff change.
#[test]
fn filter_update_recomputes_on_change_only() {
    let mut f = FilterEffect::new();
    let mut p = AndrewParams::default();
    p.cutoff = fx(0.1);
    f.update_params(&p);
    let c1 = (f.f0.constants(), f.f1.constants());
    f.update_params(&p);
    let c2 = (f.f0.constants(), f.f1.constants());
    assert_eq!(c1, c2);
    p.cutoff = fx(0.2);
    f.update_params(&p);
    assert_ne!((f.f0.constants(), f.f1.constants()), c2);
}

/// Two update passes with no intervening write leave the smoothing kernel
/// untouched.
#[test]
fn conv_update_params_idempotent() {
    let mut e = ConvEffect::new();
    let mut p = AndrewParams::default();
    p.delay_time = fx(0.12);
    e.update_params(&p);
    let pat1 = e.pattern.clone();
    let spread1 = e.spread;
    e.update_params(&p);
    assert_eq!(e.pattern, pat1);
    assert_eq!(e.spread, spread1);
    assert_eq!(spread1, mul_fx(fx(0.12), fx(100.0)));
}

/// The smoothing kernel's exact shape: unity at the center, zero at the
/// edges, symmetric falloff by the squared-distance rule.
#[test]
fn conv_kernel_shape() {
    let e = ConvEffect::new();
    assert_eq!(e.pattern.len(), 100);
    assert_eq!(e.pattern[50], SCALE);
    assert_eq!(e.pattern[0], 0);
    assert_eq!(e.pattern[99], 0);
    // One tap off center: 1 - (1/6)^2.
    let q = div_fx(fx(1.0), fx(6.0));
    assert_eq!(e.pattern[51], SCALE - mul_fx(q, q));
}

/// A single impulse sliding through the window picks up exactly the center
/// tap scaled by 1.5 / spread.
#[test]
fn conv_impulse_hits_center_tap() {
    let mut e = ConvEffect::new();
    let mut out1 = vec![0i64; 1];
    e.process(0, &vec![fx(1.0)], &mut out1);
    let input2 = vec![0i64; 49];
    let mut out2 = vec![0i64; 49];
    e.process(0, &input2, &mut out2);
    // factor = 1.5 / 6 = 0.25 exactly; center tap is 1.0.
    assert_eq!(out2[48], fx(0.25));
}

/// The feedback delay's dry path is immediate: an impulse appears at the
/// output unchanged on its own sample.
#[test]
fn delay_dry_path_immediate() {
    let mut d = DelayEffect::default();
    let mut input = vec![0i64; 64];
    input[0] = fx(1.0);
    let mut out = vec![0i64; 64];
    d.process(0, &input, &mut out);
    assert_eq!(out[0], fx(1.0));
    for k in 1..64 {
        assert_eq!(out[k], 0);
    }
}

/// A unit impulse produces 1.0 immediately (dry) and a wet tap of exactly
/// 0.5 one ring-length later, the echoed slot halving each further cycle.
#[test]
fn delay_impulse_echoes_at_half_each_cycle() {
    let mut d = DelayEffect::default();
    let mut input = vec![0i64; 44_100];
    input[0] = fx(1.0);
    let mut out = vec![0i64; 44_100];
    d.process(0, &input, &mut out);
    assert_eq!(out[0], fx(1.0));
    assert!(out[1..].iter().all(|&v| v == 0));
    let zeros = vec![0i64; 44_100];
    let mut out2 = vec![0i64; 44_100];
    d.process(0, &zeros, &mut out2);
    assert_eq!(out2[0], fx(0.5));
    assert!(out2[1..].iter().all(|&v| v == 0));
    let mut out3 = vec![0i64; 44_100];
    d.process(0, &zeros, &mut out3);
    assert_eq!(out3[0], fx(0.25));
    assert!(out3[1..].iter().all(|&v| v == 0));
}

/// A value seeded into the delay line emerges each cycle, halved.
#[test]
fn delay_seeded_value_decays_by_half_each_cycle() {
    let mut line: VecDeque<i64> = VecDeque::new();
    line.push_back(fx(0.8));
    let mut other: VecDeque<i64> = VecDeque::new();
    other.push_back(0);
    let mut d = DelayEffect { buf0: line, buf1: other };
    let zeros = vec![0i64; 1];
    let mut out = vec![0i64; 1];
    d.process(0, &zeros, &mut out);
    assert_eq!(out[0], fx(0.8));
    d.process(0, &zeros, &mut out);
    assert_eq!(out[0], fx(0.4));
    d.process(0, &zeros, &mut out);
    assert_eq!(out[0], fx(0.2));
}

/// The vibrato on a fresh clip reads from its silent preroll.
#[test]
fn vib_fresh_clip_outputs_preroll_silence() {
    let mut v = VibEffect::new();
    let input = vec![fx(0.5), fx(0.5)];
    let mut out = vec![fx(9.0); 2];
    v.process(0, &input, &mut out);
    assert_eq!(out, vec![0, 0]);
    assert_eq!(v.ch0.buf.buf.len(), 514);
    assert_eq!(v.ch0.lfo.time, 2);
    // The other channel is untouched.
    assert_eq!(v.ch1.lfo.time, 0);
}


/// Once the playhead has consumed the silent preroll, the vibrato reads
/// interpolated values out of the appended input: between two equal
/// samples the blend is exact.
#[test]
fn vib_reads_through_appended_input() {
    let mut v = VibEffect::new();
    let ones = vec![fx(1.0); 512];
    let mut out1 = vec![fx(9.0); 512];
    v.process(0, &ones, &mut out1);
    // The whole first block still reads the silent preroll.
    assert!(out1.iter().all(|&s| s == 0));
    let mut out2 = vec![0i64; 512];
    v.process(0, &ones, &mut out2);
    // From the second read on, both bounding samples are 1.0, and the
    // blend of equal samples is exact.
    assert_eq!(out2[10], fx(1.0));
    assert_eq!(out2[300], fx(1.0));
    assert_eq!(out2[511], fx(1.0));
}

/// The base passthrough transform copies the input block verbatim.
#[test]
fn grain_shift_passthrough() {
    let mut g = GrainShiftEffect { grains0: Vec::new(), grains1: Vec::new(), pitch: 0 };
    let input = vec![fx(0.1), fx(0.2), fx(0.3)];
    let mut out = vec![0i64; 3];
    g.process(0, &input, &mut out);
    assert_eq!(out, input);
}

/// Every effect reports one sample of latency.
#[test]
fn effects_report_unit_latency() {
    assert_eq!(DistEffect::new().get_latency(), 1);
    assert_eq!(SlewEffect::new().get_latency(), 1);
    assert_eq!(Effect::Prime(PrimeEffect::new()).get_latency(), 1);
}

/// A host buffer of more than two channels is rejected wholesale: no
/// output, no state change.
#[test]
fn chain_rejects_more_than_two_channels() {
    let mut chain = EffectChain::new();
    chain.init();
    let inputs = vec![vec![fx(0.1); 4], vec![fx(0.2); 4], vec![fx(0.3); 4]];
    assert!(chain.process(&inputs).is_none());
    // The dirty flag was not consumed.
    assert!(chain.params.updated);
}

/// With the mix fully dry the chain's output is bit-for-bit the raw input.
#[test]
fn chain_full_dry_is_identity() {
    let mut chain = EffectChain::new();
    chain.init();
    chain.params.dry_wet = 0;
    let input = vec![fx(0.3), fx(-0.7), fx(0.2), fx(1.5)];
    let outs = chain.process(&vec![input.clone()]).unwrap();
    assert_eq!(outs.len(), 1);
    assert_eq!(outs[0], input);
}

/// With the mix fully wet the chain's output equals the last stage's wet
/// signal, reproduced here by running the same stages by hand.
#[test]
fn chain_full_wet_equals_last_stage() {
    let mut chain = EffectChain::new();
    chain.init();
    let p = chain.params;
    assert_eq!(p.dry_wet, SCALE);
    let input = vec![fx(0.25), fx(-0.5), fx(0.75), 0];

    // The same pipeline by hand: update pass, then the buffer swaps.
    let mut d = DistEffect::new();
    d.update_params(&p);
    let mut v = VibEffect::new();
    let mut x = input.clone();
    let mut y = vec![0i64; 4];
    d.process(0, &x, &mut y);
    v.process(0, &y, &mut x);
    let wet = x;

    let outs = chain.process(&vec![input]).unwrap();
    assert_eq!(outs[0], wet);
    assert!(!chain.params.updated);
}

/// Processing a second block with no intervening write runs no second
/// update pass and leaves derived coefficients unchanged.
#[test]
fn chain_update_pass_runs_once() {
    let mut chain = EffectChain::new();
    chain.init();
    chain.effects.push(Effect::Slew(SlewEffect::new()));
    let block = vec![vec![fx(0.1); 8]];
    chain.process(&block).unwrap();
    assert!(!chain.params.updated);
    let amount1 = match &chain.effects[2] {
        Effect::Slew(s) => s.amount,
        _ => unreachable!(),
    };
    chain.process(&block).unwrap();
    let amount2 = match &chain.effects[2] {
        Effect::Slew(s) => s.amount,
        _ => unreachable!(),
    };
    assert_eq!(amount1, amount2);
    assert_eq!(amount1, div_fx(p_slew_default(), fx(44100.0)));
}

fn p_slew_default() -> i64 {
    AndrewParams::default().slew
}

/// A parameter write between blocks re-arms the update pass.
#[test]
fn chain_dirty_flag_rearms_update() {
    let mut chain = EffectChain::new();
    let block = vec![vec![fx(0.1); 4]];
    chain.process(&block).unwrap();
    assert!(!chain.params.updated);
    chain.params.set_parameter(3, fx(0.25));
    assert!(chain.params.updated);
    chain.process(&block).unwrap();
    assert!(!chain.params.updated);
    let gain = match &chain.effects[0] {
        Effect::Dist(d) => d.gain,
        _ => unreachable!(),
    };
    assert_eq!(gain, fx(0.5));
}

/// The chain reports a slot's own constant latency and does not sum.
#[test]
fn chain_latency_is_per_slot() {
    let mut chain = EffectChain::new();
    chain.init();
    assert_eq!(chain.get_latency(0), Some(1));
    assert_eq!(chain.get_latency(1), Some(1));
    assert_eq!(chain.get_latency(2), None);
}

/// Setting the sample rate records it in the store without marking dirty.
#[test]
fn chain_set_sample_rate() {
    let mut chain = EffectChain::new();
    let mut block = vec![vec![0i64; 1]];
    chain.process(&block).unwrap();
    chain.set_sample_rate(fx(48000.0));
    assert_eq!(chain.params.sample_rate, fx(48000.0));
    assert!(!chain.params.updated);
    block[0][0] = fx(0.5);
    chain.process(&block).unwrap();
}
