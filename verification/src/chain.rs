//! The effect chain: owns the ordered effect slots and the parameter store,
//! and orchestrates per-block, per-channel execution through a buffer-swap
//! pipeline with a final dry/wet mix.
//!
//! Once per block — not per effect, not per sample — the chain observes the
//! store's dirty flag, runs a full update pass over every slot, and clears
//! the flag. A block whose host reports more than two channels is rejected
//! wholesale: no output is produced and no state changes.

use vstd::prelude::*;
use crate::fixed::{SCALE, fx_add, fx_sub, fx_mul, sat_add, sat_sub, mul_fx};
use crate::params::{AndrewParams, FX_44100};
use crate::effects::{
    Effect, EffectView, DistEffect, VibEffect,
    effect_view_next, effect_view_out, effect_view_update,
};

verus! {

/// A zero-filled scratch block.
pub open spec fn zeros_spec(n: int) -> Seq<i64> {
    Seq::new(n as nat, |i: int| 0i64)
}

/// The semantic states of a list of effect slots.
pub open spec fn effect_views_spec(effs: Seq<Effect>) -> Seq<EffectView> {
    effs.map_values(|e: Effect| e.view())
}

/// A full update pass over every slot, in order.
pub open spec fn update_all_spec(vs: Seq<EffectView>, p: AndrewParams) -> Seq<EffectView> {
    vs.map_values(|v: EffectView| effect_view_update(v, p))
}

/// The buffer-swap pipeline: each stage consumes the previous stage's
/// output as its input and reuses the buffer from two stages back as its
/// output space (whose stale contents only the distortion reads). Returns
/// the slots' successor states and the final buffer pair; the pair's first
/// component is the wet signal.
pub open spec fn run_effects_spec(vs: Seq<EffectView>, chan: int, x: Seq<i64>, y: Seq<i64>) -> (Seq<EffectView>, Seq<i64>, Seq<i64>)
    decreases vs.len(),
{
    if vs.len() == 0 {
        (vs, x, y)
    } else {
        let v2 = effect_view_next(vs[0], chan, x, y);
        let out = effect_view_out(vs[0], chan, x, y);
        let rest = run_effects_spec(vs.drop_first(), chan, out, x);
        (seq![v2] + rest.0, rest.1, rest.2)
    }
}

/// The dry/wet mix: `out[i] = wet[i] * dry_wet + dry[i] * (1 - dry_wet)`.
pub open spec fn mix_spec(wet: Seq<i64>, dry: Seq<i64>, dw: int) -> Seq<i64> {
    Seq::new(
        wet.len(),
        |i: int| fx_add(fx_mul(wet[i] as int, dw), fx_mul(dry[i] as int, fx_sub(SCALE as int, dw))) as i64,
    )
}

/// The slots' states after one channel's pipeline.
pub open spec fn chain_channel_next_spec(vs: Seq<EffectView>, chan: int, input: Seq<i64>) -> Seq<EffectView> {
    run_effects_spec(vs, chan, input, zeros_spec(input.len() as int)).0
}

/// One channel's final output block: pipeline, then mix against the raw
/// input.
pub open spec fn chain_channel_out_spec(vs: Seq<EffectView>, chan: int, input: Seq<i64>, dw: int) -> Seq<i64> {
    mix_spec(run_effects_spec(vs, chan, input, zeros_spec(input.len() as int)).1, input, dw)
}

/// All channels in order, the slots' states carried from each channel into
/// the next.
pub open spec fn run_channels_spec(vs: Seq<EffectView>, inputs: Seq<Seq<i64>>, c: int, dw: int) -> (Seq<EffectView>, Seq<Seq<i64>>)
    decreases inputs.len() - c,
{
    if c < 0 || c >= inputs.len() {
        (vs, Seq::empty())
    } else {
        let vs2 = chain_channel_next_spec(vs, c, inputs[c]);
        let out_c = chain_channel_out_spec(vs, c, inputs[c], dw);
        let rest = run_channels_spec(vs2, inputs, c + 1, dw);
        (rest.0, seq![out_c] + rest.1)
    }
}

/// The views of a list of channel blocks.
pub open spec fn vec_views_spec(inputs: Seq<Vec<i64>>) -> Seq<Seq<i64>> {
    inputs.map_values(|v: Vec<i64>| v@)
}

/// The chain: the ordered effect slots, the parameter store they read, and
/// the cached host sample rate.
pub struct EffectChain {
    pub effects: Vec<Effect>,
    pub params: AndrewParams,
    pub sample_rate: i64,
}

impl EffectChain {
    /// A chain holding the distortion slot, over a default store.
    pub fn new() -> (r: Self)
        ensures
            r.effects@ == seq![Effect::Dist(DistEffect { gain: SCALE })],
            r.params.updated == true,
            r.params.sample_rate == FX_44100,
            r.params.dry_wet == SCALE,
            r.params.slew as int == crate::params::slew_of_knob_spec(SCALE as int),
            r.params.delay_time == crate::params::FX_001,
            r.params.delay_feedback == SCALE,
            r.params.cutoff == SCALE,
            r.sample_rate == FX_44100,
    {
        let mut effects: Vec<Effect> = Vec::new();
        effects.push(Effect::Dist(DistEffect::new()));
        proof {
            assert(effects@ =~= seq![Effect::Dist(DistEffect { gain: SCALE })]);
        }
        EffectChain { effects, params: Default::default(), sample_rate: FX_44100 }
    }

    /// Late assembly: append the vibrato slot.
    pub fn init(&mut self)
        ensures
            final(self).effects@.len() == old(self).effects@.len() + 1,
            forall|i: int| 0 <= i < old(self).effects@.len()
                ==> final(self).effects@[i] == old(self).effects@[i],
            final(self).effects@.last() is Vib,
            (final(self).effects@.last()->Vib_0).view().ch0 == VibEffect::initial_channel_view(),
            (final(self).effects@.last()->Vib_0).view().ch1 == VibEffect::initial_channel_view(),
            final(self).params == old(self).params,
            final(self).sample_rate == old(self).sample_rate,
    {
        self.effects.push(Effect::Vib(VibEffect::new()));
    }

    /// Record a host sample-rate change in the store; rate-dependent slots
    /// pick it up on their next update pass.
    pub fn set_sample_rate(&mut self, rate: i64)
        ensures
            *final(self) == (EffectChain {
                sample_rate: rate,
                params: AndrewParams { sample_rate: rate, ..old(self).params },
                ..*old(self)
            }),
    {
        self.sample_rate = rate;
        self.params.sample_rate = rate;
    }

    /// Process one block: reject a host buffer of more than two channels
    /// outright; otherwise run the update pass if the store is dirty, then
    /// thread every channel through the pipeline and mix.
    #[verifier::rlimit(100)]
    pub fn process(&mut self, inputs: &Vec<Vec<i64>>) -> (r: Option<Vec<Vec<i64>>>)
        requires
            forall|c: int| 0 <= c < inputs@.len() ==> (#[trigger] inputs@[c])@.len() < 0x1_0000_0000,
        ensures
            inputs@.len() > 2 ==> r is None && *final(self) == *old(self),
            inputs@.len() <= 2 ==> {
                let vs0 = effect_views_spec(old(self).effects@);
                let vs1 = if old(self).params.updated {
                    update_all_spec(vs0, old(self).params)
                } else {
                    vs0
                };
                let run = run_channels_spec(vs1, vec_views_spec(inputs@), 0, old(self).params.dry_wet as int);
                &&& r is Some
                &&& effect_views_spec(final(self).effects@) == run.0
                &&& vec_views_spec((r->Some_0)@) == run.1
                &&& (r->Some_0)@.len() == inputs@.len()
                &&& final(self).params == (AndrewParams { updated: false, ..old(self).params })
                &&& final(self).sample_rate == old(self).sample_rate
            },
    {
        if inputs.len() > 2 {
            return None;
        }
        let ghost vs0 = effect_views_spec(old(self).effects@);
        let ghost p0 = old(self).params;
        if self.params.updated {
            let p = self.params;
            let mut updated_effs: Vec<Effect> = Vec::new();
            while self.effects.len() > 0
                invariant
                    p == p0,
                    self.params == p0,
                    self.sample_rate == old(self).sample_rate,
                    update_all_spec(vs0, p0) =~= effect_views_spec(updated_effs@)
                        + update_all_spec(effect_views_spec(self.effects@), p0),
                decreases self.effects@.len(),
            {
                let ghost pre = self.effects@;
                let ghost ue_pre = updated_effs@;
                let mut e = self.effects.remove(0);
                let ghost ev0 = e.view();
                proof {
                    assert(self.effects@ =~= pre.drop_first());
                    assert(effect_views_spec(self.effects@) =~= effect_views_spec(pre).drop_first());
                    assert(effect_views_spec(pre)[0] == ev0);
                    assert(update_all_spec(effect_views_spec(pre), p0)
                        =~= seq![effect_view_update(ev0, p0)]
                            + update_all_spec(effect_views_spec(pre).drop_first(), p0));
                }
                e.update_params(&p);
                updated_effs.push(e);
                proof {
                    assert(effect_views_spec(updated_effs@)
                        =~= effect_views_spec(ue_pre).push(e.view()));
                    assert(effect_views_spec(updated_effs@)
                        + update_all_spec(effect_views_spec(self.effects@), p0)
                        =~= update_all_spec(vs0, p0));
                }
            }
            self.effects = updated_effs;
            self.params.updated = false;
            proof {
                assert(update_all_spec(effect_views_spec(Seq::<Effect>::empty()), p0)
                    =~= Seq::<EffectView>::empty());
                assert(effect_views_spec(self.effects@) =~= update_all_spec(vs0, p0));
            }
        }
        let ghost vs1 = effect_views_spec(self.effects@);
        let ghost inviews = vec_views_spec(inputs@);
        let dw = self.params.dry_wet;
        let mut outs: Vec<Vec<i64>> = Vec::new();
        let mut c: usize = 0;
        while c < inputs.len()
            invariant
                c <= inputs@.len(),
                inputs@.len() <= 2,
                inviews == vec_views_spec(inputs@),
                forall|ci: int| 0 <= ci < inputs@.len() ==> (#[trigger] inputs@[ci])@.len() < 0x1_0000_0000,
                dw == self.params.dry_wet,
                self.params == (AndrewParams { updated: false, ..p0 }),
                self.sample_rate == old(self).sample_rate,
                outs@.len() == c,
                run_channels_spec(vs1, inviews, 0, dw as int).0
                    == run_channels_spec(effect_views_spec(self.effects@), inviews, c as int, dw as int).0,
                run_channels_spec(vs1, inviews, 0, dw as int).1
                    =~= vec_views_spec(outs@)
                        + run_channels_spec(effect_views_spec(self.effects@), inviews, c as int, dw as int).1,
            decreases inputs@.len() - c,
        {
            let input = &inputs[c];
            let n = input.len();
            let ghost vsc = effect_views_spec(self.effects@);
            proof {
                assert(inviews[c as int] == input@);
            }
            let mut x: Vec<i64> = Vec::new();
            let mut k: usize = 0;
            while k < n
                invariant
                    k <= n,
                    n == input@.len(),
                    x@ == input@.subrange(0, k as int),
                decreases n - k,
            {
                x.push(input[k]);
                proof {
                    assert(x@ =~= input@.subrange(0, (k + 1) as int));
                }
                k = k + 1;
            }
            proof {
                assert(x@ =~= input@);
            }
            let mut y: Vec<i64> = Vec::new();
            let mut k2: usize = 0;
            while k2 < n
                invariant
                    k2 <= n,
                    y@ == zeros_spec(k2 as int),
                decreases n - k2,
            {
                y.push(0);
                proof {
                    assert(y@ =~= zeros_spec((k2 + 1) as int));
                }
                k2 = k2 + 1;
            }
            let ghost target = run_effects_spec(vsc, c as int, input@, zeros_spec(n as int));
            proof {
                assert(effect_views_spec(self.effects@) + Seq::<EffectView>::empty()
                    =~= effect_views_spec(self.effects@));
            }
            let mut done: Vec<Effect> = Vec::new();
            while self.effects.len() > 0
                invariant
                    c < inputs@.len(),
                    inputs@.len() <= 2,
                    self.params == (AndrewParams { updated: false, ..p0 }),
                    self.sample_rate == old(self).sample_rate,
                    dw == self.params.dry_wet,
                    n == inputs@[c as int]@.len(),
                    n < 0x1_0000_0000,
                    x@.len() == n,
                    y@.len() == n,
                    target == run_effects_spec(vsc, c as int, inputs@[c as int]@, zeros_spec(n as int)),
                    target.0 =~= effect_views_spec(done@)
                        + run_effects_spec(effect_views_spec(self.effects@), c as int, x@, y@).0,
                    target.1 == run_effects_spec(effect_views_spec(self.effects@), c as int, x@, y@).1,
                    target.2 == run_effects_spec(effect_views_spec(self.effects@), c as int, x@, y@).2,
                decreases self.effects@.len(),
            {
                let ghost pre = self.effects@;
                let ghost done_pre = done@;
                let ghost xpre = x@;
                let ghost ypre = y@;
                let mut e = self.effects.remove(0);
                let ghost ev0 = e.view();
                proof {
                    assert(self.effects@ =~= pre.drop_first());
                    assert(effect_views_spec(self.effects@) =~= effect_views_spec(pre).drop_first());
                    assert(effect_views_spec(pre)[0] == ev0);
                }
                e.process(c, &x, &mut y);
                done.push(e);
                let tmp = x;
                x = y;
                y = tmp;
                proof {
                    assert(effect_views_spec(done@)
                        =~= effect_views_spec(done_pre).push(e.view()));
                    assert(x@ == effect_view_out(ev0, c as int, xpre, ypre));
                    assert(run_effects_spec(effect_views_spec(pre), c as int, xpre, ypre).0
                        == seq![effect_view_next(ev0, c as int, xpre, ypre)]
                            + run_effects_spec(effect_views_spec(self.effects@), c as int, x@, y@).0);
                    assert(effect_views_spec(done_pre).push(e.view())
                        + run_effects_spec(effect_views_spec(self.effects@), c as int, x@, y@).0
                        =~= effect_views_spec(done_pre)
                            + (seq![effect_view_next(ev0, c as int, xpre, ypre)]
                                + run_effects_spec(effect_views_spec(self.effects@), c as int, x@, y@).0));
                    assert(target.0 =~= effect_views_spec(done@)
                        + run_effects_spec(effect_views_spec(self.effects@), c as int, x@, y@).0);
                }
            }
            self.effects = done;
            proof {
                assert(effect_views_spec(self.effects@) + Seq::<EffectView>::empty()
                    =~= effect_views_spec(self.effects@));
                assert(target.0 =~= effect_views_spec(self.effects@));
                assert(target.1 == x@);
            }
            let mut mixed: Vec<i64> = Vec::new();
            let mut k3: usize = 0;
            while k3 < n
                invariant
                    k3 <= n,
                    n == input@.len(),
                    n == x@.len(),
                    dw == self.params.dry_wet,
                    mixed@ == mix_spec(x@, input@, dw as int).subrange(0, k3 as int),
                decreases n - k3,
            {
                mixed.push(sat_add(mul_fx(x[k3], dw), mul_fx(input[k3], sat_sub(SCALE, dw))));
                proof {
                    assert(mixed@ =~= mix_spec(x@, input@, dw as int).subrange(0, (k3 + 1) as int));
                }
                k3 = k3 + 1;
            }
            proof {
                assert(mixed@ =~= mix_spec(x@, input@, dw as int));
            }
            let ghost outs_pre = outs@;
            outs.push(mixed);
            proof {
                assert(vec_views_spec(outs@) =~= vec_views_spec(outs_pre).push(mixed@));
                assert(chain_channel_next_spec(vsc, c as int, inviews[c as int]) == target.0);
                assert(mixed@ == chain_channel_out_spec(vsc, c as int, inviews[c as int], dw as int));
                assert(run_channels_spec(vsc, inviews, c as int, dw as int).0
                    == run_channels_spec(effect_views_spec(self.effects@), inviews, c as int + 1, dw as int).0);
                assert(run_channels_spec(vsc, inviews, c as int, dw as int).1
                    =~= seq![mixed@]
                        + run_channels_spec(effect_views_spec(self.effects@), inviews, c as int + 1, dw as int).1);
                assert(vec_views_spec(outs@)
                    + run_channels_spec(effect_views_spec(self.effects@), inviews, c as int + 1, dw as int).1
                    =~= vec_views_spec(outs_pre)
                        + run_channels_spec(vsc, inviews, c as int, dw as int).1);
            }
            c = c + 1;
        }
        proof {
            assert(run_channels_spec(effect_views_spec(self.effects@), inviews, c as int, dw as int).1
                =~= Seq::<Seq<i64>>::empty());
            assert(vec_views_spec(outs@) + Seq::<Seq<i64>>::empty() =~= vec_views_spec(outs@));
            assert(run_channels_spec(vs1, inviews, 0, dw as int).1 =~= vec_views_spec(outs@));
        }
        Some(outs)
    }

    /// The contributed latency of one slot (the chain reports a slot's own
    /// constant and deliberately does not sum across slots).
    pub fn get_latency(&self, index: usize) -> (r: Option<usize>)
        ensures
            index < self.effects@.len() ==> r == Some(crate::effects::EFFECT_LATENCY),
            index >= self.effects@.len() ==> r is None,
    {
        if index < self.effects.len() {
            Some(self.effects[index].get_latency())
        } else {
            None
        }
    }
}


/// With the mix fully wet, the chain's output is identical to the last
/// stage's wet signal.
pub proof fn lemma_mix_full_wet(wet: Seq<i64>, dry: Seq<i64>)
    ensures
        mix_spec(wet, dry, SCALE as int) == wet,
{
    assert forall|i: int| 0 <= i < wet.len() implies mix_spec(wet, dry, SCALE as int)[i] == wet[i] by {
        crate::fixed::lemma_fx_mul_unit(wet[i] as int);
        crate::fixed::lemma_fx_mul_zero(dry[i] as int);
    }
    assert(mix_spec(wet, dry, SCALE as int) =~= wet);
}

/// With the mix fully dry, the chain's output is bit-for-bit the raw input.
pub proof fn lemma_mix_full_dry(wet: Seq<i64>, dry: Seq<i64>)
    requires
        wet.len() == dry.len(),
    ensures
        mix_spec(wet, dry, 0) == dry,
{
    assert forall|i: int| 0 <= i < wet.len() implies mix_spec(wet, dry, 0)[i] == dry[i] by {
        crate::fixed::lemma_fx_mul_zero(wet[i] as int);
        crate::fixed::lemma_fx_mul_unit(dry[i] as int);
    }
    assert(mix_spec(wet, dry, 0) =~= dry);
}

/// The chain law for a fully wet mix: one channel's output equals the
/// pipeline's wet signal exactly.
pub proof fn lemma_chain_full_wet(vs: Seq<EffectView>, chan: int, input: Seq<i64>)
    ensures
        chain_channel_out_spec(vs, chan, input, SCALE as int)
            == run_effects_spec(vs, chan, input, zeros_spec(input.len() as int)).1,
{
    lemma_mix_full_wet(run_effects_spec(vs, chan, input, zeros_spec(input.len() as int)).1, input);
}

/// Every stage preserves the block length, so the pipeline's wet signal is
/// as long as the input block.
pub proof fn lemma_run_effects_len(vs: Seq<EffectView>, chan: int, x: Seq<i64>, y: Seq<i64>)
    requires
        x.len() == y.len(),
    ensures
        run_effects_spec(vs, chan, x, y).1.len() == x.len(),
        run_effects_spec(vs, chan, x, y).2.len() == x.len(),
    decreases vs.len(),
{
    if vs.len() > 0 {
        lemma_run_effects_len(vs.drop_first(), chan, effect_view_out(vs[0], chan, x, y), x);
    }
}

/// The chain law for a fully dry mix: one channel's output is bit-for-bit
/// its raw input.
pub proof fn lemma_chain_full_dry(vs: Seq<EffectView>, chan: int, input: Seq<i64>)
    ensures
        chain_channel_out_spec(vs, chan, input, 0) == input,
{
    lemma_run_effects_len(vs, chan, input, zeros_spec(input.len() as int));
    lemma_mix_full_dry(run_effects_spec(vs, chan, input, zeros_spec(input.len() as int)).1, input);
}

/// A full update pass is idempotent: run twice over the same store, with no
/// intervening write, the second pass leaves every slot's cached
/// coefficients unchanged.
pub proof fn lemma_update_pass_idempotent(vs: Seq<EffectView>, p: AndrewParams)
    ensures
        update_all_spec(update_all_spec(vs, p), p) == update_all_spec(vs, p),
{
    assert forall|i: int| 0 <= i < vs.len() implies update_all_spec(update_all_spec(vs, p), p)[i]
        == update_all_spec(vs, p)[i] by {
        crate::effects::lemma_update_idempotent(vs[i], p);
    }
    assert(update_all_spec(update_all_spec(vs, p), p) =~= update_all_spec(vs, p));
}
} // verus!
