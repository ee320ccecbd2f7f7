//! Low-frequency oscillator: a sine with a one-second period at the nominal
//! 44.1 kHz rate, advanced in whole samples, its phase wrapping modulo the
//! sample count.

use vstd::prelude::*;
use crate::fixed::{sat, div_trunc, clamp64};
use crate::trig::{TAU_FX, sin_fx_spec, sin_fx};

verus! {

/// Number of samples in one oscillator period.
pub const LFO_PERIOD: u32 = 44_100;

/// The oscillator: only its sample counter, always below the period.
pub struct Lfo {
    pub time: u32,
}

/// The fixed-point phase `time / period * 2 pi` of a sample counter.
pub open spec fn lfo_phase_spec(time: int) -> int {
    sat(div_trunc(time * (TAU_FX as int), LFO_PERIOD as int))
}

impl Lfo {
    /// The oscillator's current value: the sine of its phase.
    pub fn get(&self) -> (r: i64)
        ensures
            r as int == sin_fx_spec(lfo_phase_spec(self.time as int)),
    {
        let p: i128 = (self.time as i128) * (TAU_FX as i128);
        let q: i128 = match p.checked_div(LFO_PERIOD as i128) {
            Some(q) => q,
            None => 0,
        };
        let phase = clamp64(q);
        proof {
            crate::fixed::lemma_div_trunc_bounds(p as int, LFO_PERIOD as int);
        }
        sin_fx(phase)
    }

    /// Advance the counter by a block length, wrapping at the period.
    pub fn forward(&mut self, time: u32)
        ensures
            final(self).time as int == (old(self).time as int + time as int) % (LFO_PERIOD as int),
            final(self).time < LFO_PERIOD,
    {
        let t: u64 = (self.time as u64 + time as u64) % (LFO_PERIOD as u64);
        self.time = t as u32;
    }
}

impl Default for Lfo {
    /// An oscillator at phase zero.
    fn default() -> (r: Self)
        ensures
            r.time == 0,
    {
        Lfo { time: 0 }
    }
}

} // verus!
