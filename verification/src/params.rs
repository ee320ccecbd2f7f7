//! The parameter store: the fixed control surface (dry/wet mix, slew rate,
//! delay time, delay feedback, filter cutoff) plus the sample rate and one
//! dirty flag.
//!
//! Every indexed write marks the store dirty; the chain clears the flag
//! exactly once per block that observes it, after a full update pass.
//! Indexed writes map the host's unit-range knob value onto each control's
//! own range, as the control surface defines it.

use vstd::prelude::*;
use crate::fixed::{SCALE, fx_add, fx_sub, fx_mul, sat_add, sat_sub, mul_fx};
use crate::trig::{pow1000_spec, pow1000};

verus! {

/// 0.99 in fixed point.
pub const FX_099: i64 = 990_000_000;

/// 0.01 in fixed point.
pub const FX_001: i64 = 10_000_000;

/// 20 in fixed point.
pub const FX_20: i64 = 20_000_000_000;

/// 44100 in fixed point.
pub const FX_44100: i64 = 44_100_000_000_000;

/// The control values every effect reads, plus the dirty flag.
#[derive(Clone, Copy, PartialEq, Eq, Structural, Debug)]
pub struct AndrewParams {
    /// Dirty flag: set on every indexed write, cleared by the chain after a
    /// full update pass.
    pub updated: bool,
    pub sample_rate: i64,
    pub dry_wet: i64,
    pub slew: i64,
    pub delay_time: i64,
    pub delay_feedback: i64,
    pub cutoff: i64,
}

/// The slew control's range mapping: `20 * 1000 ^ knob` (20 Hz to 20 kHz).
pub open spec fn slew_of_knob_spec(val: int) -> int {
    fx_mul(FX_20 as int, pow1000_spec(val))
}

/// An indexed write: map the knob value onto the control's range, store it,
/// and mark the store dirty. An unknown index only marks the store dirty.
pub open spec fn set_parameter_spec(s: AndrewParams, i: int, val: int) -> AndrewParams {
    if i == 0 {
        AndrewParams { dry_wet: val as i64, updated: true, ..s }
    } else if i == 1 {
        AndrewParams { slew: slew_of_knob_spec(val) as i64, updated: true, ..s }
    } else if i == 2 {
        AndrewParams { delay_time: fx_sub(SCALE as int, fx_mul(val, FX_099 as int)) as i64, updated: true, ..s }
    } else if i == 3 {
        AndrewParams { delay_feedback: val as i64, updated: true, ..s }
    } else if i == 4 {
        AndrewParams { cutoff: fx_add(fx_mul(val, FX_099 as int), FX_001 as int) as i64, updated: true, ..s }
    } else {
        AndrewParams { updated: true, ..s }
    }
}

/// An indexed read; zero for an unknown index.
pub open spec fn get_parameter_spec(s: AndrewParams, i: int) -> int {
    if i == 0 {
        s.dry_wet as int
    } else if i == 1 {
        s.slew as int
    } else if i == 2 {
        s.delay_time as int
    } else if i == 3 {
        s.delay_feedback as int
    } else if i == 4 {
        s.cutoff as int
    } else {
        0
    }
}

impl AndrewParams {
    /// Read one control by index.
    pub fn get_parameter(&self, i: i32) -> (r: i64)
        ensures
            r as int == get_parameter_spec(*self, i as int),
    {
        match i {
            0 => self.dry_wet,
            1 => self.slew,
            2 => self.delay_time,
            3 => self.delay_feedback,
            4 => self.cutoff,
            _ => 0,
        }
    }

    /// Write one control by index from a unit-range knob value, marking the
    /// store dirty.
    pub fn set_parameter(&mut self, i: i32, val: i64)
        ensures
            *final(self) == set_parameter_spec(*old(self), i as int, val as int),
    {
        match i {
            0 => {
                self.dry_wet = val;
            },
            1 => {
                self.slew = mul_fx(FX_20, pow1000(val));
            },
            2 => {
                self.delay_time = sat_sub(SCALE, mul_fx(val, FX_099));
            },
            3 => {
                self.delay_feedback = val;
            },
            4 => {
                self.cutoff = sat_add(mul_fx(val, FX_099), FX_001);
            },
            _ => {},
        }
        self.updated = true;
    }
}

impl Default for AndrewParams {
    /// The initial surface: fully wet, slew knob fully up, minimal delay
    /// time, full feedback, cutoff fully open — and dirty, so the first
    /// block performs an update pass.
    fn default() -> (r: Self)
        ensures
            r.updated == true,
            r.sample_rate == FX_44100,
            r.dry_wet == SCALE,
            r.slew as int == slew_of_knob_spec(SCALE as int),
            r.delay_time == FX_001,
            r.delay_feedback == SCALE,
            r.cutoff == SCALE,
    {
        AndrewParams {
            updated: true,
            sample_rate: FX_44100,
            dry_wet: SCALE,
            slew: mul_fx(FX_20, pow1000(SCALE)),
            delay_time: FX_001,
            delay_feedback: SCALE,
            cutoff: SCALE,
        }
    }
}

} // verus!
