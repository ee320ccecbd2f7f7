//! Append-only growable sample store with a fractional playhead: variable
//! rate (pitch-shifted) linear-interpolated reads, periodically compacted.
//!
//! The playhead is a fixed-point position into the buffer and never goes
//! negative; a read past the available lookahead yields silence (0) rather
//! than an out-of-bounds fault.

use vstd::prelude::*;
use vstd::arithmetic::div_mod::{
    lemma_div_is_ordered, lemma_div_multiples_vanish, lemma_fundamental_div_mod,
    lemma_div_pos_is_pos,
};
use crate::fixed::{SCALE, fx_add, fx_mul, fx_max, sat_add, mul_fx, max_fx};

verus! {

/// A growable sample buffer with a fractional read position.
pub struct AudioClip {
    pub buf: Vec<i64>,
    /// Playback-rate scale factor: the playhead advances by this much per read.
    pub scale: i64,
    /// Fixed-point read position, kept at or above zero.
    pub playhead: i64,
    pub base_sample_rate: i64,
    pub looping: bool,
}

/// Linear interpolation at fixed-point position `i`: silence when fewer than
/// two samples of lookahead remain (or the position is negative), otherwise
/// the exact blend of the two bounding samples.
pub open spec fn interp_spec(buf: Seq<i64>, i: int) -> int {
    if i < 0 || i + 2 * (SCALE as int) > buf.len() * (SCALE as int) {
        0
    } else {
        let i0 = i / (SCALE as int);
        let frac = i % (SCALE as int);
        fx_add(fx_mul(buf[i0] as int, SCALE as int - frac), fx_mul(buf[i0 + 1] as int, frac))
    }
}

/// How many leading samples a compaction at playhead `ph` asks to discard.
pub open spec fn drop_count(ph: int) -> int {
    if ph > SCALE as int {
        ph / (SCALE as int) - 1
    } else {
        0
    }
}

/// How many samples a compaction actually removes: the drop count, capped
/// at the buffer length (the cap only matters in states the data model's
/// own lookahead invariant excludes).
pub open spec fn drop_taken(ph: int, len: int) -> int {
    if drop_count(ph) <= len {
        drop_count(ph)
    } else {
        len
    }
}

impl AudioClip {
    /// A clip of `base_size` silent samples. (The stored loop flag starts
    /// cleared regardless of the argument; only `grain` clips loop.)
    pub fn new(base_size: usize, scale: i64, base_sample_rate: i64, looping: bool) -> (r: Self)
        ensures
            r.buf@ == Seq::<i64>::new(base_size as nat, |k: int| 0i64),
            r.scale == scale,
            r.playhead == 0,
            r.base_sample_rate == base_sample_rate,
            r.looping == false,
    {
        let mut buf: Vec<i64> = Vec::new();
        let mut k: usize = 0;
        while k < base_size
            invariant
                k <= base_size,
                buf@ == Seq::<i64>::new(k as nat, |j: int| 0i64),
            decreases base_size - k,
        {
            buf.push(0);
            proof {
                assert(buf@ =~= Seq::<i64>::new((k + 1) as nat, |j: int| 0i64));
            }
            k = k + 1;
        }
        AudioClip { buf, scale, playhead: 0, base_sample_rate, looping: false }
    }

    /// A looping clip over a copy of the given samples.
    pub fn grain(buf: &Vec<i64>, scale: i64, base_sample_rate: i64) -> (r: Self)
        ensures
            r.buf@ == buf@,
            r.scale == scale,
            r.playhead == 0,
            r.base_sample_rate == base_sample_rate,
            r.looping == true,
    {
        let mut copy: Vec<i64> = Vec::new();
        let mut k: usize = 0;
        while k < buf.len()
            invariant
                k <= buf.len(),
                copy@ == buf@.subrange(0, k as int),
            decreases buf.len() - k,
        {
            copy.push(buf[k]);
            proof {
                assert(copy@ =~= buf@.subrange(0, (k + 1) as int));
            }
            k = k + 1;
        }
        proof {
            assert(copy@ =~= buf@);
        }
        AudioClip { buf: copy, scale, playhead: 0, base_sample_rate, looping: true }
    }

    /// Append a block of samples to the backing store.
    pub fn extend(&mut self, val: &Vec<i64>)
        ensures
            final(self).buf@ == old(self).buf@ + val@,
            final(self).scale == old(self).scale,
            final(self).playhead == old(self).playhead,
            final(self).base_sample_rate == old(self).base_sample_rate,
            final(self).looping == old(self).looping,
    {
        let mut k: usize = 0;
        while k < val.len()
            invariant
                k <= val.len(),
                self.buf@ == old(self).buf@ + val@.subrange(0, k as int),
                self.scale == old(self).scale,
                self.playhead == old(self).playhead,
                self.base_sample_rate == old(self).base_sample_rate,
                self.looping == old(self).looping,
            decreases val.len() - k,
        {
            self.buf.push(val[k]);
            proof {
                assert(self.buf@ =~= old(self).buf@ + val@.subrange(0, (k + 1) as int));
            }
            k = k + 1;
        }
        proof {
            assert(old(self).buf@ + val@.subrange(0, val@.len() as int) =~= old(self).buf@ + val@);
        }
    }

    /// Read one interpolated sample at the playhead, then advance the
    /// playhead by the scale factor (never below zero).
    pub fn read_playhead(&mut self) -> (r: i64)
        ensures
            r as int == interp_spec(old(self).buf@, old(self).playhead as int),
            final(self).playhead as int == fx_max(fx_add(old(self).playhead as int, old(self).scale as int), 0),
            final(self).buf@ == old(self).buf@,
            final(self).scale == old(self).scale,
            final(self).base_sample_rate == old(self).base_sample_rate,
            final(self).looping == old(self).looping,
    {
        let val = self.interp(self.playhead);
        self.playhead = max_fx(sat_add(self.playhead, self.scale), 0);
        val
    }

    /// Compact: drop the leading samples the playhead has fully passed,
    /// keeping the one extra lookahead sample interpolation needs, and move
    /// the playhead back by exactly the number of samples dropped.
    pub fn shrink(&mut self)
        ensures
            final(self).buf@ == old(self).buf@.skip(
                drop_taken(old(self).playhead as int, old(self).buf@.len() as int),
            ),
            final(self).playhead as int == old(self).playhead as int
                - drop_taken(old(self).playhead as int, old(self).buf@.len() as int) * (SCALE as int),
            final(self).scale == old(self).scale,
            final(self).base_sample_rate == old(self).base_sample_rate,
            final(self).looping == old(self).looping,
    {
        if self.playhead > SCALE {
            proof {
                lemma_div_pos_is_pos(self.playhead as int, SCALE as int);
                lemma_div_is_ordered(SCALE as int, self.playhead as int, SCALE as int);
                vstd::arithmetic::div_mod::lemma_div_by_self(SCALE as int);
                lemma_fundamental_div_mod(self.playhead as int, SCALE as int);
            }
            let fdiv = match self.playhead.checked_div(SCALE) {
                Some(d) => d,
                None => 0,
            };
            let max_drop = fdiv - 1;
            let ghost d = drop_count(old(self).playhead as int);
            proof {
                assert(max_drop as int == d);
                assert(max_drop >= 0);
                let ph = old(self).playhead as int;
                let s = SCALE as int;
                lemma_fundamental_div_mod(ph, s);
                assert((ph / s) * s <= ph) by (nonlinear_arith)
                    requires
                        ph == s * (ph / s) + ph % s,
                        ph % s >= 0,
                ;
                assert(d * s <= ph);
            }
            let start: usize = if (max_drop as u64) <= (self.buf.len() as u64) {
                max_drop as usize
            } else {
                self.buf.len()
            };
            let mut nb: Vec<i64> = Vec::new();
            let mut k: usize = start;
            while k < self.buf.len()
                invariant
                    start <= k <= self.buf.len(),
                    nb@ == self.buf@.subrange(start as int, k as int),
                decreases self.buf.len() - k,
            {
                nb.push(self.buf[k]);
                proof {
                    assert(nb@ =~= self.buf@.subrange(start as int, (k + 1) as int));
                }
                k = k + 1;
            }
            self.buf = nb;
            proof {
                let s = SCALE as int;
                assert((start as int) * s <= d * s) by (nonlinear_arith)
                    requires
                        0 <= (start as int) <= d,
                        s >= 0,
                ;
                assert((start as int) * s >= 0) by (nonlinear_arith)
                    requires
                        0 <= (start as int),
                        s >= 0,
                ;
            }
            self.playhead = self.playhead - (start as i64) * SCALE;
            proof {
                assert(self.buf@ =~= old(self).buf@.skip(start as int));
            }
        } else {
            proof {
                assert(self.buf@ =~= old(self).buf@.skip(0));
            }
        }
    }

    /// Linearly interpolate the buffer at fixed-point position `i`.
    pub fn interp(&self, i: i64) -> (r: i64)
        ensures
            r as int == interp_spec(self.buf@, i as int),
    {
        if i < 0 {
            return 0;
        }
        let n = self.buf.len();
        proof {
            assert((n as int) * (SCALE as int) < 0x8000_0000_0000_0000_0000_0000)
                by (nonlinear_arith)
                requires
                    0 <= (n as int) < 0x1_0000_0000_0000_0000,
                    (SCALE as int) == 1_000_000_000,
            ;
        }
        let len128: i128 = (n as i128) * (SCALE as i128);
        if (i as i128) + 2 * (SCALE as i128) > len128 {
            return 0;
        }
        proof {
            let ii = i as int;
            let s = SCALE as int;
            let n = self.buf@.len() as int;
            lemma_div_pos_is_pos(ii, s);
            lemma_div_is_ordered(ii, (n - 2) * s, s);
            lemma_div_multiples_vanish(n - 2, s);
            assert((n - 2) * s == s * (n - 2)) by (nonlinear_arith);
            assert(ii / s <= n - 2);
        }
        let i0 = match i.checked_div(SCALE) {
            Some(d) => d,
            None => 0,
        };
        let frac = match i.checked_rem_euclid(SCALE) {
            Some(f) => f,
            None => 0,
        };
        let a = mul_fx(self.buf[i0 as usize], SCALE - frac);
        let b = mul_fx(self.buf[i0 as usize + 1], frac);
        sat_add(a, b)
    }
}

/// Compaction never discards a sample at or after index
/// `floor(playhead) - 1`: any such index is at or past the drop count, so
/// the sample survives (at its old index minus the drop count).
pub proof fn lemma_compaction_retains_lookahead(ph: int, j: int)
    requires
        ph >= 0,
        j >= 0,
        j >= ph / (SCALE as int) - 1,
    ensures
        j >= drop_count(ph),
{
}

} // verus!
