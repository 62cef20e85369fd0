//! Per-band intensity memory: instant rise to a louder reading, linear decay otherwise.
use vstd::prelude::*;

use crate::MIN_DB;

verus! {

/// Fall-off speed of a band, in hundredths of a decibel per second.
pub const DECAY_PER_SECOND: i32 = 3000;

/// A level after one tick of decay: `decay` lower, but never below `MIN_DB`.
pub open spec fn decayed(level: i32, decay: i32) -> int {
    if level - decay < MIN_DB {
        MIN_DB as int
    } else {
        level - decay
    }
}

/// A level after a new reading: the louder of the two.
pub open spec fn raised(level: i32, reading: i32) -> int {
    if reading > level {
        reading as int
    } else {
        level as int
    }
}

/// A level after `n` ticks of decay with no reading in between.
pub open spec fn decayed_n(level: int, decay: int, n: nat) -> int
    decreases n,
{
    if n == 0 {
        level
    } else {
        let prev = decayed_n(level, decay, (n - 1) as nat);
        if prev - decay < MIN_DB {
            MIN_DB as int
        } else {
            prev - decay
        }
    }
}

/// The per-tick decay that keeps the fall-off at `DECAY_PER_SECOND` at `fps` frames per second.
pub fn decay_for_fps(fps: u32) -> (r: i32)
    requires
        fps > 0,
    ensures
        r == (DECAY_PER_SECOND as int) / (fps as int),
        r >= 0,
{
    (DECAY_PER_SECOND as u32 / fps) as i32
}

/// One (frequency, intensity) pair per band; the frequencies are fixed at
/// construction, the intensities decay on `tick` and rise on `push`.
pub struct SpectrumMemory {
    pub weights: Vec<(i32, i32)>,
    pub decay: i32,
}

impl SpectrumMemory {
    /// A memory with one band at each of `freqs`, every intensity at `MIN_DB`,
    /// falling by `decay` each tick.
    pub fn new(freqs: Vec<i32>, decay: i32) -> (r: Self)
        requires
            decay >= 0,
        ensures
            r.decay == decay,
            r.weights@.len() == freqs@.len(),
            forall|i: int| 0 <= i < freqs@.len() ==> #[trigger] r.weights@[i] == (freqs@[i], MIN_DB),
    {
        let mut weights: Vec<(i32, i32)> = Vec::new();
        let mut i: usize = 0;
        while i < freqs.len()
            invariant
                i <= freqs@.len(),
                weights@.len() == i,
                forall|t: int| 0 <= t < i ==> #[trigger] weights@[t] == (freqs@[t], MIN_DB),
            decreases freqs@.len() - i,
        {
            weights.push((freqs[i], MIN_DB));
            i = i + 1;
        }
        SpectrumMemory { weights, decay }
    }

    /// Decays every band by `decay`, stopping at `MIN_DB`; frequencies are unchanged.
    pub fn tick(&mut self)
        requires
            old(self).decay >= 0,
        ensures
            final(self).decay == old(self).decay,
            final(self).weights@.len() == old(self).weights@.len(),
            forall|i: int|
                0 <= i < old(self).weights@.len() ==> (#[trigger] final(self).weights@[i]).0 == old(
                    self,
                ).weights@[i].0 && final(self).weights@[i].1 == decayed(
                    old(self).weights@[i].1,
                    old(self).decay,
                ),
    {
        let n = self.weights.len();
        let mut i: usize = 0;
        while i < n
            invariant
                n == self.weights@.len(),
                n == old(self).weights@.len(),
                self.decay == old(self).decay,
                self.decay >= 0,
                i <= n,
                forall|t: int|
                    0 <= t < i ==> (#[trigger] self.weights@[t]).0 == old(self).weights@[t].0
                        && self.weights@[t].1 == decayed(old(self).weights@[t].1, old(self).decay),
                forall|t: int| i <= t < n ==> #[trigger] self.weights@[t] == old(self).weights@[t],
            decreases n - i,
        {
            let (f, w) = self.weights[i];
            let lowered: i64 = w as i64 - self.decay as i64;
            let next: i32 = if lowered < MIN_DB as i64 {
                MIN_DB
            } else {
                lowered as i32
            };
            self.weights.set(i, (f, next));
            i = i + 1;
        }
    }

    /// Raises every band to the matching reading of `values` where that is louder;
    /// never lowers a band. `values` holds one entry per band.
    pub fn push(&mut self, values: Vec<(i32, i32)>)
        requires
            values@.len() == old(self).weights@.len(),
        ensures
            final(self).decay == old(self).decay,
            final(self).weights@.len() == old(self).weights@.len(),
            forall|i: int|
                0 <= i < old(self).weights@.len() ==> (#[trigger] final(self).weights@[i]).0 == old(
                    self,
                ).weights@[i].0 && final(self).weights@[i].1 == raised(
                    old(self).weights@[i].1,
                    values@[i].1,
                ),
    {
        let n = self.weights.len();
        let mut i: usize = 0;
        while i < n
            invariant
                n == self.weights@.len(),
                n == old(self).weights@.len(),
                n == values@.len(),
                self.decay == old(self).decay,
                i <= n,
                forall|t: int|
                    0 <= t < i ==> (#[trigger] self.weights@[t]).0 == old(self).weights@[t].0
                        && self.weights@[t].1 == raised(old(self).weights@[t].1, values@[t].1),
                forall|t: int| i <= t < n ==> #[trigger] self.weights@[t] == old(self).weights@[t],
            decreases n - i,
        {
            let (f, w) = self.weights[i];
            let v = values[i].1;
            let next: i32 = if v > w {
                v
            } else {
                w
            };
            self.weights.set(i, (f, next));
            i = i + 1;
        }
    }
}

} // verus!
