//! Frame spectra as (log-frequency, intensity) pairs, and their reduction to
//! logarithmically spaced bands.
use vstd::prelude::*;

use crate::numeric::{abs_int, floor_sqrt, neg_geo_mean};
use crate::MIN_DB;

verus! {

/// The (log-frequency, intensity) pairs of one analysed frame of audio,
/// frequencies ascending.
pub struct FreqIntensity(pub Vec<(i32, i32)>);

/// Distance between a log-frequency and a target, which is the ratio of the two
/// frequencies on a logarithmic scale.
pub open spec fn log_distance(f: i32, target: int) -> nat {
    abs_int(f - target)
}

/// Entry `k` is the first of `s` among those nearest to `target` in log-frequency.
pub open spec fn is_first_nearest(s: Seq<(i32, i32)>, target: int, k: int) -> bool {
    &&& 0 <= k < s.len()
    &&& forall|j: int|
        0 <= j < s.len() ==> log_distance(s[k].0, target) <= log_distance(#[trigger] s[j].0, target)
    &&& forall|j: int|
        0 <= j < k ==> log_distance(s[k].0, target) < log_distance(#[trigger] s[j].0, target)
}

/// `v` is the entry of `s` nearest to `target` in log-frequency (the first one on a
/// tie), or `(MIN_DB, MIN_DB)` when `s` is empty.
pub open spec fn is_nearest_value(s: Seq<(i32, i32)>, target: int, v: (i32, i32)) -> bool {
    if s.len() == 0 {
        v == (MIN_DB, MIN_DB)
    } else {
        exists|k: int| is_first_nearest(s, target, k) && v == s[k]
    }
}

/// Entry `k` is the last of `s` among those with the highest intensity.
pub open spec fn is_last_loudest(s: Seq<(i32, i32)>, k: int) -> bool {
    &&& 0 <= k < s.len()
    &&& forall|j: int| 0 <= j < s.len() ==> (#[trigger] s[j]).1 <= s[k].1
    &&& forall|j: int| k < j < s.len() ==> (#[trigger] s[j]).1 < s[k].1
}

/// The blend of two channel levels: each floored at `MIN_DB`, then the negated
/// geometric mean of their magnitudes.
pub open spec fn blend(a: i32, b: i32) -> int {
    let fa = if a < MIN_DB { MIN_DB } else { a };
    let fb = if b < MIN_DB { MIN_DB } else { b };
    -floor_sqrt(abs_int(fa as int) * abs_int(fb as int))
}

/// Pairwise blend of two spectra: the frequencies of `a`, the blended levels of both.
pub open spec fn blend_spectra(a: Seq<(i32, i32)>, b: Seq<(i32, i32)>) -> Seq<(i32, i32)> {
    Seq::new(a.len(), |i: int| (a[i].0, blend(a[i].1, b[i].1) as i32))
}


/// Fencepost `i` of `k` bands that split `[lo, hi]` evenly on a logarithmic
/// scale; log-frequencies make this an even split of the numbers, rounded down.
pub open spec fn fencepost(lo: int, hi: int, k: nat, i: nat) -> int {
    if k == 0 {
        lo
    } else {
        lo + (i * (hi - lo)) / (k as int)
    }
}

/// The representative frequency of the band `[lo, hi)`: the midpoint of the
/// log-frequencies, which is the geometric mean of the frequencies, rounded down.
pub open spec fn band_center(lo: int, hi: int) -> int {
    lo + (hi - lo) / 2
}

/// Entry `k` of `s` lies in the band `[lo, hi)`.
pub open spec fn in_band(s: Seq<(i32, i32)>, lo: int, hi: int, k: int) -> bool {
    0 <= k < s.len() && lo <= s[k].0 < hi
}

/// `m` is the highest intensity of the entries of `s` in the band `[lo, hi)`.
pub open spec fn is_band_max(s: Seq<(i32, i32)>, lo: int, hi: int, m: i32) -> bool {
    &&& exists|k: int| #[trigger] in_band(s, lo, hi, k) && s[k].1 == m
    &&& forall|k: int| #[trigger] in_band(s, lo, hi, k) ==> s[k].1 <= m
}

/// `v` represents the band `[lo, hi)` of `s`: the band's center with the highest
/// intensity in it, or, when no entry lies in it, the entry nearest to the center.
pub open spec fn is_band_value(s: Seq<(i32, i32)>, lo: int, hi: int, v: (i32, i32)) -> bool {
    if exists|k: int| #[trigger] in_band(s, lo, hi, k) {
        v.0 == band_center(lo, hi) && is_band_max(s, lo, hi, v.1)
    } else {
        is_nearest_value(s, band_center(lo, hi), v)
    }
}

/// Fenceposts never decrease, start at `lo` and end at `hi`.
pub proof fn lemma_fencepost_bounds(lo: int, hi: int, k: nat, i: nat, j: nat)
    requires
        lo <= hi,
        k > 0,
        i <= j <= k,
    ensures
        lo <= fencepost(lo, hi, k, i) <= fencepost(lo, hi, k, j) <= hi,
        fencepost(lo, hi, k, 0) == lo,
        fencepost(lo, hi, k, k) == hi,
{
    let d = hi - lo;
    assert(0 <= i * d <= j * d <= k * d) by (nonlinear_arith)
        requires 0 <= i <= j <= k, d >= 0;
    vstd::arithmetic::div_mod::lemma_div_is_ordered(i * d, j * d, k as int);
    vstd::arithmetic::div_mod::lemma_div_is_ordered(j * d, k * d, k as int);
    vstd::arithmetic::div_mod::lemma_div_is_ordered(0, i * d, k as int);
    vstd::arithmetic::div_mod::lemma_div_by_multiple(d, k as int);
    assert(k * d == d * k) by (nonlinear_arith);
    assert(0 * d == 0);
}

impl FreqIntensity {
    /// The entry whose frequency is nearest to `freq` on a logarithmic scale
    /// (the first such on a tie); `(MIN_DB, MIN_DB)` when there is none.
    pub fn get_nearest_freq_log(&self, freq: i32) -> (r: (i32, i32))
        ensures
            is_nearest_value(self.0@, freq as int, r),
    {
        let s = &self.0;
        if s.len() == 0 {
            return (MIN_DB, MIN_DB);
        }
        let mut best: usize = 0;
        let mut best_dist: i64 = distance(s[0].0, freq);
        let mut j: usize = 1;
        while j < s.len()
            invariant
                1 <= j <= s@.len(),
                best < j,
                best_dist == log_distance(s@[best as int].0, freq as int),
                forall|t: int|
                    0 <= t < j ==> log_distance(s@[best as int].0, freq as int) <= log_distance(
                        #[trigger] s@[t].0,
                        freq as int,
                    ),
                forall|t: int|
                    0 <= t < best ==> log_distance(s@[best as int].0, freq as int) < log_distance(
                        #[trigger] s@[t].0,
                        freq as int,
                    ),
            decreases s@.len() - j,
        {
            let d = distance(s[j].0, freq);
            if d < best_dist {
                best = j;
                best_dist = d;
            }
            j = j + 1;
        }
        assert(is_first_nearest(s@, freq as int, best as int));
        s[best]
    }

    /// The entry with the highest intensity (the last such on a tie);
    /// `(MIN_DB, MIN_DB)` when there is none.
    pub fn max(&self) -> (r: (i32, i32))
        ensures
            self.0@.len() == 0 ==> r == (MIN_DB, MIN_DB),
            self.0@.len() > 0 ==> exists|k: int| is_last_loudest(self.0@, k) && r == self.0@[k],
    {
        let s = &self.0;
        if s.len() == 0 {
            return (MIN_DB, MIN_DB);
        }
        let mut best: usize = 0;
        let mut j: usize = 1;
        while j < s.len()
            invariant
                1 <= j <= s@.len(),
                best < j,
                forall|t: int| 0 <= t < j ==> (#[trigger] s@[t]).1 <= s@[best as int].1,
                forall|t: int| best < t < j ==> (#[trigger] s@[t]).1 < s@[best as int].1,
            decreases s@.len() - j,
        {
            if s[j].1 >= s[best].1 {
                best = j;
            }
            j = j + 1;
        }
        assert(is_last_loudest(s@, best as int));
        s[best]
    }

    /// The number of entries.
    pub fn len(&self) -> (r: usize)
        ensures
            r == self.0@.len(),
    {
        self.0.len()
    }

    /// Whether there are no entries.
    pub fn is_empty(&self) -> (r: bool)
        ensures
            r == (self.0@.len() == 0),
    {
        self.len() == 0
    }

    /// Blends two spectra of the same bins, entry by entry: each level floored at
    /// `MIN_DB`, then combined by their negated geometric mean.
    pub fn combine_mean(&self, other: Self) -> (r: Self)
        requires
            self.0@.len() == other.0@.len(),
        ensures
            r.0@ == blend_spectra(self.0@, other.0@),
    {
        let mut out: Vec<(i32, i32)> = Vec::new();
        let mut i: usize = 0;
        while i < self.0.len()
            invariant
                i <= self.0@.len(),
                self.0@.len() == other.0@.len(),
                out@ =~= blend_spectra(self.0@, other.0@).subrange(0, i as int),
            decreases self.0@.len() - i,
        {
            let (f, a) = self.0[i];
            let b = other.0[i].1;
            let fa = if a < MIN_DB { MIN_DB } else { a };
            let fb = if b < MIN_DB { MIN_DB } else { b };
            out.push((f, neg_geo_mean(fa, fb)));
            i = i + 1;
        }
        FreqIntensity(out)
    }

    /// The representative (frequency, intensity) of the band `[lo, hi)`: its center
    /// and the highest intensity within it, or the entry nearest to the center on
    /// a logarithmic scale when the band holds none.
    pub fn range_mean_weight(&self, lo: i32, hi: i32) -> (r: (i32, i32))
        requires
            lo <= hi,
        ensures
            is_band_value(self.0@, lo as int, hi as int, r),
    {
        let center: i32 = (lo as i64 + (hi as i64 - lo as i64) / 2) as i32;
        let s = &self.0;
        let mut found: bool = false;
        let mut best: i32 = MIN_DB;
        let mut j: usize = 0;
        while j < s.len()
            invariant
                j <= s@.len(),
                found <==> exists|k: int| 0 <= k < j && #[trigger] in_band(s@, lo as int, hi as int, k),
                found ==> exists|k: int|
                    0 <= k < j && #[trigger] in_band(s@, lo as int, hi as int, k) && s@[k].1 == best,
                found ==> forall|k: int|
                    0 <= k < j && #[trigger] in_band(s@, lo as int, hi as int, k) ==> s@[k].1 <= best,
            decreases s@.len() - j,
        {
            let (f, v) = s[j];
            if lo <= f && f < hi {
                assert(in_band(s@, lo as int, hi as int, j as int));
                if !found || v >= best {
                    best = v;
                }
                found = true;
            }
            j = j + 1;
        }
        if found {
            (center, best)
        } else {
            self.get_nearest_freq_log(center)
        }
    }

    /// The `sections + 1` fenceposts that split `[lo, hi]` into `sections` bands of
    /// equal width on a logarithmic scale.
    fn get_fenceposts(sections: u32, lo: i32, hi: i32) -> (r: Vec<i32>)
        requires
            lo <= hi,
        ensures
            r@.len() == sections + 1,
            forall|i: int|
                0 <= i <= sections ==> #[trigger] r@[i] == fencepost(
                    lo as int,
                    hi as int,
                    sections as nat,
                    i as nat,
                ),
    {
        let mut out: Vec<i32> = Vec::new();
        if sections == 0 {
            out.push(lo);
            return out;
        }
        let width: u64 = (hi as i64 - lo as i64) as u64;
        let mut i: u64 = 0;
        while i <= sections as u64
            invariant
                i <= sections + 1,
                sections > 0,
                lo <= hi,
                width == hi - lo,
                out@.len() == i,
                forall|t: int|
                    0 <= t < i ==> #[trigger] out@[t] == fencepost(
                        lo as int,
                        hi as int,
                        sections as nat,
                        t as nat,
                    ),
            decreases sections + 1 - i,
        {
            proof {
                lemma_fencepost_bounds(lo as int, hi as int, sections as nat, i as nat, sections as nat);
            }
            assert((i as u128) * (width as u128) <= 0xffff_ffffu128 * 0xffff_ffffu128) by (nonlinear_arith)
                requires i <= 0xffff_ffffu64, width <= 0xffff_ffffu64;
            let step: u128 = ((i as u128) * (width as u128)) / (sections as u128);
            let post: i32 = (lo as i128 + step as i128) as i32;
            out.push(post);
            i = i + 1;
        }
        out
    }

    /// The representative (frequency, intensity) of each of `sections` bands that
    /// split `[lo, hi]` evenly on a logarithmic scale, in ascending order.
    pub fn log_sections(&self, sections: u32, lo: i32, hi: i32) -> (r: Vec<(i32, i32)>)
        requires
            lo <= hi,
        ensures
            r@.len() == sections,
            forall|i: int|
                0 <= i < sections ==> is_band_value(
                    self.0@,
                    fencepost(lo as int, hi as int, sections as nat, i as nat),
                    fencepost(lo as int, hi as int, sections as nat, (i + 1) as nat),
                    #[trigger] r@[i],
                ),
    {
        let posts = Self::get_fenceposts(sections, lo, hi);
        let mut out: Vec<(i32, i32)> = Vec::new();
        let mut i: usize = 0;
        while i < sections as usize
            invariant
                i <= sections,
                lo <= hi,
                posts@.len() == sections + 1,
                forall|t: int|
                    0 <= t <= sections ==> #[trigger] posts@[t] == fencepost(
                        lo as int,
                        hi as int,
                        sections as nat,
                        t as nat,
                    ),
                out@.len() == i,
                forall|t: int|
                    0 <= t < i ==> is_band_value(
                        self.0@,
                        fencepost(lo as int, hi as int, sections as nat, t as nat),
                        fencepost(lo as int, hi as int, sections as nat, (t + 1) as nat),
                        #[trigger] out@[t],
                    ),
            decreases sections - i,
        {
            proof {
                lemma_fencepost_bounds(lo as int, hi as int, sections as nat, i as nat, (i + 1) as nat);
            }
            let v = self.range_mean_weight(posts[i], posts[i + 1]);
            out.push(v);
            i = i + 1;
        }
        out
    }

    /// The representative frequency of each of `sections` bands that split
    /// `[lo, hi]` evenly on a logarithmic scale, in ascending order.
    pub fn stateless_log_sections(sections: u32, lo: i32, hi: i32) -> (r: Vec<i32>)
        requires
            lo <= hi,
        ensures
            r@.len() == sections,
            forall|i: int|
                0 <= i < sections ==> #[trigger] r@[i] == band_center(
                    fencepost(lo as int, hi as int, sections as nat, i as nat),
                    fencepost(lo as int, hi as int, sections as nat, (i + 1) as nat),
                ),
    {
        let posts = Self::get_fenceposts(sections, lo, hi);
        let mut out: Vec<i32> = Vec::new();
        let mut i: usize = 0;
        while i < sections as usize
            invariant
                i <= sections,
                lo <= hi,
                posts@.len() == sections + 1,
                forall|t: int|
                    0 <= t <= sections ==> #[trigger] posts@[t] == fencepost(
                        lo as int,
                        hi as int,
                        sections as nat,
                        t as nat,
                    ),
                out@.len() == i,
                forall|t: int|
                    0 <= t < i ==> #[trigger] out@[t] == band_center(
                        fencepost(lo as int, hi as int, sections as nat, t as nat),
                        fencepost(lo as int, hi as int, sections as nat, (t + 1) as nat),
                    ),
            decreases sections - i,
        {
            proof {
                lemma_fencepost_bounds(lo as int, hi as int, sections as nat, i as nat, (i + 1) as nat);
            }
            let a = posts[i];
            let b = posts[i + 1];
            out.push((a as i64 + (b as i64 - a as i64) / 2) as i32);
            i = i + 1;
        }
        out
    }
}

/// The log-frequency distance between `f` and `target`.
fn distance(f: i32, target: i32) -> (r: i64)
    ensures
        r == log_distance(f, target as int),
{
    let d: i64 = f as i64 - target as i64;
    if d < 0 {
        -d
    } else {
        d
    }
}

} // verus!
