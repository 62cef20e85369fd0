//! Properties that relate the library's operations to each other.
use vstd::prelude::*;

use crate::freq_weight::{band_center, blend, fencepost, is_band_value, lemma_fencepost_bounds};
use crate::numeric::{abs_int, lemma_floor_sqrt_square};
use crate::spectrum_memory::{decayed, decayed_n, raised};
use crate::MIN_DB;

verus! {

/// Adjacent fenceposts are at least two apart when the range is at least two
/// units per band wide.
proof fn lemma_fencepost_gap(lo: int, hi: int, k: nat, i: nat)
    requires
        k >= 1,
        hi - lo >= 2 * k,
        i < k,
    ensures
        fencepost(lo, hi, k, i) + 2 <= fencepost(lo, hi, k, i + 1),
{
    let d = hi - lo;
    let x = i * d;
    assert((i + 1) * d == x + d) by (nonlinear_arith)
        requires x == i * d;
    assert(x + 2 * k <= x + d);
    vstd::arithmetic::div_mod::lemma_div_is_ordered(x + 2 * k, x + d, k as int);
    vstd::arithmetic::div_mod::lemma_hoist_over_denominator(x, 2, k);
    assert(2 * k == k * 2) by (nonlinear_arith);
}

/// The stateless binner's frequencies (the band centers that
/// `FreqIntensity::stateless_log_sections` returns, `sections` of them) are
/// strictly increasing and lie strictly inside the range, given at least two
/// log-frequency units of range per band.
pub proof fn lemma_band_centers_ordered(sections: nat, lo: int, hi: int)
    requires
        sections >= 1,
        lo < hi,
        hi - lo >= 2 * sections,
    ensures
        forall|i: int|
            0 <= i < sections ==> lo < #[trigger] band_center(
                fencepost(lo, hi, sections, i as nat),
                fencepost(lo, hi, sections, (i + 1) as nat),
            ) < hi,
        forall|i: int, j: int|
            0 <= i < j < sections ==> #[trigger] band_center(
                fencepost(lo, hi, sections, i as nat),
                fencepost(lo, hi, sections, (i + 1) as nat),
            ) < #[trigger] band_center(
                fencepost(lo, hi, sections, j as nat),
                fencepost(lo, hi, sections, (j + 1) as nat),
            ),
{
    assert forall|i: int| 0 <= i < sections implies fencepost(lo, hi, sections, i as nat) < #[trigger] band_center(
        fencepost(lo, hi, sections, i as nat),
        fencepost(lo, hi, sections, (i + 1) as nat),
    ) < fencepost(lo, hi, sections, (i + 1) as nat) by {
        lemma_fencepost_gap(lo, hi, sections, i as nat);
    }
    assert forall|i: int| 0 <= i < sections implies lo < #[trigger] band_center(
        fencepost(lo, hi, sections, i as nat),
        fencepost(lo, hi, sections, (i + 1) as nat),
    ) < hi by {
        lemma_fencepost_bounds(lo, hi, sections, i as nat, (i + 1) as nat);
        lemma_fencepost_bounds(lo, hi, sections, (i + 1) as nat, sections);
    }
    assert forall|i: int, j: int| 0 <= i < j < sections implies #[trigger] band_center(
        fencepost(lo, hi, sections, i as nat),
        fencepost(lo, hi, sections, (i + 1) as nat),
    ) < #[trigger] band_center(
        fencepost(lo, hi, sections, j as nat),
        fencepost(lo, hi, sections, (j + 1) as nat),
    ) by {
        lemma_fencepost_bounds(lo, hi, sections, (i + 1) as nat, j as nat);
    }
}

/// Blending two channel levels does not depend on their order.
pub proof fn lemma_blend_commutative(a: i32, b: i32)
    ensures
        blend(a, b) == blend(b, a),
{
    let fa = if a < MIN_DB { MIN_DB } else { a };
    let fb = if b < MIN_DB { MIN_DB } else { b };
    assert(abs_int(fa as int) * abs_int(fb as int) == abs_int(fb as int) * abs_int(fa as int))
        by (nonlinear_arith);
}

/// Blending a level between `MIN_DB` and 0 with itself gives that level back.
pub proof fn lemma_blend_same(x: i32)
    requires
        MIN_DB <= x <= 0,
    ensures
        blend(x, x) == x,
{
    lemma_floor_sqrt_square(abs_int(x as int));
}

/// A push raises a band at most to the pushed reading, and never lowers it.
pub proof fn lemma_push_bounded(level: i32, reading: i32)
    ensures
        raised(level, reading) >= level,
        raised(level, reading) > level ==> raised(level, reading) == reading,
        raised(level, reading) <= if reading > level { reading } else { level },
{
}

/// A tick never takes a band below `MIN_DB`, however many ticks follow each other.
pub proof fn lemma_ticks_stay_above_floor(level: int, decay: int, n: nat)
    requires
        level >= MIN_DB,
    ensures
        decayed_n(level, decay, n) >= MIN_DB,
    decreases n,
{
    if n > 0 {
        lemma_ticks_stay_above_floor(level, decay, (n - 1) as nat);
    }
}

/// Repeated ticks are single ticks one after another: each step of `decayed_n`
/// is what `SpectrumMemory::tick` does to a band.
pub proof fn lemma_tick_step(level: i32, decay: i32, n: nat)
    requires
        level >= MIN_DB,
        decay >= 0,
    ensures
        MIN_DB <= decayed_n(level as int, decay as int, n) <= level,
        decayed_n(level as int, decay as int, n + 1) == decayed(
            decayed_n(level as int, decay as int, n) as i32,
            decay,
        ),
{
    lemma_ticks_linear(level as int, decay as int, n);
    assert(n * decay >= 0) by (nonlinear_arith)
        requires decay >= 0;
}

/// With no push in between, `n` ticks lower a band by exactly `n` times the decay,
/// until it reaches `MIN_DB`, where it stays.
pub proof fn lemma_ticks_linear(level: int, decay: int, n: nat)
    requires
        level >= MIN_DB,
        decay >= 0,
    ensures
        decayed_n(level, decay, n) == if level - n * decay < MIN_DB {
            MIN_DB as int
        } else {
            level - n * decay
        },
    decreases n,
{
    if n > 0 {
        lemma_ticks_linear(level, decay, (n - 1) as nat);
        assert(level - n * decay == level - (n - 1) * decay - decay) by (nonlinear_arith);
        assert((n - 1) * decay <= n * decay) by (nonlinear_arith)
            requires n >= 1, decay >= 0;
    }
}

/// With no analysis data, every band falls back to the empty fallback entry.
pub proof fn lemma_empty_bands(lo: int, hi: int, v: (i32, i32))
    ensures
        is_band_value(Seq::empty(), lo, hi, v) <==> v == (MIN_DB, MIN_DB),
{
}

} // verus!
