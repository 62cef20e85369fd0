//! The integer stages of spectral analysis: the noise gate on bin amplitudes
//! and the blend of per-channel spectra.
use vstd::prelude::*;

use crate::demux::AnalysisError;
use crate::freq_weight::{blend_spectra, FreqIntensity};

verus! {

/// A bin is gated when its amplitude is below `GATE_NUM / GATE_DEN` of the loudest bin.
pub const GATE_NUM: u64 = 1;

/// Denominator of the fraction of the loudest amplitude below which a bin is silenced.
pub const GATE_DEN: u64 = 5;

/// `m` is the largest of the amplitudes `s`.
pub open spec fn is_seq_max(s: Seq<u64>, m: u64) -> bool {
    &&& exists|k: int| 0 <= k < s.len() && s[k] == m
    &&& forall|k: int| 0 <= k < s.len() ==> #[trigger] s[k] <= m
}

/// An amplitude after noise gating, given the loudest amplitude `max` of its frame.
pub open spec fn gated(amp: u64, max: u64) -> u64 {
    if (GATE_DEN as int) * (amp as int) < (GATE_NUM as int) * (max as int) {
        0
    } else {
        amp
    }
}

/// Silences every amplitude below a fixed fraction of the loudest one of the frame;
/// the others pass unchanged. An empty frame stays empty.
pub fn noise_gate(amps: Vec<u64>) -> (r: Vec<u64>)
    ensures
        r@.len() == amps@.len(),
        amps@.len() > 0 ==> exists|m: u64|
            is_seq_max(amps@, m) && forall|i: int|
                0 <= i < amps@.len() ==> #[trigger] r@[i] == gated(amps@[i], m),
        amps@.len() == 0 ==> r@ == amps@,
{
    if amps.len() == 0 {
        return amps;
    }
    let mut max: u64 = amps[0];
    let mut j: usize = 1;
    while j < amps.len()
        invariant
            1 <= j <= amps@.len(),
            exists|k: int| 0 <= k < j && amps@[k] == max,
            forall|k: int| 0 <= k < j ==> #[trigger] amps@[k] <= max,
        decreases amps@.len() - j,
    {
        if amps[j] > max {
            max = amps[j];
        }
        j = j + 1;
    }
    let mut out: Vec<u64> = Vec::new();
    let mut i: usize = 0;
    while i < amps.len()
        invariant
            i <= amps@.len(),
            out@.len() == i,
            forall|k: int| 0 <= k < i ==> #[trigger] out@[k] == gated(amps@[k], max),
        decreases amps@.len() - i,
    {
        let a = amps[i];
        assert((GATE_NUM as u128) * (max as u128) <= 0xffff_ffff_ffff_ffffu128) by (nonlinear_arith)
            requires GATE_NUM == 1, max <= 0xffff_ffff_ffff_ffffu64;
        let v: u64 = if (GATE_DEN as u128) * (a as u128) < (GATE_NUM as u128) * (max as u128) {
            0
        } else {
            a
        };
        out.push(v);
        i = i + 1;
    }
    assert(is_seq_max(amps@, max));
    out
}

/// The channel spectra blended left to right: the first alone, then each next
/// one blended into what came before.
pub open spec fn blend_all(spectra: Seq<FreqIntensity>) -> Seq<(i32, i32)>
    decreases spectra.len(),
{
    if spectra.len() <= 1 {
        spectra[0].0@
    } else {
        blend_spectra(blend_all(spectra.drop_last()), spectra.last().0@)
    }
}

/// All spectra hold the same number of bins.
pub open spec fn same_bins(spectra: Seq<FreqIntensity>) -> bool {
    forall|i: int| 0 <= i < spectra.len() ==> (#[trigger] spectra[i]).0@.len() == spectra[0].0@.len()
}

/// Blending keeps the number of bins.
pub proof fn lemma_blend_all_len(spectra: Seq<FreqIntensity>)
    requires
        spectra.len() > 0,
        same_bins(spectra),
    ensures
        blend_all(spectra).len() == spectra[0].0@.len(),
    decreases spectra.len(),
{
    if spectra.len() > 1 {
        let front = spectra.drop_last();
        assert(front[0] == spectra[0]);
        assert forall|i: int| 0 <= i < front.len() implies (#[trigger] front[i]).0@.len()
            == front[0].0@.len() by {
            assert(front[i] == spectra[i]);
        }
        lemma_blend_all_len(front);
    }
}

/// Blends the spectra of all channels into one, left to right. Fails with
/// [`AnalysisError::ZeroChannels`] when there is no channel, and only then.
pub fn combine_channels(spectra: Vec<FreqIntensity>) -> (r: Result<FreqIntensity, AnalysisError>)
    requires
        same_bins(spectra@),
    ensures
        spectra@.len() == 0 <==> r is Err,
        r is Err ==> r == Err::<FreqIntensity, AnalysisError>(AnalysisError::ZeroChannels),
        r matches Ok(f) ==> f.0@ == blend_all(spectra@),
{
    if spectra.len() == 0 {
        return Err(AnalysisError::ZeroChannels);
    }
    let ghost orig = spectra@;
    let n = spectra.len();
    let mut rest = spectra;
    let mut acc = rest.remove(0);
    let mut k: usize = 1;
    assert(orig.subrange(0, 1).len() == 1);
    assert(orig.subrange(0, 1)[0] == orig[0]);
    while k < n
        invariant
            1 <= k <= n,
            n == orig.len(),
            same_bins(orig),
            rest@ =~= orig.subrange(k as int, n as int),
            acc.0@ == blend_all(orig.subrange(0, k as int)),
            acc.0@.len() == orig[0].0@.len(),
        decreases n - k,
    {
        let next = rest.remove(0);
        assert(next == orig[k as int]);
        assert(orig[k as int].0@.len() == orig[0].0@.len());
        acc = acc.combine_mean(next);
        proof {
            let s = orig.subrange(0, k + 1);
            assert(s.drop_last() =~= orig.subrange(0, k as int));
            assert(s.last() == orig[k as int]);
        }
        k = k + 1;
    }
    assert(orig.subrange(0, n as int) =~= orig);
    Ok(acc)
}

} // verus!
