//! Splitting an interleaved multi-channel sample sequence into one sequence per channel.
use vstd::prelude::*;

verus! {

/// Why a buffer of samples could not be analysed.
#[derive(Debug, Clone, Copy, PartialEq, Eq)]
pub enum AnalysisError {
    /// The samples were to be split into zero channels.
    ZeroChannels,
}

/// How many of `n` interleaved samples belong to channel `i` of `c`:
/// the number of frame indices `j` with `j * c + i < n`.
pub open spec fn channel_len(n: nat, c: nat, i: nat) -> nat
    recommends
        c > 0,
{
    if i < n {
        ((n - i - 1) as nat / c) + 1
    } else {
        0
    }
}

/// Channel `i` of the interleaved `samples` split into `c` channels: the `i`-th
/// element of every frame of `c` consecutive samples, in arrival order. A short
/// last frame gives a sample to the first channels only.
pub open spec fn channel_of<T>(samples: Seq<T>, c: nat, i: nat) -> Seq<T>
    recommends
        c > 0,
{
    Seq::new(channel_len(samples.len(), c, i), |j: int| samples[j * c + i])
}

/// Splits interleaved `samples` into `channels` per-channel sequences.
/// Fails with [`AnalysisError::ZeroChannels`] when `channels` is 0, and only then.
pub fn outerleave<T: Copy>(samples: Vec<T>, channels: u16) -> (r: Result<Vec<Vec<T>>, AnalysisError>)
    ensures
        channels == 0 <==> r is Err,
        r is Err ==> r == Err::<Vec<Vec<T>>, AnalysisError>(AnalysisError::ZeroChannels),
        r matches Ok(out) ==> out@.len() == channels && forall|i: int|
            0 <= i < channels ==> (#[trigger] out@[i])@ == channel_of(samples@, channels as nat, i as nat),
{
    if channels == 0 {
        return Err(AnalysisError::ZeroChannels);
    }
    let n: usize = samples.len();
    let c: u128 = channels as u128;
    let mut out: Vec<Vec<T>> = Vec::new();
    let mut i: u16 = 0;
    while i < channels
        invariant
            i <= channels,
            c == channels,
            channels > 0,
            n == samples@.len(),
            out@.len() == i,
            forall|k: int| 0 <= k < i ==> (#[trigger] out@[k])@ == channel_of(samples@, c as nat, k as nat),
        decreases channels - i,
    {
        let mut v: Vec<T> = Vec::new();
        let mut j: u128 = i as u128;
        let ghost mut cnt: nat = 0;
        while j < n as u128
            invariant
                i < channels,
                c == channels,
                n == samples@.len(),
                j == cnt * c + i,
                j <= n + c,
                cnt == 0 || (cnt - 1) * c + i < n,
                v@.len() == cnt,
                forall|t: int| 0 <= t < cnt ==> #[trigger] v@[t] == samples@[t * c + i],
            decreases n + c - j,
        {
            v.push(samples[j as usize]);
            proof {
                assert((cnt + 1) * c + i == j + c) by (nonlinear_arith)
                    requires j == cnt * c + i;
            }
            j = j + c;
            proof {
                cnt = cnt + 1;
            }
        }
        proof {
            if i < n {
                assert(cnt >= 1);
                assert(cnt * c == (cnt - 1) * c + c) by (nonlinear_arith)
                    requires cnt >= 1;
                vstd::arithmetic::div_mod::lemma_fundamental_div_mod_converse(
                    n - i - 1,
                    c as int,
                    cnt - 1,
                    n - i - 1 - (cnt - 1) * c,
                );
            } else {
                assert(cnt == 0);
            }
            assert(v@ =~= channel_of(samples@, c as nat, i as nat));
        }
        out.push(v);
        i = i + 1;
    }
    Ok(out)
}

} // verus!
