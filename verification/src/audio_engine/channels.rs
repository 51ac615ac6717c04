//! Moving interleaved samples between channel layouts.
//!
//! Samples are opaque values here: they are copied, never computed with.
//! The one place where two samples become one, the fold of stereo to mono,
//! takes the mixing function from the caller.

use vstd::prelude::*;
use vstd::arithmetic::div_mod::{lemma_fundamental_div_mod, lemma_div_pos_is_pos};
use vstd::arithmetic::mul::{lemma_mul_inequality, lemma_mul_is_distributive_add_other_way};

verus! {

/// Whole frames in `samples` interleaved samples of `channels` channels.
pub open spec fn frame_count(samples: int, channels: int) -> int {
    if channels <= 0 {
        0
    } else {
        samples / channels
    }
}

/// The channel of the source that feeds channel `channel` of the target:
/// the same channel while the source has it, its last channel beyond.
pub open spec fn source_channel(channel: int, from_ch: int) -> int {
    if channel < from_ch {
        channel
    } else {
        from_ch - 1
    }
}

/// The place in the source of the sample that is copied to place `i` of the
/// target.
pub open spec fn source_index(i: int, from_ch: int, to_ch: int) -> int {
    (i / to_ch) * from_ch + source_channel(i % to_ch, from_ch)
}

/// Stereo is folded to mono: the one layout change that mixes.
pub open spec fn folds_stereo(from_ch: usize, to_ch: usize) -> bool {
    from_ch == 2 && to_ch == 1
}

/// Computes the number of whole frames.
pub fn frames_of(samples: usize, channels: usize) -> (frames: usize)
    ensures
        frames == frame_count(samples as int, channels as int),
        frames * channels <= samples,
{
    if channels == 0 {
        0
    } else {
        proof {
            lemma_fundamental_div_mod(samples as int, channels as int);
            assert(channels * (samples / channels) == (samples / channels) * channels)
                by (nonlinear_arith);
        }
        samples / channels
    }
}

/// Converts interleaved samples from `from_ch` to `to_ch` channels.
///
/// Equal counts copy the input. Stereo to mono hands each pair to `mix`.
/// Every other change copies: a target channel takes the source channel
/// of the same number, or the last one where the source has fewer, so
/// that surplus source channels are dropped and missing ones repeat the
/// last. A trailing partial frame is dropped.
pub fn convert_channels<T: Copy>(
    samples: &[T],
    from_ch: usize,
    to_ch: usize,
    mix: impl Fn(T, T) -> T,
) -> (out: Vec<T>)
    requires
        frame_count(samples@.len() as int, from_ch as int) * to_ch <= usize::MAX,
        forall|l: T, r: T| call_requires(mix, (l, r)),
    ensures
        from_ch == to_ch ==> out@ == samples@,
        from_ch != to_ch ==> out@.len() == frame_count(samples@.len() as int, from_ch as int)
            * to_ch,
        from_ch != to_ch && folds_stereo(from_ch, to_ch) ==> forall|f: int|
            0 <= f < out@.len() ==> call_ensures(
                mix,
                (samples@[2 * f], samples@[2 * f + 1]),
                #[trigger] out@[f],
            ),
        from_ch != to_ch && !folds_stereo(from_ch, to_ch) ==> forall|i: int|
            0 <= i < out@.len() ==> #[trigger] out@[i] == samples@[source_index(
                i,
                from_ch as int,
                to_ch as int,
            )],
        from_ch != to_ch && !folds_stereo(from_ch, to_ch) ==> forall|i: int|
            0 <= i < out@.len() ==> 0 <= #[trigger] source_index(i, from_ch as int, to_ch as int)
                < samples@.len(),
{
    let n = samples.len();
    let mut out: Vec<T> = Vec::new();
    if from_ch == to_ch {
        let mut i: usize = 0;
        while i < n
            invariant
                i <= n,
                n == samples@.len(),
                out@ == samples@.subrange(0, i as int),
            decreases n - i,
        {
            out.push(samples[i]);
            proof {
                assert(out@ =~= samples@.subrange(0, i + 1));
            }
            i += 1;
        }
        proof {
            assert(samples@.subrange(0, n as int) =~= samples@);
        }
        return out;
    }
    let frames = frames_of(n, from_ch);
    if from_ch == 2 && to_ch == 1 {
        let mut f: usize = 0;
        while f < frames
            invariant
                f <= frames,
                frames * 2 <= n,
                n == samples@.len(),
                out@.len() == f,
                forall|l: T, r: T| call_requires(mix, (l, r)),
                forall|k: int|
                    0 <= k < f ==> call_ensures(
                        mix,
                        (samples@[2 * k], samples@[2 * k + 1]),
                        #[trigger] out@[k],
                    ),
            decreases frames - f,
        {
            let l = samples[f * 2];
            let r = samples[f * 2 + 1];
            out.push(mix(l, r));
            f += 1;
        }
        return out;
    }
    if to_ch == 0 || frames == 0 {
        proof {
            assert(frames * to_ch == 0) by (nonlinear_arith)
                requires
                    to_ch == 0 || frames == 0,
            ;
        }
        return out;
    }
    let total: usize = frames * to_ch;
    let mut i: usize = 0;
    while i < total
        invariant
            i <= total,
            total == frames * to_ch,
            to_ch > 0,
            from_ch > 0,
            frames * from_ch <= n,
            n == samples@.len(),
            out@.len() == i,
            forall|k: int|
                0 <= k < i ==> #[trigger] out@[k] == samples@[source_index(
                    k,
                    from_ch as int,
                    to_ch as int,
                )],
        decreases total - i,
    {
        let frame = i / to_ch;
        let channel = i % to_ch;
        let source = if channel < from_ch {
            channel
        } else {
            from_ch - 1
        };
        proof {
            lemma_source_in_range(i as int, frames as int, from_ch as int, to_ch as int);
            assert(frame * from_ch + source == source_index(i as int, from_ch as int, to_ch as int));
        }
        let sample = samples[frame * from_ch + source];
        let ghost before = out@;
        out.push(sample);
        proof {
            assert(forall|k: int| 0 <= k < i ==> out@[k] == before[k]);
            assert(out@[i as int] == sample);
        }
        i += 1;
    }
    proof {
        assert forall|k: int| 0 <= k < out@.len() implies 0 <= #[trigger] source_index(
            k,
            from_ch as int,
            to_ch as int,
        ) < samples@.len() by {
            lemma_source_in_range(k, frames as int, from_ch as int, to_ch as int);
        }
    }
    out
}

/// The source of a place inside the target lies inside the source.
pub proof fn lemma_source_in_range(i: int, frames: int, from_ch: int, to_ch: int)
    requires
        0 <= i < frames * to_ch,
        from_ch > 0,
        to_ch > 0,
    ensures
        0 <= i / to_ch < frames,
        0 <= (i / to_ch) * from_ch,
        0 <= source_index(i, from_ch, to_ch) < frames * from_ch,
        (i / to_ch) * from_ch + from_ch <= frames * from_ch,
{
    lemma_fundamental_div_mod(i, to_ch);
    let frame = i / to_ch;
    assert(frame >= 0) by {
        lemma_div_pos_is_pos(i, to_ch);
    }
    assert(frame < frames) by (nonlinear_arith)
        requires
            i == to_ch * frame + i % to_ch,
            0 <= i % to_ch < to_ch,
            i < frames * to_ch,
            to_ch > 0,
    ;
    assert((frame + 1) * from_ch <= frames * from_ch) by (nonlinear_arith)
        requires
            frame + 1 <= frames,
            from_ch > 0,
    ;
    assert((frame + 1) * from_ch == frame * from_ch + from_ch) by (nonlinear_arith);
    assert(frame * from_ch >= 0) by (nonlinear_arith)
        requires
            frame >= 0,
            from_ch > 0,
    ;
}

/// Interleaves `frames` frames of `channels` channels, taking the sample
/// of channel `c` in frame `f` from `sample_at(c, f)`.
pub fn interleave_with<T>(
    frames: usize,
    channels: usize,
    sample_at: impl Fn(usize, usize) -> T,
) -> (out: Vec<T>)
    requires
        frames * channels <= usize::MAX,
        forall|c: usize, f: usize| c < channels && f < frames ==> call_requires(sample_at, (c, f)),
    ensures
        out@.len() == frames * channels,
        forall|i: int|
            0 <= i < out@.len() ==> call_ensures(
                sample_at,
                ((i % channels as int) as usize, (i / channels as int) as usize),
                #[trigger] out@[i],
            ),
{
    let mut out: Vec<T> = Vec::new();
    if channels == 0 || frames == 0 {
        proof {
            assert(frames * channels == 0) by (nonlinear_arith)
                requires
                    channels == 0 || frames == 0,
            ;
        }
        return out;
    }
    let total: usize = frames * channels;
    let mut i: usize = 0;
    while i < total
        invariant
            i <= total,
            total == frames * channels,
            channels > 0,
            out@.len() == i,
            forall|c: usize, f: usize|
                c < channels && f < frames ==> call_requires(sample_at, (c, f)),
            forall|k: int|
                0 <= k < i ==> call_ensures(
                    sample_at,
                    ((k % channels as int) as usize, (k / channels as int) as usize),
                    #[trigger] out@[k],
                ),
        decreases total - i,
    {
        let frame = i / channels;
        let channel = i % channels;
        proof {
            lemma_source_in_range(i as int, frames as int, 1, channels as int);
        }
        out.push(sample_at(channel, frame));
        i += 1;
    }
    out
}

/// Splits interleaved samples into one vector per channel. A trailing
/// partial frame is dropped.
pub fn deinterleave<T: Copy>(interleaved: &[T], channels: usize) -> (planar: Vec<Vec<T>>)
    ensures
        planar@.len() == channels,
        forall|c: int|
            0 <= c < channels ==> (#[trigger] planar@[c])@.len() == frame_count(
                interleaved@.len() as int,
                channels as int,
            ),
        forall|c: int, f: int|
            0 <= c < channels && 0 <= f < frame_count(interleaved@.len() as int, channels as int)
                ==> (#[trigger] planar@[c]@[f]) == interleaved@[f * channels + c],
{
    let n = interleaved.len();
    let frames = frames_of(n, channels);
    let mut planar: Vec<Vec<T>> = Vec::new();
    let mut c: usize = 0;
    while c < channels
        invariant
            c <= channels,
            n == interleaved@.len(),
            frames == frame_count(n as int, channels as int),
            frames * channels <= n,
            planar@.len() == c,
            forall|d: int| 0 <= d < c ==> (#[trigger] planar@[d])@.len() == frames,
            forall|d: int, f: int|
                0 <= d < c && 0 <= f < frames ==> (#[trigger] planar@[d]@[f]) == interleaved@[f
                    * channels + d],
        decreases channels - c,
    {
        let mut one: Vec<T> = Vec::new();
        let mut f: usize = 0;
        while f < frames
            invariant
                f <= frames,
                c < channels,
                n == interleaved@.len(),
                frames * channels <= n,
                one@.len() == f,
                forall|g: int|
                    0 <= g < f ==> (#[trigger] one@[g]) == interleaved@[g * channels + c],
            decreases frames - f,
        {
            proof {
                lemma_cell_in_range(f as int, c as int, frames as int, channels as int);
            }
            let sample = interleaved[f * channels + c];
            let ghost before = one@;
            one.push(sample);
            proof {
                assert(forall|g: int| 0 <= g < f ==> one@[g] == before[g]);
                assert(one@[f as int] == sample);
            }
            f += 1;
        }
        let ghost before = planar@;
        planar.push(one);
        proof {
            assert(forall|d: int| 0 <= d < c ==> planar@[d] == before[d]);
            assert(planar@[c as int] == one);
        }
        c += 1;
    }
    planar
}

/// The place of a channel's sample in a frame lies inside the frames.
pub proof fn lemma_cell_in_range(f: int, c: int, frames: int, channels: int)
    requires
        0 <= f < frames,
        0 <= c < channels,
    ensures
        0 <= f * channels + c < frames * channels,
{
    assert((f + 1) * channels <= frames * channels) by (nonlinear_arith)
        requires
            f + 1 <= frames,
            channels > 0,
    ;
    assert((f + 1) * channels == f * channels + channels) by (nonlinear_arith);
    assert(f * channels >= 0) by (nonlinear_arith)
        requires
            f >= 0,
            channels > 0,
    ;
}

} // verus!
