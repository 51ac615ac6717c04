//! Bookkeeping round the sample-rate converter.
//!
//! The converter itself works on one buffer per channel and in chunks of a
//! size it announces before each call. What is decided here: whether a
//! converter is needed, how decoded samples are staged until a chunk is
//! full, and how a chunk is taken apart and put together again.

use vstd::prelude::*;
use super::channels::{deinterleave, frame_count, frames_of, interleave_with};
use crate::text::{decimal, push_decimal};

verus! {

/// Frames per chunk that the converter is set up with.
pub const CHUNK_SIZE: usize = 1024;

/// Why a converter was not set up, or a chunk not converted.
#[derive(Clone, Copy, Debug, PartialEq, Eq, Structural)]
pub enum ResampleError {
    /// Source and output run at the same rate.
    NotNeeded,
    /// The chunk does not hold the number of frames the converter asked for.
    FrameCount { expected: usize, got: usize },
    /// The converter's output is not one buffer per channel, all of one
    /// length.
    Ragged,
}

/// The parameters to build the converter with.
#[derive(Clone, Copy, Debug, PartialEq, Eq, Structural)]
pub struct ResamplerPlan {
    pub from_rate: usize,
    pub to_rate: usize,
    pub chunk_size: usize,
    pub channels: usize,
}

/// What the engine keeps of a converter: the channel count and the number
/// of frames its next call takes.
#[derive(Clone, Copy, Debug, PartialEq, Eq, Structural)]
pub struct AudioResampler {
    pub channels: usize,
    pub input_frames_needed: usize,
}

/// Decoded samples waiting for the converter.
pub struct StagingBuffer<T> {
    data: Vec<T>,
}

/// Every channel of `planar` holds `frames` samples.
pub open spec fn rectangular<T>(planar: Seq<Vec<T>>, frames: int) -> bool {
    forall|c: int| 0 <= c < planar.len() ==> (#[trigger] planar[c])@.len() == frames
}

/// The number of frames in the converter's output: the length of its first
/// channel.
pub open spec fn output_frames<T>(planar: Seq<Vec<T>>) -> int {
    if planar.len() == 0 {
        0
    } else {
        planar[0]@.len() as int
    }
}

impl AudioResampler {
    /// Decides on a converter between two rates.
    pub fn plan(from_rate: u32, to_rate: u32, channels: usize) -> (r: Result<
        ResamplerPlan,
        ResampleError,
    >)
        ensures
            r == if from_rate == to_rate {
                Err::<ResamplerPlan, ResampleError>(ResampleError::NotNeeded)
            } else {
                Ok(
                    ResamplerPlan {
                        from_rate: from_rate as usize,
                        to_rate: to_rate as usize,
                        chunk_size: CHUNK_SIZE,
                        channels,
                    },
                )
            },
    {
        if from_rate == to_rate {
            return Err(ResampleError::NotNeeded);
        }
        Ok(
            ResamplerPlan {
                from_rate: from_rate as usize,
                to_rate: to_rate as usize,
                chunk_size: CHUNK_SIZE,
                channels,
            },
        )
    }

    /// The bookkeeping for a converter that has announced the size of its
    /// first chunk.
    pub fn new(channels: usize, input_frames_needed: usize) -> (resampler: AudioResampler)
        ensures
            resampler == (AudioResampler { channels, input_frames_needed }),
    {
        AudioResampler { channels, input_frames_needed }
    }

    /// Frames the next chunk must hold.
    pub fn input_frames_needed(&self) -> (frames: usize)
        ensures
            frames == self.input_frames_needed,
    {
        self.input_frames_needed
    }

    /// Samples the next chunk must hold, if that number can be counted.
    pub fn input_samples_needed(&self) -> (samples: Option<usize>)
        ensures
            match samples {
                Some(n) => n == self.input_frames_needed * self.channels,
                None => self.input_frames_needed * self.channels > usize::MAX,
            },
    {
        self.input_frames_needed.checked_mul(self.channels)
    }

    /// Takes a chunk apart into one buffer per channel, after checking that
    /// it holds exactly the frames asked for.
    pub fn split<T: Copy>(&self, interleaved: &[T]) -> (r: Result<Vec<Vec<T>>, ResampleError>)
        ensures
            match r {
                Ok(planar) => {
                    &&& frame_count(interleaved@.len() as int, self.channels as int)
                        == self.input_frames_needed
                    &&& planar@.len() == self.channels
                    &&& rectangular(planar@, self.input_frames_needed as int)
                    &&& forall|c: int, f: int|
                        0 <= c < self.channels && 0 <= f < self.input_frames_needed ==> (
                        #[trigger] planar@[c]@[f]) == interleaved@[f * self.channels + c]
                },
                Err(e) => {
                    &&& frame_count(interleaved@.len() as int, self.channels as int)
                        != self.input_frames_needed
                    &&& e == (ResampleError::FrameCount {
                        expected: self.input_frames_needed,
                        got: frame_count(interleaved@.len() as int, self.channels as int) as usize,
                    })
                },
            },
    {
        let frames = frames_of(interleaved.len(), self.channels);
        if frames != self.input_frames_needed {
            return Err(
                ResampleError::FrameCount { expected: self.input_frames_needed, got: frames },
            );
        }
        Ok(deinterleave(interleaved, self.channels))
    }

    /// Puts the converter's output together again and notes the size of
    /// the chunk it wants next.
    pub fn merge<T: Copy>(&mut self, planar: &Vec<Vec<T>>, next_frames_needed: usize) -> (r: Result<
        Vec<T>,
        ResampleError,
    >)
        ensures
            final(self).channels == old(self).channels,
            final(self).input_frames_needed == next_frames_needed,
            match r {
                Ok(out) => {
                    &&& planar@.len() == old(self).channels
                    &&& rectangular(planar@, output_frames(planar@))
                    &&& out@.len() == output_frames(planar@) * old(self).channels
                    &&& forall|i: int|
                        0 <= i < out@.len() ==> #[trigger] out@[i] == planar@[i % (old(
                            self,
                        ).channels as int)]@[i / (old(self).channels as int)]
                },
                Err(e) => {
                    &&& e == ResampleError::Ragged
                    &&& planar@.len() != old(self).channels || !rectangular(
                        planar@,
                        output_frames(planar@),
                    ) || output_frames(planar@) * old(self).channels > usize::MAX
                },
            },
    {
        self.input_frames_needed = next_frames_needed;
        let channels = self.channels;
        if planar.len() != channels {
            return Err(ResampleError::Ragged);
        }
        let frames = if channels == 0 {
            0
        } else {
            planar[0].len()
        };
        let mut c: usize = 0;
        while c < channels
            invariant
                c <= channels,
                channels == planar@.len(),
                frames == output_frames(planar@),
                self.channels == old(self).channels,
                self.input_frames_needed == next_frames_needed,
                forall|d: int| 0 <= d < c ==> (#[trigger] planar@[d])@.len() == frames,
            decreases channels - c,
        {
            if planar[c].len() != frames {
                return Err(ResampleError::Ragged);
            }
            c += 1;
        }
        if frames.checked_mul(channels).is_none() {
            return Err(ResampleError::Ragged);
        }
        let pick = |c: usize, f: usize| -> (s: T)
            requires
                c < planar@.len(),
                f < planar@[c as int]@.len(),
            ensures
                s == planar@[c as int]@[f as int],
            { planar[c][f] };
        let out = interleave_with(frames, channels, pick);
        proof {
            assert forall|i: int| 0 <= i < out@.len() implies #[trigger] out@[i] == planar@[i % (
            channels as int)]@[i / (channels as int)] by {
                super::channels::lemma_source_in_range(i, frames as int, 1, channels as int);
            }
        }
        Ok(out)
    }
}

impl<T: Copy> StagingBuffer<T> {
    /// The staged samples, oldest first.
    pub closed spec fn view(&self) -> Seq<T> {
        self.data@
    }

    /// An empty staging buffer.
    pub fn new() -> (staging: StagingBuffer<T>)
        ensures
            staging@ == Seq::<T>::empty(),
    {
        StagingBuffer { data: Vec::new() }
    }

    pub fn len(&self) -> (n: usize)
        ensures
            n == self@.len(),
    {
        self.data.len()
    }

    /// Drops what is staged.
    pub fn clear(&mut self)
        ensures
            final(self)@ == Seq::<T>::empty(),
    {
        self.data.clear();
    }

    /// Stages decoded samples behind those already waiting.
    pub fn extend(&mut self, samples: &[T])
        ensures
            final(self)@ == old(self)@ + samples@,
    {
        let n = samples.len();
        let mut i: usize = 0;
        while i < n
            invariant
                i <= n,
                n == samples@.len(),
                self.data@ == old(self).data@ + samples@.subrange(0, i as int),
            decreases n - i,
        {
            self.data.push(samples[i]);
            proof {
                assert(self.data@ =~= old(self).data@ + samples@.subrange(0, i + 1));
            }
            i += 1;
        }
        proof {
            assert(samples@.subrange(0, n as int) =~= samples@);
        }
    }

    /// Takes the oldest `needed` samples as a chunk, once that many are
    /// staged. Nothing is taken while fewer wait, nor for a chunk of
    /// nothing.
    pub fn take(&mut self, needed: usize) -> (chunk: Option<Vec<T>>)
        ensures
            match chunk {
                Some(taken) => {
                    &&& 0 < needed <= old(self)@.len()
                    &&& taken@ == old(self)@.subrange(0, needed as int)
                    &&& final(self)@ == old(self)@.subrange(needed as int, old(self)@.len() as int)
                },
                None => (needed == 0 || needed > old(self)@.len()) && final(self)@ == old(self)@,
            },
    {
        if needed == 0 || needed > self.data.len() {
            return None;
        }
        let mut rest = self.data.split_off(needed);
        core::mem::swap(&mut self.data, &mut rest);
        Some(rest)
    }
}

impl ResampleError {
    /// The text of the error.
    pub open spec fn text(&self) -> Seq<char> {
        match *self {
            ResampleError::NotNeeded => "No resampling needed"@,
            ResampleError::FrameCount { expected, got } => "Expected "@ + decimal(expected as nat)
                + " frames, got "@ + decimal(got as nat),
            ResampleError::Ragged => "Resampler output is not one buffer per channel"@,
        }
    }

    /// Renders the error for the log.
    pub fn message(&self) -> (message: String)
        ensures
            message@ == self.text(),
    {
        match self {
            ResampleError::NotNeeded => String::from_str("No resampling needed"),
            ResampleError::FrameCount { expected, got } => {
                let mut message = String::from_str("Expected ");
                push_decimal(&mut message, *expected as u64);
                message.append(" frames, got ");
                push_decimal(&mut message, *got as u64);
                message
            },
            ResampleError::Ragged => String::from_str(
                "Resampler output is not one buffer per channel",
            ),
        }
    }
}

} // verus!
