//! The output side: choosing a device configuration, sizing the ring
//! between the audio thread and the device, and the body of the device's
//! realtime callback.
//!
//! The ring is a lock-free queue with one producer, owned by the audio
//! thread, and one consumer, owned by the callback. Two flags are shared
//! with the callback: `playing`, which gates the ring, and `flushing`,
//! which has the callback throw away what is queued.

use vstd::prelude::*;
use std::sync::Arc;
use std::sync::atomic::AtomicBool;
use std::sync::atomic::Ordering;
use ringbuf::traits::{Consumer, Observer, Producer, Split};
use super::engine::OutputFormat;

verus! {

/// The least capacity of the ring, in samples.
pub const MIN_RING_SAMPLES: usize = 4096;

/// Seconds of audio the ring holds.
pub const RING_SECONDS: u64 = 2;

/// Samples the callback discards per pop while it flushes.
pub const FLUSH_CHUNK: usize = 4096;

/// The producing end of the sample ring: a `ringbuf::HeapProd`.
#[verifier::external_body]
#[verifier::reject_recursive_types(T)]
pub struct RingProducer<T> {
    inner: ringbuf::HeapProd<T>,
}

/// The consuming end of the sample ring: a `ringbuf::HeapCons`.
#[verifier::external_body]
#[verifier::reject_recursive_types(T)]
pub struct RingConsumer<T> {
    inner: ringbuf::HeapCons<T>,
}

/// `ringbuf::HeapRb::new` followed by `split`: a ring of the given
/// capacity, as its producer and its consumer. The constructor panics on a
/// capacity of zero and on one whose bytes exceed `isize::MAX`; like every
/// allocation it ends the process when the memory cannot be had.
#[verifier::external_body]
fn ring_pair<T>(capacity: usize) -> (pair: (RingProducer<T>, RingConsumer<T>))
    requires
        capacity > 0,
        capacity * vstd::layout::size_of::<T>() <= isize::MAX,
{
    let (producer, consumer) = ringbuf::HeapRb::<T>::new(capacity).split();
    (RingProducer { inner: producer }, RingConsumer { inner: consumer })
}

/// `ringbuf::traits::Observer::vacant_len` on the producer: the free places
/// it sees. The consumer may free more at any time, so nothing is claimed
/// of the number.
#[verifier::external_body]
fn ring_vacant_len<T>(producer: &RingProducer<T>) -> (n: usize) {
    producer.inner.vacant_len()
}

/// `ringbuf::traits::Observer::occupied_len` on the producer: the items it
/// sees queued. The consumer may take some at any time, so nothing is
/// claimed of the number.
#[verifier::external_body]
fn ring_occupied_len<T>(producer: &RingProducer<T>) -> (n: usize) {
    producer.inner.occupied_len()
}

/// `ringbuf::traits::Producer::push_slice`: appends a prefix of `items`, as
/// long as there is room, and returns its length.
#[verifier::external_body]
fn ring_push_slice<T: Copy>(producer: &mut RingProducer<T>, items: &[T]) -> (n: usize)
    ensures
        n <= items@.len(),
{
    producer.inner.push_slice(items)
}

/// `ringbuf::traits::Consumer::pop_slice`: removes up to `out.len()` items
/// from the front of the ring into the front of `out` and returns their
/// number. The rest of `out` is left as it was. Which items arrive depends
/// on the producer, so nothing is claimed of them.
#[verifier::external_body]
fn ring_pop_slice<T: Copy>(consumer: &mut RingConsumer<T>, out: &mut [T]) -> (n: usize)
    ensures
        n <= old(out)@.len(),
        final(out)@.len() == old(out)@.len(),
        forall|i: int| n <= i < old(out)@.len() ==> final(out)@[i] == old(out)@[i],
{
    consumer.inner.pop_slice(out)
}

/// Reads a flag shared with the device callback. The flags need to be
/// seen, not ordered with the samples: those go through the ring.
fn read_flag(flag: &Arc<AtomicBool>) -> bool {
    flag.load(Ordering::Relaxed)
}

/// Sets a flag shared with the device callback.
fn write_flag(flag: &Arc<AtomicBool>, value: bool) {
    flag.store(value, Ordering::Relaxed);
}

/// One entry of the device's list of supported output configurations.
#[derive(Clone, Copy, Debug, PartialEq, Eq, Structural)]
pub struct OutputConfigRange {
    pub channels: u16,
    pub min_sample_rate: u32,
    pub max_sample_rate: u32,
    /// The configuration takes 32-bit floating-point samples.
    pub float32: bool,
}

/// Why no output could be set up.
#[derive(Clone, Copy, Debug, PartialEq, Eq, Structural)]
pub enum OutputError {
    /// The device offers no configuration with floating-point samples.
    NoSuitableConfig,
    /// Two seconds of audio in the chosen format do not fit in memory.
    RingTooLarge,
}

/// The configuration takes floating-point samples on `channels` channels
/// and its range of rates holds `sample_rate`.
pub open spec fn fits(config: OutputConfigRange, sample_rate: u32, channels: u16) -> bool {
    config.channels == channels && config.min_sample_rate <= sample_rate
        && config.max_sample_rate >= sample_rate && config.float32
}

/// The index of the configuration to use: the first that fits the request;
/// where none fits, the first with floating-point samples.
pub open spec fn chosen_config(
    configs: Seq<OutputConfigRange>,
    sample_rate: u32,
    channels: u16,
) -> Option<int> {
    if exists|i: int| 0 <= i < configs.len() && fits(configs[i], sample_rate, channels) {
        Some(
            choose|i: int|
                0 <= i < configs.len() && fits(configs[i], sample_rate, channels) && forall|j: int|
                    0 <= j < i ==> !fits(#[trigger] configs[j], sample_rate, channels),
        )
    } else if exists|i: int| 0 <= i < configs.len() && configs[i].float32 {
        Some(
            choose|i: int|
                0 <= i < configs.len() && configs[i].float32 && forall|j: int|
                    0 <= j < i ==> !(#[trigger] configs[j]).float32,
        )
    } else {
        None
    }
}

/// `sample_rate` brought into the range of a configuration.
pub open spec fn clamped_rate(sample_rate: u32, config: OutputConfigRange) -> u32 {
    let raised = if sample_rate < config.min_sample_rate {
        config.min_sample_rate
    } else {
        sample_rate
    };
    if raised > config.max_sample_rate {
        config.max_sample_rate
    } else {
        raised
    }
}

/// Samples the ring holds for a format: two seconds, 4096 at least.
pub open spec fn ring_samples(format: OutputFormat) -> int {
    if RING_SECONDS * format.sample_rate * format.channels < MIN_RING_SAMPLES {
        MIN_RING_SAMPLES as int
    } else {
        RING_SECONDS * format.sample_rate * format.channels
    }
}

/// The format the output runs with, given the configuration chosen.
pub open spec fn output_format(sample_rate: u32, config: OutputConfigRange) -> OutputFormat {
    OutputFormat { sample_rate: clamped_rate(sample_rate, config), channels: config.channels }
}

/// Picks the configuration for a request.
pub fn select_config(configs: &[OutputConfigRange], sample_rate: u32, channels: u16) -> (chosen:
    Option<usize>)
    ensures
        match chosen {
            Some(i) => chosen_config(configs@, sample_rate, channels) == Some(i as int) && i
                < configs@.len(),
            None => chosen_config(configs@, sample_rate, channels).is_none(),
        },
        chosen matches Some(i) ==> {
            ||| fits(configs@[i as int], sample_rate, channels)
            ||| configs@[i as int].float32 && forall|j: int|
                0 <= j < configs@.len() ==> !fits(#[trigger] configs@[j], sample_rate, channels)
        },
{
    let n = configs.len();
    let mut fallback: Option<usize> = None;
    let mut i: usize = 0;
    while i < n
        invariant
            i <= n,
            n == configs@.len(),
            forall|j: int| 0 <= j < i ==> !fits(#[trigger] configs@[j], sample_rate, channels),
            match fallback {
                Some(f) => f < i && configs@[f as int].float32 && forall|j: int|
                    0 <= j < f ==> !(#[trigger] configs@[j]).float32,
                None => forall|j: int| 0 <= j < i ==> !(#[trigger] configs@[j]).float32,
            },
        decreases n - i,
    {
        let c = configs[i];
        if c.channels == channels && c.min_sample_rate <= sample_rate && c.max_sample_rate
            >= sample_rate && c.float32 {
            proof {
                lemma_first_is_chosen(configs@, sample_rate, channels, i as int);
            }
            return Some(i);
        }
        if c.float32 && fallback.is_none() {
            fallback = Some(i);
        }
        i += 1;
    }
    proof {
        if let Some(f) = fallback {
            lemma_first_float_is_chosen(configs@, sample_rate, channels, f as int);
        }
    }
    fallback
}

proof fn lemma_first_is_chosen(
    configs: Seq<OutputConfigRange>,
    sample_rate: u32,
    channels: u16,
    i: int,
)
    requires
        0 <= i < configs.len(),
        fits(configs[i], sample_rate, channels),
        forall|j: int| 0 <= j < i ==> !fits(#[trigger] configs[j], sample_rate, channels),
    ensures
        chosen_config(configs, sample_rate, channels) == Some(i),
{
    let c = choose|c: int|
        0 <= c < configs.len() && fits(configs[c], sample_rate, channels) && forall|j: int|
            0 <= j < c ==> !fits(#[trigger] configs[j], sample_rate, channels);
    assert(c == i) by {
        if c < i {
            assert(!fits(configs[c], sample_rate, channels));
        } else if i < c {
            assert(!fits(configs[i], sample_rate, channels));
        }
    }
}

proof fn lemma_first_float_is_chosen(
    configs: Seq<OutputConfigRange>,
    sample_rate: u32,
    channels: u16,
    i: int,
)
    requires
        0 <= i < configs.len(),
        configs[i].float32,
        forall|j: int| 0 <= j < i ==> !(#[trigger] configs[j]).float32,
        forall|j: int| 0 <= j < configs.len() ==> !fits(#[trigger] configs[j], sample_rate, channels),
    ensures
        chosen_config(configs, sample_rate, channels) == Some(i),
{
    let c = choose|c: int|
        0 <= c < configs.len() && configs[c].float32 && forall|j: int|
            0 <= j < c ==> !(#[trigger] configs[j]).float32;
    assert(c == i) by {
        if c < i {
            assert(!configs[c].float32);
        } else if i < c {
            assert(!configs[i].float32);
        }
    }
}

/// Brings a rate into the range of a configuration.
pub fn clamp_rate(sample_rate: u32, config: &OutputConfigRange) -> (rate: u32)
    ensures
        rate == clamped_rate(sample_rate, *config),
{
    let raised = if sample_rate < config.min_sample_rate {
        config.min_sample_rate
    } else {
        sample_rate
    };
    if raised > config.max_sample_rate {
        config.max_sample_rate
    } else {
        raised
    }
}

/// The capacity of the ring for a format.
pub fn ring_capacity(format: OutputFormat) -> (samples: u64)
    ensures
        samples == ring_samples(format),
        samples >= MIN_RING_SAMPLES,
{
    assert(RING_SECONDS * format.sample_rate * format.channels <= 2 * 0xffff_ffff * 0xffff)
        by (nonlinear_arith)
        requires
            format.sample_rate <= 0xffff_ffff,
            format.channels <= 0xffff,
            RING_SECONDS == 2,
    ;
    let samples: u64 = RING_SECONDS * (format.sample_rate as u64) * (format.channels as u64);
    if samples < MIN_RING_SAMPLES as u64 {
        MIN_RING_SAMPLES as u64
    } else {
        samples
    }
}

/// The audio thread's end of the output: the ring's producer, the format,
/// and the two flags read by the device callback.
#[verifier::reject_recursive_types(T)]
pub struct AudioOutput<T> {
    producer: RingProducer<T>,
    config: OutputFormat,
    capacity: usize,
    playing: Arc<AtomicBool>,
    flushing: Arc<AtomicBool>,
}

/// The device's end of the output: the state of the realtime callback.
#[verifier::reject_recursive_types(T)]
pub struct OutputCallback<T> {
    consumer: RingConsumer<T>,
    playing: Arc<AtomicBool>,
    flushing: Arc<AtomicBool>,
    silence: T,
    scratch: Vec<T>,
    drain_rounds: usize,
}

/// A new output with its callback, and the index of the configuration to
/// open the device with.
#[verifier::reject_recursive_types(T)]
pub struct OpenedOutput<T> {
    pub output: AudioOutput<T>,
    pub callback: OutputCallback<T>,
    pub config_index: usize,
}

/// What one run of the callback did.
#[derive(Clone, Copy, Debug, PartialEq, Eq, Structural)]
pub enum Filled {
    /// The ring was drained and the buffer filled with silence.
    Flushed,
    /// Playback is suspended: the buffer was filled with silence.
    Silent,
    /// `samples` samples came from the ring, silence follows them.
    Played { samples: usize },
}

/// Every place of `data` from `from` on holds `silence`.
pub open spec fn silent_from<T>(data: Seq<T>, from: int, silence: T) -> bool {
    forall|i: int| from <= i < data.len() ==> data[i] == silence
}

/// Overwrites `data` from `from` on with `silence`.
fn write_silence<T: Copy>(data: &mut [T], from: usize, silence: T)
    requires
        from <= old(data)@.len(),
    ensures
        final(data)@.len() == old(data)@.len(),
        forall|i: int| 0 <= i < from ==> final(data)@[i] == old(data)@[i],
        silent_from(final(data)@, from as int, silence),
{
    let n = data.len();
    let mut i: usize = from;
    while i < n
        invariant
            from <= i <= n,
            n == data@.len(),
            data@.len() == old(data)@.len(),
            forall|k: int| 0 <= k < from ==> data@[k] == old(data)@[k],
            forall|k: int| from <= k < i ==> data@[k] == silence,
        decreases n - i,
    {
        data[i] = silence;
        i += 1;
    }
}

impl<T: Copy> AudioOutput<T> {
    /// The format the output runs with.
    pub closed spec fn format(&self) -> OutputFormat {
        self.config
    }

    /// The format the output runs with.
    pub fn config(&self) -> (config: OutputFormat)
        ensures
            config == self.format(),
    {
        self.config
    }

    /// The capacity the ring was built with, in samples.
    pub closed spec fn ring_size(&self) -> int {
        self.capacity as int
    }

    /// The capacity the ring was built with, in samples: two seconds of
    /// audio in the output's format, 4096 at least.
    pub fn capacity(&self) -> (samples: usize)
        ensures
            samples == self.ring_size(),
    {
        self.capacity
    }

    /// Sets up the output for a source of the given rate and channel
    /// count, from the configurations the device supports: picks one,
    /// brings the rate into its range, and builds the ring for two seconds
    /// of audio. The callback starts enabled and not flushing.
    pub fn new(
        sample_rate: u32,
        channels: u16,
        configs: &[OutputConfigRange],
        silence: T,
    ) -> (r: Result<OpenedOutput<T>, OutputError>)
        ensures
            match r {
                Ok(opened) => {
                    &&& chosen_config(configs@, sample_rate, channels) == Some(
                        opened.config_index as int,
                    )
                    &&& opened.config_index < configs@.len()
                    &&& opened.output.format() == output_format(
                        sample_rate,
                        configs@[opened.config_index as int],
                    )
                    &&& opened.output.ring_size() == ring_samples(opened.output.format())
                    &&& opened.callback.silence() == silence
                    &&& opened.callback.wf()
                },
                Err(OutputError::NoSuitableConfig) => chosen_config(
                    configs@,
                    sample_rate,
                    channels,
                ).is_none(),
                Err(OutputError::RingTooLarge) => chosen_config(
                    configs@,
                    sample_rate,
                    channels,
                ) matches Some(i) && !ring_fits(
                    ring_samples(output_format(sample_rate, configs@[i])),
                    vstd::layout::size_of::<T>() as int,
                ),
            },
    {
        let config_index = match select_config(configs, sample_rate, channels) {
            Some(i) => i,
            None => { return Err(OutputError::NoSuitableConfig); },
        };
        let chosen = &configs[config_index];
        let config = OutputFormat {
            sample_rate: clamp_rate(sample_rate, chosen),
            channels: chosen.channels,
        };
        let samples = ring_capacity(config);
        let width = core::mem::size_of::<T>();
        let capacity: usize = match fitting_capacity(samples, width) {
            Some(capacity) => capacity,
            None => { return Err(OutputError::RingTooLarge); },
        };
        let (producer, consumer) = ring_pair::<T>(capacity);
        let playing = Arc::new(AtomicBool::new(true));
        let flushing = Arc::new(AtomicBool::new(false));
        let callback = OutputCallback {
            consumer,
            playing: playing.clone(),
            flushing: flushing.clone(),
            silence,
            scratch: vec![silence; FLUSH_CHUNK],
            drain_rounds: capacity / FLUSH_CHUNK + 1,
        };
        Ok(
            OpenedOutput {
                output: AudioOutput { producer, config, capacity, playing, flushing },
                callback,
                config_index,
            },
        )
    }

    /// Suspends the callback: it emits silence until resumed.
    pub fn pause(&self) {
        write_flag(&self.playing, false);
    }

    /// Re-enables the callback.
    pub fn resume(&self) {
        write_flag(&self.playing, true);
    }

    /// Has the callback discard all queued audio at its next run.
    pub fn flush(&self) {
        write_flag(&self.flushing, true);
    }

    /// Free places in the ring, as the producer sees them now.
    pub fn vacant_len(&self) -> (n: usize) {
        ring_vacant_len(&self.producer)
    }

    /// Samples queued in the ring, as the producer sees them now.
    pub fn occupied_len(&self) -> (n: usize) {
        ring_occupied_len(&self.producer)
    }

    /// Queues as many of `samples` as the ring has room for, from the
    /// front, and returns how many were queued.
    pub fn push_slice(&mut self, samples: &[T]) -> (n: usize)
        ensures
            n <= samples@.len(),
            final(self).format() == old(self).format(),
            final(self).ring_size() == old(self).ring_size(),
    {
        ring_push_slice(&mut self.producer, samples)
    }
}

/// A ring of `samples` samples of `width` bytes each can be allocated.
pub open spec fn ring_fits(samples: int, width: int) -> bool {
    samples <= usize::MAX && samples * width <= isize::MAX
}

/// The ring's capacity as a `usize`, if that many samples of `width` bytes
/// can be allocated.
fn fitting_capacity(samples: u64, width: usize) -> (capacity: Option<usize>)
    requires
        samples >= 1,
    ensures
        match capacity {
            Some(c) => c == samples && c * width <= isize::MAX,
            None => !ring_fits(samples as int, width as int),
        },
{
    if samples > usize::MAX as u64 {
        return None;
    }
    let capacity = samples as usize;
    match capacity.checked_mul(width) {
        Some(bytes) => if bytes <= isize::MAX as usize {
            Some(capacity)
        } else {
            None
        },
        None => None,
    }
}

impl<T: Copy> OutputCallback<T> {
    /// The sample that stands for silence.
    pub closed spec fn silence(&self) -> T {
        self.silence
    }

    /// The scratch buffer for flushing is in place.
    pub closed spec fn wf(&self) -> bool {
        self.scratch@.len() == FLUSH_CHUNK
    }

    /// Fills one device buffer, given the two flags as they were read. A
    /// flush drains the ring and leaves silence; a suspended output leaves
    /// silence; otherwise the ring's samples come first and any shortfall
    /// is silence.
    pub fn fill_with(&mut self, data: &mut [T], flushing: bool, playing: bool) -> (done: Filled)
        requires
            old(self).wf(),
        ensures
            final(self).wf(),
            final(self).silence() == old(self).silence(),
            final(data)@.len() == old(data)@.len(),
            flushing ==> done is Flushed,
            !flushing && !playing ==> done is Silent,
            !flushing && playing ==> done is Played,
            match done {
                Filled::Flushed => silent_from(final(data)@, 0, old(self).silence()),
                Filled::Silent => silent_from(final(data)@, 0, old(self).silence()),
                Filled::Played { samples } => samples <= old(data)@.len() && silent_from(
                    final(data)@,
                    samples as int,
                    old(self).silence(),
                ),
            },
    {
        let silence = self.silence;
        if flushing {
            let mut rounds = self.drain_rounds;
            while rounds > 0
                invariant
                    self.scratch@.len() == FLUSH_CHUNK,
                    self.silence == silence,
                decreases rounds,
            {
                let n = ring_pop_slice(&mut self.consumer, self.scratch.as_mut_slice());
                if n == 0 {
                    break ;
                }
                rounds -= 1;
            }
            write_silence(data, 0, silence);
            return Filled::Flushed;
        }
        if !playing {
            write_silence(data, 0, silence);
            return Filled::Silent;
        }
        let samples = ring_pop_slice(&mut self.consumer, data);
        write_silence(data, samples, silence);
        Filled::Played { samples }
    }

    /// The device callback: reads the flags, fills the buffer as
    /// [`OutputCallback::fill_with`] does for the flags read, clears the
    /// flush flag after a flush, and tells what it did.
    pub fn fill(&mut self, data: &mut [T]) -> (done: Filled)
        requires
            old(self).wf(),
        ensures
            final(self).wf(),
            final(self).silence() == old(self).silence(),
            final(data)@.len() == old(data)@.len(),
            match done {
                Filled::Flushed => silent_from(final(data)@, 0, old(self).silence()),
                Filled::Silent => silent_from(final(data)@, 0, old(self).silence()),
                Filled::Played { samples } => samples <= old(data)@.len() && silent_from(
                    final(data)@,
                    samples as int,
                    old(self).silence(),
                ),
            },
    {
        let flushing = read_flag(&self.flushing);
        let playing = read_flag(&self.playing);
        let done = self.fill_with(data, flushing, playing);
        match done {
            Filled::Flushed => {
                write_flag(&self.flushing, false);
            },
            _ => {},
        }
        done
    }
}

impl OutputError {
    /// The text of the error.
    pub fn message(&self) -> (message: String)
        ensures
            message@ == match self {
                OutputError::NoSuitableConfig => "No suitable audio output configuration found"@,
                OutputError::RingTooLarge => "Audio ring buffer is too large for this format"@,
            },
    {
        match self {
            OutputError::NoSuitableConfig => String::from_str(
                "No suitable audio output configuration found",
            ),
            OutputError::RingTooLarge => String::from_str(
                "Audio ring buffer is too large for this format",
            ),
        }
    }
}

} // verus!
