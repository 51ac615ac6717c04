//! The visualisation tap: a cyclic window over the last 2048 mono samples,
//! and the index arithmetic of the spectrum and waveform read from it.
//!
//! Samples are opaque values. The transform, the window function and the
//! scaling to bytes are arithmetic on samples and stay with the caller;
//! what is fixed here is which samples are read and in which order, and
//! which magnitudes are gathered into which of the 64 frequency bins.

use vstd::prelude::*;
use super::volume::INFINITY_BITS;

verus! {

/// Samples in the window, and points of the transform.
pub const FFT_SIZE: usize = 2048;

/// Magnitudes of the transform that are used: the half below Nyquist.
pub const HALF_SIZE: usize = 1024;

/// Frequency bins of an event.
pub const FREQ_BINS: usize = 64;

/// Waveform points of an event.
pub const WAVEFORM_POINTS: usize = 128;

/// The waveform byte that stands for a sample of zero.
pub const WAVEFORM_CENTER: u8 = 128;

/// The cyclic window of mono samples.
pub struct FftProcessor<T> {
    buffer: Vec<T>,
    write_pos: usize,
    enabled: bool,
    silence: T,
}

/// The window after `values` were written in order, starting at `cursor`
/// and wrapping at the window's end.
pub open spec fn written<T>(ring: Seq<T>, cursor: int, values: Seq<T>) -> Seq<T>
    decreases values.len(),
{
    if values.len() == 0 {
        ring
    } else {
        written(ring, cursor, values.drop_last()).update(
            (cursor + values.len() - 1) % (FFT_SIZE as int),
            values.last(),
        )
    }
}

/// First magnitude of bin `bin`, before it is held inside the spectrum:
/// bins are spaced by the square law, `(bin / 64)^2 * 1024`.
pub open spec fn bin_start(bin: int) -> int {
    bin * bin * HALF_SIZE / (FREQ_BINS * FREQ_BINS)
}

/// First magnitude of bin `bin`.
pub open spec fn bin_low(bin: int) -> int {
    if bin_start(bin) > HALF_SIZE - 1 {
        HALF_SIZE - 1
    } else {
        bin_start(bin)
    }
}

/// One past the last magnitude of bin `bin`: the start of the next bin,
/// but at least one magnitude, and none beyond the spectrum.
pub open spec fn bin_high(bin: int) -> int {
    let next = if bin_start(bin + 1) < bin_low(bin) + 1 {
        bin_low(bin) + 1
    } else {
        bin_start(bin + 1)
    };
    if next > HALF_SIZE {
        HALF_SIZE as int
    } else {
        next
    }
}

/// The place in the window of waveform point `point`, for a window whose
/// oldest sample is at `cursor`.
pub open spec fn waveform_index(cursor: int, point: int) -> int {
    (cursor + point * FFT_SIZE / (WAVEFORM_POINTS as int)) % (FFT_SIZE as int)
}

/// The magnitudes gathered into a bin, as a half-open range.
pub fn bin_range(bin: usize) -> (range: (usize, usize))
    requires
        bin < FREQ_BINS,
    ensures
        range.0 == bin_low(bin as int),
        range.1 == bin_high(bin as int),
        range.0 < range.1 <= HALF_SIZE,
{
    assert(bin * bin <= 63 * 63 && (bin + 1) * (bin + 1) <= 64 * 64) by (nonlinear_arith)
        requires
            bin <= 63,
    ;
    let start = bin * bin * HALF_SIZE / (FREQ_BINS * FREQ_BINS);
    let next = (bin + 1) * (bin + 1) * HALF_SIZE / (FREQ_BINS * FREQ_BINS);
    let low = if start > HALF_SIZE - 1 {
        HALF_SIZE - 1
    } else {
        start
    };
    let raised = if next < low + 1 {
        low + 1
    } else {
        next
    };
    let high = if raised > HALF_SIZE {
        HALF_SIZE
    } else {
        raised
    };
    (low, high)
}

/// The frequency bins of an event while the visualisation is off: all zero.
pub fn idle_frequency() -> (bins: Vec<u8>)
    ensures
        bins@.len() == FREQ_BINS,
        forall|i: int| 0 <= i < bins@.len() ==> bins@[i] == 0,
{
    vec![0u8; FREQ_BINS]
}

/// The waveform of an event while the visualisation is off: a centre line.
pub fn idle_waveform() -> (points: Vec<u8>)
    ensures
        points@.len() == WAVEFORM_POINTS,
        forall|i: int| 0 <= i < points@.len() ==> points@[i] == WAVEFORM_CENTER,
{
    vec![WAVEFORM_CENTER; WAVEFORM_POINTS]
}

impl<T: Copy> FftProcessor<T> {
    /// The window, by place.
    pub closed spec fn ring(&self) -> Seq<T> {
        self.buffer@
    }

    /// The place of the oldest sample, where the next one is written.
    pub closed spec fn cursor(&self) -> int {
        self.write_pos as int
    }

    /// The tap is switched on.
    pub closed spec fn active(&self) -> bool {
        self.enabled
    }

    /// The sample that stands for silence.
    pub closed spec fn silence(&self) -> T {
        self.silence
    }

    /// The window has its size and the cursor lies inside it.
    pub closed spec fn wf(&self) -> bool {
        self.buffer@.len() == FFT_SIZE && self.write_pos < FFT_SIZE
    }

    /// A silent window, switched off.
    pub fn new(silence: T) -> (fft: FftProcessor<T>)
        ensures
            fft.wf(),
            !fft.active(),
            fft.cursor() == 0,
            fft.silence() == silence,
            fft.ring() == Seq::new(FFT_SIZE as nat, |i: int| silence),
    {
        let mut buffer: Vec<T> = Vec::new();
        let mut i: usize = 0;
        while i < FFT_SIZE
            invariant
                i <= FFT_SIZE,
                buffer@.len() == i,
                forall|k: int| 0 <= k < i ==> buffer@[k] == silence,
            decreases FFT_SIZE - i,
        {
            buffer.push(silence);
            i += 1;
        }
        proof {
            assert(buffer@ =~= Seq::new(FFT_SIZE as nat, |i: int| silence));
        }
        FftProcessor { buffer, write_pos: 0, enabled: false, silence }
    }

    /// Switches the tap. Switching it off also silences the window.
    pub fn set_enabled(&mut self, enabled: bool)
        requires
            old(self).wf(),
        ensures
            final(self).wf(),
            final(self).active() == enabled,
            final(self).silence() == old(self).silence(),
            enabled ==> final(self).ring() == old(self).ring() && final(self).cursor() == old(
                self,
            ).cursor(),
            !enabled ==> final(self).cursor() == 0 && final(self).ring() == Seq::new(
                FFT_SIZE as nat,
                |i: int| old(self).silence(),
            ),
    {
        self.enabled = enabled;
        if !enabled {
            let silence = self.silence;
            let mut i: usize = 0;
            while i < FFT_SIZE
                invariant
                    i <= FFT_SIZE,
                    self.buffer@.len() == FFT_SIZE,
                    self.silence == silence,
                    self.enabled == enabled,
                    forall|k: int| 0 <= k < i ==> self.buffer@[k] == silence,
                decreases FFT_SIZE - i,
            {
                self.buffer[i] = silence;
                i += 1;
            }
            self.write_pos = 0;
            proof {
                assert(self.buffer@ =~= Seq::new(FFT_SIZE as nat, |i: int| silence));
            }
        }
    }

    pub fn is_enabled(&self) -> (enabled: bool)
        ensures
            enabled == self.active(),
    {
        self.enabled
    }

    /// Feeds a packet of interleaved samples: one mono sample per whole
    /// frame, taken from `downmix(frame)`, written over the oldest samples
    /// of the window in order. Nothing happens while the tap is off, or
    /// for a packet without channels.
    pub fn push_samples(&mut self, samples: &[T], channels: usize, downmix: impl Fn(usize) -> T)
        requires
            old(self).wf(),
            forall|f: usize| call_requires(downmix, (f,)),
        ensures
            final(self).wf(),
            final(self).active() == old(self).active(),
            final(self).silence() == old(self).silence(),
            !old(self).active() || channels == 0 ==> final(self).ring() == old(self).ring()
                && final(self).cursor() == old(self).cursor(),
            old(self).active() && channels > 0 ==> exists|values: Seq<T>|
                {
                    &&& values.len() == samples@.len() as int / channels as int
                    &&& forall|f: int|
                        0 <= f < values.len() ==> call_ensures(
                            downmix,
                            (f as usize,),
                            #[trigger] values[f],
                        )
                    &&& final(self).ring() == written(old(self).ring(), old(self).cursor(), values)
                    &&& final(self).cursor() == (old(self).cursor() + values.len()) % (
                    FFT_SIZE as int)
                },
    {
        if !self.enabled || channels == 0 {
            return ;
        }
        let frames = samples.len() / channels;
        let ghost mut values: Seq<T> = Seq::empty();
        let mut frame: usize = 0;
        while frame < frames
            invariant
                frame <= frames,
                self.buffer@.len() == FFT_SIZE,
                self.write_pos < FFT_SIZE,
                self.enabled == old(self).enabled,
                self.silence == old(self).silence,
                values.len() == frame,
                forall|f: usize| call_requires(downmix, (f,)),
                forall|f: int|
                    0 <= f < values.len() ==> call_ensures(
                        downmix,
                        (f as usize,),
                        #[trigger] values[f],
                    ),
                self.buffer@ == written(old(self).ring(), old(self).cursor(), values),
                self.write_pos == (old(self).cursor() + frame) % (FFT_SIZE as int),
            decreases frames - frame,
        {
            let mono = downmix(frame);
            self.buffer[self.write_pos] = mono;
            proof {
                let before = values;
                values = values.push(mono);
                assert(values.drop_last() =~= before);
                assert(values.last() == mono);
                vstd::arithmetic::div_mod::lemma_add_mod_noop(
                    old(self).cursor() + frame,
                    1,
                    FFT_SIZE as int,
                );
                vstd::arithmetic::div_mod::lemma_small_mod(1, FFT_SIZE as nat);
            }
            self.write_pos = (self.write_pos + 1) % FFT_SIZE;
            frame += 1;
        }
    }

    /// The window in logical order, oldest sample first.
    pub fn ordered(&self) -> (out: Vec<T>)
        requires
            self.wf(),
        ensures
            out@.len() == FFT_SIZE,
            forall|i: int|
                0 <= i < FFT_SIZE ==> #[trigger] out@[i] == self.ring()[(self.cursor() + i) % (
                FFT_SIZE as int)],
    {
        let mut out: Vec<T> = Vec::new();
        let mut i: usize = 0;
        while i < FFT_SIZE
            invariant
                i <= FFT_SIZE,
                self.buffer@.len() == FFT_SIZE,
                self.write_pos < FFT_SIZE,
                out@.len() == i,
                forall|k: int|
                    0 <= k < i ==> #[trigger] out@[k] == self.buffer@[(self.write_pos + k) % (
                    FFT_SIZE as int)],
            decreases FFT_SIZE - i,
        {
            out.push(self.buffer[(self.write_pos + i) % FFT_SIZE]);
            i += 1;
        }
        out
    }

    /// The 128 samples of the waveform: evenly spaced through the window,
    /// starting at the oldest.
    pub fn waveform_samples(&self) -> (out: Vec<T>)
        requires
            self.wf(),
        ensures
            out@.len() == WAVEFORM_POINTS,
            forall|i: int|
                0 <= i < WAVEFORM_POINTS ==> #[trigger] out@[i] == self.ring()[waveform_index(
                    self.cursor(),
                    i,
                )],
    {
        let mut out: Vec<T> = Vec::new();
        let mut i: usize = 0;
        while i < WAVEFORM_POINTS
            invariant
                i <= WAVEFORM_POINTS,
                self.buffer@.len() == FFT_SIZE,
                self.write_pos < FFT_SIZE,
                out@.len() == i,
                forall|k: int|
                    0 <= k < i ==> #[trigger] out@[k] == self.buffer@[waveform_index(
                        self.write_pos as int,
                        k,
                    )],
            decreases WAVEFORM_POINTS - i,
        {
            let idx = (self.write_pos + i * FFT_SIZE / WAVEFORM_POINTS) % FFT_SIZE;
            out.push(self.buffer[idx]);
            i += 1;
        }
        out
    }
}

/// The bins tile the spectrum: every bin holds at least one magnitude, and
/// each bin ends no earlier than the next begins, so that no magnitude
/// between the first bin's start and the last bin's end is left out.
pub proof fn lemma_bins_tile(bin: int)
    requires
        0 <= bin < FREQ_BINS,
    ensures
        0 <= bin_low(bin) < bin_high(bin) <= HALF_SIZE,
        bin + 1 < FREQ_BINS ==> bin_low(bin + 1) <= bin_high(bin),
        bin_low(0) == 0,
        bin_high(FREQ_BINS as int - 1) == HALF_SIZE,
{
    assert(0 <= bin * bin <= 63 * 63 && 1 <= (bin + 1) * (bin + 1) <= 64 * 64) by (nonlinear_arith)
        requires
            0 <= bin <= 63,
    ;
    assert(bin * bin <= (bin + 1) * (bin + 1)) by (nonlinear_arith)
        requires
            0 <= bin,
    ;
}


/// The bits encode a single above zero, infinity included: no NaN, no
/// negative number, no zero.
pub open spec fn is_positive_level(bits: u32) -> bool {
    0 < bits <= INFINITY_BITS
}

/// The greatest of the magnitudes from `low` up to `high`, as bits of a
/// single, or the bits of zero where none is above zero. For singles above
/// zero the order of the values is the order of their bits.
pub open spec fn peak_level(magnitudes: Seq<u32>, low: int, high: int) -> u32
    decreases high - low,
{
    if high <= low {
        0
    } else {
        let rest = peak_level(magnitudes, low, high - 1);
        let last = magnitudes[high - 1];
        if is_positive_level(last) && last > rest {
            last
        } else {
            rest
        }
    }
}

/// The peak is above or equal to every magnitude above zero in its range,
/// and is one of them unless it is zero.
pub proof fn lemma_peak_is_the_maximum(magnitudes: Seq<u32>, low: int, high: int)
    requires
        0 <= low <= high <= magnitudes.len(),
    ensures
        forall|j: int|
            low <= j < high && is_positive_level(#[trigger] magnitudes[j]) ==> magnitudes[j]
                <= peak_level(magnitudes, low, high),
        peak_level(magnitudes, low, high) == 0 || exists|j: int|
            low <= j < high && #[trigger] magnitudes[j] == peak_level(magnitudes, low, high)
                && is_positive_level(magnitudes[j]),
    decreases high - low,
{
    if high > low {
        lemma_peak_is_the_maximum(magnitudes, low, high - 1);
        let rest = peak_level(magnitudes, low, high - 1);
        let last = magnitudes[high - 1];
        if is_positive_level(last) && last > rest {
            assert(magnitudes[high - 1] == peak_level(magnitudes, low, high));
        } else if rest != 0 {
            let j = choose|j: int|
                low <= j < high - 1 && #[trigger] magnitudes[j] == rest && is_positive_level(
                    magnitudes[j],
                );
            assert(magnitudes[j] == peak_level(magnitudes, low, high));
        }
    }
}

/// Finds the peak of a range of magnitudes.
pub fn peak_of(magnitudes: &[u32], low: usize, high: usize) -> (peak: u32)
    requires
        low <= high <= magnitudes@.len(),
    ensures
        peak == peak_level(magnitudes@, low as int, high as int),
{
    let mut peak: u32 = 0;
    let mut j: usize = low;
    while j < high
        invariant
            low <= j <= high,
            high <= magnitudes@.len(),
            peak == peak_level(magnitudes@, low as int, j as int),
        decreases high - j,
    {
        let level = magnitudes[j];
        if 0 < level && level <= INFINITY_BITS && level > peak {
            peak = level;
        }
        j += 1;
    }
    peak
}

/// Gathers the magnitudes of the lower half of a transform into the 64
/// frequency bins: the peak of each bin's range, turned into a byte by
/// `level`. The magnitudes are bits of singles.
pub fn log_bin_magnitudes(magnitudes: &[u32], level: impl Fn(u32) -> u8) -> (bins: Vec<u8>)
    requires
        magnitudes@.len() == HALF_SIZE,
        forall|m: u32| call_requires(level, (m,)),
    ensures
        bins@.len() == FREQ_BINS,
        forall|i: int|
            0 <= i < FREQ_BINS ==> call_ensures(
                level,
                (peak_level(magnitudes@, bin_low(i), bin_high(i)),),
                #[trigger] bins@[i],
            ),
{
    let mut bins: Vec<u8> = Vec::new();
    let mut i: usize = 0;
    while i < FREQ_BINS
        invariant
            i <= FREQ_BINS,
            magnitudes@.len() == HALF_SIZE,
            bins@.len() == i,
            forall|m: u32| call_requires(level, (m,)),
            forall|k: int|
                0 <= k < i ==> call_ensures(
                    level,
                    (peak_level(magnitudes@, bin_low(k), bin_high(k)),),
                    #[trigger] bins@[k],
                ),
        decreases FREQ_BINS - i,
    {
        let (low, high) = bin_range(i);
        let peak = peak_of(magnitudes, low, high);
        bins.push(level(peak));
        i += 1;
    }
    bins
}

impl<T: Copy> FftProcessor<T> {
    /// The waveform of an event: the 128 samples of
    /// [`FftProcessor::waveform_samples`], each turned into a byte by
    /// `byte_of`.
    pub fn sample_waveform(&self, byte_of: impl Fn(T) -> u8) -> (points: Vec<u8>)
        requires
            self.wf(),
            forall|t: T| call_requires(byte_of, (t,)),
        ensures
            points@.len() == WAVEFORM_POINTS,
            forall|i: int|
                0 <= i < WAVEFORM_POINTS ==> call_ensures(
                    byte_of,
                    (self.ring()[waveform_index(self.cursor(), i)],),
                    #[trigger] points@[i],
                ),
    {
        let samples = self.waveform_samples();
        let mut points: Vec<u8> = Vec::new();
        let mut i: usize = 0;
        while i < WAVEFORM_POINTS
            invariant
                i <= WAVEFORM_POINTS,
                samples@.len() == WAVEFORM_POINTS,
                points@.len() == i,
                forall|t: T| call_requires(byte_of, (t,)),
                forall|k: int|
                    0 <= k < WAVEFORM_POINTS ==> #[trigger] samples@[k] == self.ring()[waveform_index(
                        self.cursor(),
                        k,
                    )],
                forall|k: int|
                    0 <= k < i ==> call_ensures(
                        byte_of,
                        (self.ring()[waveform_index(self.cursor(), k)],),
                        #[trigger] points@[k],
                    ),
            decreases WAVEFORM_POINTS - i,
        {
            let sample = samples[i];
            points.push(byte_of(sample));
            i += 1;
        }
        points
    }

    /// Computes the frequency bins and the waveform of an event. While the
    /// tap is off the event is flat. Otherwise `spectrum` receives the
    /// window, oldest sample first, and returns the magnitudes of the lower
    /// half of its transform as bits of singles; they are gathered into
    /// bins and scaled by `level`, and the waveform is scaled by `byte_of`.
    pub fn compute(
        &self,
        spectrum: impl Fn(Vec<T>) -> Vec<u32>,
        level: impl Fn(u32) -> u8,
        byte_of: impl Fn(T) -> u8,
    ) -> (event: (Vec<u8>, Vec<u8>))
        requires
            self.wf(),
            forall|window: Vec<T>| call_requires(spectrum, (window,)),
            forall|window: Vec<T>, magnitudes: Vec<u32>|
                call_ensures(spectrum, (window,), magnitudes) ==> magnitudes@.len() == HALF_SIZE,
            forall|m: u32| call_requires(level, (m,)),
            forall|t: T| call_requires(byte_of, (t,)),
        ensures
            event.0@.len() == FREQ_BINS,
            event.1@.len() == WAVEFORM_POINTS,
            !self.active() ==> (forall|i: int| 0 <= i < FREQ_BINS ==> #[trigger] event.0@[i] == 0)
                && (forall|i: int|
                0 <= i < WAVEFORM_POINTS ==> #[trigger] event.1@[i] == WAVEFORM_CENTER),
            self.active() ==> exists|window: Vec<T>, magnitudes: Vec<u32>|
                {
                    &&& window@.len() == FFT_SIZE
                    &&& forall|i: int|
                        0 <= i < FFT_SIZE ==> #[trigger] window@[i] == self.ring()[(self.cursor()
                            + i) % (FFT_SIZE as int)]
                    &&& #[trigger] call_ensures(spectrum, (window,), magnitudes)
                    &&& forall|i: int|
                        0 <= i < FREQ_BINS ==> call_ensures(
                            level,
                            (peak_level(magnitudes@, bin_low(i), bin_high(i)),),
                            #[trigger] event.0@[i],
                        )
                },
            self.active() ==> forall|i: int|
                0 <= i < WAVEFORM_POINTS ==> call_ensures(
                    byte_of,
                    (self.ring()[waveform_index(self.cursor(), i)],),
                    #[trigger] event.1@[i],
                ),
    {
        if !self.enabled {
            return (idle_frequency(), idle_waveform());
        }
        let window = self.ordered();
        let ghost seen = window;
        let magnitudes = spectrum(window);
        let frequency = log_bin_magnitudes(magnitudes.as_slice(), level);
        let waveform = self.sample_waveform(byte_of);
        proof {
            assert(call_ensures(spectrum, (seen,), magnitudes));
        }
        (frequency, waveform)
    }
}

} // verus!
