//! The ten-band equalizer: which filters it is made of, where a channel's
//! filter memory lives, and how a packet is sent through the chain.
//!
//! Band 0 is a low shelf, band 9 a high shelf, the bands between are
//! peaking filters. The arithmetic of a filter (the design of its
//! coefficients and one step of its recurrence) is handed in by the
//! caller; what is fixed here is the order of the bands, the independence
//! of the channels, and what a reset, a change of gains and the off switch
//! do to the memories.

use vstd::prelude::*;
use super::channels::frame_count;

verus! {

/// Number of bands.
pub const NUM_BANDS: usize = 10;

/// Centre or corner frequency of each band, in Hz.
pub const EQ_FREQUENCIES: [u32; 10] = [32, 64, 125, 250, 500, 1000, 2000, 4000, 8000, 16000];

/// Quality factor of a peaking band, in thousandths.
pub const PEAKING_Q_MILLI: u32 = 1400;

/// Quality factor of a shelving band, in thousandths.
pub const SHELF_Q_MILLI: u32 = 707;

/// The shape of a band's filter.
#[derive(Clone, Copy, Debug, PartialEq, Eq, Structural)]
pub enum FilterType {
    LowShelf,
    Peaking,
    HighShelf,
}

/// The filter of band `band`: a low shelf at the bottom, a high shelf at
/// the top, peaking filters between.
pub open spec fn filter_of(band: int) -> FilterType {
    if band == 0 {
        FilterType::LowShelf
    } else if band == NUM_BANDS - 1 {
        FilterType::HighShelf
    } else {
        FilterType::Peaking
    }
}

/// The quality factor of a filter shape, in thousandths.
pub open spec fn q_milli_of(filter: FilterType) -> u32 {
    if filter is Peaking {
        PEAKING_Q_MILLI
    } else {
        SHELF_Q_MILLI
    }
}

/// The filter shape of a band.
pub fn band_filter(band: usize) -> (filter: FilterType)
    requires
        band < NUM_BANDS,
    ensures
        filter == filter_of(band as int),
{
    if band == 0 {
        FilterType::LowShelf
    } else if band == NUM_BANDS - 1 {
        FilterType::HighShelf
    } else {
        FilterType::Peaking
    }
}

/// The quality factor of a filter shape, in thousandths.
pub fn filter_q_milli(filter: FilterType) -> (q: u32)
    ensures
        q == q_milli_of(filter),
{
    match filter {
        FilterType::Peaking => PEAKING_Q_MILLI,
        _ => SHELF_Q_MILLI,
    }
}

/// The frequency of a band, in Hz.
pub fn band_frequency(band: usize) -> (hz: u32)
    requires
        band < NUM_BANDS,
    ensures
        hz == EQ_FREQUENCIES[band as int],
{
    EQ_FREQUENCIES[band]
}

/// The ten-band equalizer: per band a set of coefficients, per band and
/// channel a filter memory. Coefficients are of type `C`, memories of type
/// `S`; both are made and used by functions of the caller.
pub struct Equalizer<C, S> {
    coeffs: Vec<C>,
    states: Vec<S>,
    gains: Vec<u32>,
    enabled: bool,
    sample_rate: u32,
    channels: usize,
    rest: S,
}

/// The place of the memory of `band` for `channel`.
pub open spec fn cell(channel: int, band: int) -> int {
    channel * NUM_BANDS + band
}

/// Samples of a packet that lie in whole frames.
pub open spec fn whole_samples(samples: int, channels: int) -> int {
    frame_count(samples, channels) * channels
}

/// The memory that band `band` is handed for sample `j`: what it kept from
/// the previous sample of the same channel, `channels` samples earlier, or
/// what it held before the packet.
pub open spec fn handed<S>(
    memory_before: Seq<S>,
    kept: spec_fn(int, int) -> S,
    channels: int,
    j: int,
    band: int,
) -> S {
    if j < channels {
        memory_before[cell(j, band)]
    } else {
        kept(j - channels, band)
    }
}

/// `after` is `before` sent through the chain of filters.
///
/// `taps(j, b)` is sample `j` as it enters band `b` (and `taps(j, 10)` as
/// it leaves the last band); `kept(j, b)` is the memory of band `b` after
/// sample `j`. Every sample of a whole frame is widened, passes the bands
/// in order, each band working from the memory it kept from the previous
/// sample of the same channel, and is narrowed again. The samples of a
/// trailing partial frame are left alone.
pub open spec fn filtered<T, U, C, S, W: Fn(T) -> U, K: Fn(C, S, U) -> (S, U), N: Fn(U) -> T>(
    before: Seq<T>,
    after: Seq<T>,
    memory_before: Seq<S>,
    memory_after: Seq<S>,
    coeffs: Seq<C>,
    channels: int,
    widen: W,
    kernel: K,
    narrow: N,
    taps: spec_fn(int, int) -> U,
    kept: spec_fn(int, int) -> S,
) -> bool {
    let total = whole_samples(before.len() as int, channels);
    &&& after.len() == before.len()
    &&& forall|j: int| total <= j < before.len() ==> #[trigger] after[j] == before[j]
    &&& forall|j: int| 0 <= j < total ==> call_ensures(widen, (before[j],), #[trigger] taps(j, 0))
    &&& forall|j: int, b: int|
        0 <= j < total && 0 <= b < NUM_BANDS ==> call_ensures(
            kernel,
            (coeffs[b], handed(memory_before, kept, channels, j, b), taps(j, b)),
            (#[trigger] kept(j, b), taps(j, b + 1)),
        )
    &&& forall|j: int|
        0 <= j < total ==> call_ensures(narrow, (taps(j, NUM_BANDS as int),), #[trigger] after[j])
    &&& forall|c: int, b: int|
        0 <= c < channels && 0 <= b < NUM_BANDS ==> memory_after[#[trigger] cell(c, b)] == if total
            == 0 {
            memory_before[cell(c, b)]
        } else {
            kept(total - channels + c, b)
        }
}

impl<C: Copy, S: Copy> Equalizer<C, S> {
    /// The coefficients, by band.
    pub closed spec fn coefficients(&self) -> Seq<C> {
        self.coeffs@
    }

    /// The filter memories, by [`cell`].
    pub closed spec fn memory(&self) -> Seq<S> {
        self.states@
    }

    /// The gains in dB, by band, as bits of singles.
    pub closed spec fn gain_bits(&self) -> Seq<u32> {
        self.gains@
    }

    /// The chain is switched on.
    pub closed spec fn active(&self) -> bool {
        self.enabled
    }

    /// The rate the coefficients are made for.
    pub closed spec fn rate(&self) -> u32 {
        self.sample_rate
    }

    /// The number of channels filtered.
    pub closed spec fn channel_count(&self) -> usize {
        self.channels
    }

    /// The memory of a filter at rest.
    pub closed spec fn rest(&self) -> S {
        self.rest
    }

    /// One set of coefficients and one gain per band, one memory per band
    /// and channel.
    pub closed spec fn wf(&self) -> bool {
        &&& self.coeffs@.len() == NUM_BANDS
        &&& self.gains@.len() == NUM_BANDS
        &&& self.states@.len() == self.channels * NUM_BANDS
    }

    /// The coefficients are those that `design` makes for the layout of
    /// the bands and the gains in force: `design` receives the filter's
    /// shape, its frequency in Hz, its gain, its quality factor in
    /// thousandths and the sample rate.
    pub open spec fn designed<D: Fn(FilterType, u32, u32, u32, u32) -> C>(&self, design: D) -> bool {
        forall|b: int|
            0 <= b < NUM_BANDS ==> call_ensures(
                design,
                (
                    filter_of(b),
                    EQ_FREQUENCIES[b],
                    self.gain_bits()[b],
                    q_milli_of(filter_of(b)),
                    self.rate(),
                ),
                #[trigger] self.coefficients()[b],
            )
    }

    /// A flat equalizer, switched on, with every filter at rest.
    pub fn new(
        sample_rate: u32,
        channels: usize,
        rest: S,
        design: impl Fn(FilterType, u32, u32, u32, u32) -> C,
    ) -> (eq: Equalizer<C, S>)
        requires
            channels * NUM_BANDS <= usize::MAX,
            forall|t: FilterType, f: u32, g: u32, q: u32, r: u32|
                call_requires(design, (t, f, g, q, r)),
        ensures
            eq.wf(),
            eq.active(),
            eq.rate() == sample_rate,
            eq.channel_count() == channels,
            eq.rest() == rest,
            forall|b: int| 0 <= b < NUM_BANDS ==> #[trigger] eq.gain_bits()[b] == 0,
            forall|i: int| 0 <= i < eq.memory().len() ==> #[trigger] eq.memory()[i] == rest,
            eq.designed(design),
    {
        let mut coeffs: Vec<C> = Vec::new();
        let mut gains: Vec<u32> = Vec::new();
        let mut band: usize = 0;
        while band < NUM_BANDS
            invariant
                band <= NUM_BANDS,
                coeffs@.len() == band,
                gains@.len() == band,
                forall|t: FilterType, f: u32, g: u32, q: u32, r: u32|
                    call_requires(design, (t, f, g, q, r)),
                forall|b: int| 0 <= b < band ==> #[trigger] gains@[b] == 0,
                forall|b: int|
                    0 <= b < band ==> call_ensures(
                        design,
                        (filter_of(b), EQ_FREQUENCIES[b], 0u32, q_milli_of(filter_of(b)), sample_rate),
                        #[trigger] coeffs@[b],
                    ),
            decreases NUM_BANDS - band,
        {
            let filter = band_filter(band);
            let made = design(filter, EQ_FREQUENCIES[band], 0, filter_q_milli(filter), sample_rate);
            coeffs.push(made);
            gains.push(0);
            band += 1;
        }
        let count = channels * NUM_BANDS;
        let mut states: Vec<S> = Vec::new();
        let mut i: usize = 0;
        while i < count
            invariant
                i <= count,
                states@.len() == i,
                forall|k: int| 0 <= k < i ==> #[trigger] states@[k] == rest,
            decreases count - i,
        {
            states.push(rest);
            i += 1;
        }
        Equalizer { coeffs, states, gains, enabled: true, sample_rate, channels, rest }
    }

    /// Takes new gains and has the coefficients of all bands made anew.
    /// The filter memories are kept, so that the change is heard without
    /// a click.
    pub fn set_gains(
        &mut self,
        gains: &[u32; 10],
        design: impl Fn(FilterType, u32, u32, u32, u32) -> C,
    )
        requires
            old(self).wf(),
            forall|t: FilterType, f: u32, g: u32, q: u32, r: u32|
                call_requires(design, (t, f, g, q, r)),
        ensures
            final(self).wf(),
            final(self).gain_bits() == gains@,
            final(self).designed(design),
            final(self).memory() == old(self).memory(),
            final(self).active() == old(self).active(),
            final(self).rate() == old(self).rate(),
            final(self).channel_count() == old(self).channel_count(),
            final(self).rest() == old(self).rest(),
    {
        let mut band: usize = 0;
        while band < NUM_BANDS
            invariant
                band <= NUM_BANDS,
                self.coeffs@.len() == NUM_BANDS,
                self.gains@.len() == NUM_BANDS,
                self.states == old(self).states,
                self.enabled == old(self).enabled,
                self.sample_rate == old(self).sample_rate,
                self.channels == old(self).channels,
                self.rest == old(self).rest,
                old(self).wf(),
                forall|t: FilterType, f: u32, g: u32, q: u32, r: u32|
                    call_requires(design, (t, f, g, q, r)),
                forall|b: int| 0 <= b < band ==> #[trigger] self.gains@[b] == gains@[b],
                forall|b: int|
                    0 <= b < band ==> call_ensures(
                        design,
                        (
                            filter_of(b),
                            EQ_FREQUENCIES[b],
                            gains@[b],
                            q_milli_of(filter_of(b)),
                            self.sample_rate,
                        ),
                        #[trigger] self.coeffs@[b],
                    ),
            decreases NUM_BANDS - band,
        {
            let filter = band_filter(band);
            let gain = gains[band];
            let made = design(
                filter,
                EQ_FREQUENCIES[band],
                gain,
                filter_q_milli(filter),
                self.sample_rate,
            );
            self.coeffs[band] = made;
            self.gains[band] = gain;
            band += 1;
        }
        proof {
            assert(self.gains@ =~= gains@);
        }
    }

    /// Switches the chain on or off. While it is off, packets pass
    /// unchanged.
    pub fn set_enabled(&mut self, enabled: bool)
        requires
            old(self).wf(),
        ensures
            final(self).wf(),
            final(self).active() == enabled,
            final(self).coefficients() == old(self).coefficients(),
            final(self).memory() == old(self).memory(),
            final(self).gain_bits() == old(self).gain_bits(),
            final(self).rate() == old(self).rate(),
            final(self).channel_count() == old(self).channel_count(),
            final(self).rest() == old(self).rest(),
    {
        self.enabled = enabled;
    }

    pub fn is_enabled(&self) -> (enabled: bool)
        ensures
            enabled == self.active(),
    {
        self.enabled
    }

    /// Puts every filter at rest, as after a seek.
    pub fn reset(&mut self)
        requires
            old(self).wf(),
        ensures
            final(self).wf(),
            forall|i: int|
                0 <= i < final(self).memory().len() ==> #[trigger] final(self).memory()[i] == old(
                    self,
                ).rest(),
            final(self).coefficients() == old(self).coefficients(),
            final(self).gain_bits() == old(self).gain_bits(),
            final(self).active() == old(self).active(),
            final(self).rate() == old(self).rate(),
            final(self).channel_count() == old(self).channel_count(),
            final(self).rest() == old(self).rest(),
    {
        let n = self.states.len();
        let rest = self.rest;
        let mut i: usize = 0;
        while i < n
            invariant
                i <= n,
                n == self.states@.len(),
                n == old(self).states@.len(),
                self.coeffs == old(self).coeffs,
                self.gains == old(self).gains,
                self.enabled == old(self).enabled,
                self.sample_rate == old(self).sample_rate,
                self.channels == old(self).channels,
                self.rest == rest,
                rest == old(self).rest,
                old(self).wf(),
                forall|k: int| 0 <= k < i ==> #[trigger] self.states@[k] == rest,
            decreases n - i,
        {
            self.states[i] = rest;
            i += 1;
        }
    }

    /// Sends a packet of interleaved samples through the chain, in place.
    ///
    /// While the chain is off the packet and the memories are left as they
    /// are. While it is on, each sample of a whole frame is widened by
    /// `widen`, passes the ten bands in order, and is narrowed again by
    /// `narrow`; `kernel` is one step of one filter: from coefficients, a
    /// memory and a sample to the new memory and the filtered sample. Each
    /// channel has memories of its own.
    pub fn process<T: Copy, U: Copy>(
        &mut self,
        samples: &mut [T],
        widen: impl Fn(T) -> U,
        kernel: impl Fn(C, S, U) -> (S, U),
        narrow: impl Fn(U) -> T,
    )
        requires
            old(self).wf(),
            forall|t: T| call_requires(widen, (t,)),
            forall|c: C, s: S, u: U| call_requires(kernel, (c, s, u)),
            forall|u: U| call_requires(narrow, (u,)),
        ensures
            final(self).wf(),
            final(self).coefficients() == old(self).coefficients(),
            final(self).gain_bits() == old(self).gain_bits(),
            final(self).active() == old(self).active(),
            final(self).rate() == old(self).rate(),
            final(self).channel_count() == old(self).channel_count(),
            final(self).rest() == old(self).rest(),
            final(samples)@.len() == old(samples)@.len(),
            !old(self).active() ==> final(samples)@ == old(samples)@ && final(self).memory() == old(
                self,
            ).memory(),
            old(self).active() ==> exists|taps: spec_fn(int, int) -> U, kept: spec_fn(int, int) -> S|
                #[trigger] filtered(
                    old(samples)@,
                    final(samples)@,
                    old(self).memory(),
                    final(self).memory(),
                    old(self).coefficients(),
                    old(self).channel_count() as int,
                    widen,
                    kernel,
                    narrow,
                    taps,
                    kept,
                ),
    {
        if !self.enabled {
            return ;
        }
        let channels = self.channels;
        let n = samples.len();
        let frames = super::channels::frames_of(n, channels);
        let ghost before = samples@;
        let ghost memory_before = self.states@;
        let ghost coeffs = self.coeffs@;
        let ghost rest = self.rest;
        let ghost mut taps: spec_fn(int, int) -> U = |j: int, b: int| vstd::pervasive::arbitrary();
        let ghost mut kept: spec_fn(int, int) -> S = |j: int, b: int| rest;
        if channels == 0 || frames == 0 {
            proof {
                assert(frames * channels == 0) by (nonlinear_arith)
                    requires
                        channels == 0 || frames == 0,
                ;
                assert(filtered(
                    before,
                    samples@,
                    memory_before,
                    self.states@,
                    coeffs,
                    channels as int,
                    widen,
                    kernel,
                    narrow,
                    taps,
                    kept,
                ));
                assert(self.memory() == self.states@);
                assert(old(self).memory() == memory_before);
                assert(old(self).coefficients() == coeffs);
                assert(old(self).channel_count() == channels);
                assert(exists|t: spec_fn(int, int) -> U, k: spec_fn(int, int) -> S|
                    #[trigger] filtered(
                        old(samples)@,
                        samples@,
                        old(self).memory(),
                        self.memory(),
                        old(self).coefficients(),
                        old(self).channel_count() as int,
                        widen,
                        kernel,
                        narrow,
                        t,
                        k,
                    ));
            }
            return ;
        }
        let mut f: usize = 0;
        let mut base: usize = 0;
        proof {
            reveal(samples_done);
            reveal(memory_at);
        }
        while f < frames
            invariant
                f <= frames,
                base == f * channels,
                base == 0 || base >= channels,
                channels > 0,
                frames * channels <= n,
                n == samples@.len(),
                n == before.len(),
                self.coeffs@ == coeffs,
                coeffs.len() == NUM_BANDS,
                self.gains == old(self).gains,
                self.enabled == old(self).enabled,
                self.sample_rate == old(self).sample_rate,
                self.channels == channels,
                self.rest == old(self).rest,
                self.states@.len() == channels * NUM_BANDS,
                memory_before.len() == channels * NUM_BANDS,
                forall|t: T| call_requires(widen, (t,)),
                forall|c: C, s: S, u: U| call_requires(kernel, (c, s, u)),
                forall|u: U| call_requires(narrow, (u,)),
                samples_done(
                    before,
                    samples@,
                    memory_before,
                    coeffs,
                    channels as int,
                    widen,
                    kernel,
                    narrow,
                    taps,
                    kept,
                    base as int,
                ),
                memory_at(memory_before, self.states@, channels as int, kept, base as int, 0),
            decreases frames - f,
        {
            proof {
                assert((f + 1) * channels <= frames * channels) by (nonlinear_arith)
                    requires
                        f + 1 <= frames,
                        channels > 0,
                ;
                assert((f + 1) * channels == f * channels + channels) by (nonlinear_arith);
            }
            let mut c: usize = 0;
            while c < channels
                invariant
                    c <= channels,
                    base == 0 || base >= channels,
                    base + channels <= n,
                    n == samples@.len(),
                    n == before.len(),
                    self.coeffs@ == coeffs,
                    coeffs.len() == NUM_BANDS,
                    self.gains == old(self).gains,
                    self.enabled == old(self).enabled,
                    self.sample_rate == old(self).sample_rate,
                    self.channels == channels,
                    self.rest == old(self).rest,
                    self.states@.len() == channels * NUM_BANDS,
                    memory_before.len() == channels * NUM_BANDS,
                    forall|t: T| call_requires(widen, (t,)),
                    forall|c: C, s: S, u: U| call_requires(kernel, (c, s, u)),
                    forall|u: U| call_requires(narrow, (u,)),
                    samples_done(
                        before,
                        samples@,
                        memory_before,
                        coeffs,
                        channels as int,
                        widen,
                        kernel,
                        narrow,
                        taps,
                        kept,
                        base + c,
                    ),
                    memory_at(
                        memory_before,
                        self.states@,
                        channels as int,
                        kept,
                        base as int,
                        c as int,
                    ),
                decreases channels - c,
            {
                let idx = base + c;
                proof {
                    reveal(samples_done);
                    reveal(memory_at);
                }
                let input = widen(samples[idx]);
                let ghost earlier_taps = taps;
                let ghost earlier_kept = kept;
                let ghost states_before = self.states@;
                let ghost given: spec_fn(int) -> S = |b: int|
                    handed(memory_before, earlier_kept, channels as int, idx as int, b);
                proof {
                    taps = |j: int, b: int|
                        if j == idx && b == 0 {
                            input
                        } else {
                            earlier_taps(j, b)
                        };
                    assert forall|b: int| 0 <= b < NUM_BANDS implies self.states@[cell(c as int, b)]
                        == #[trigger] given(b) by {
                        assert(self.states@[cell(c as int, b)] == handed(
                            memory_before,
                            earlier_kept,
                            channels as int,
                            base + c,
                            b,
                        ));
                    }
                }
                let ghost middle_taps = taps;
                let (output, Ghost(new_taps), Ghost(new_kept)) = run_bands(
                    &self.coeffs,
                    &mut self.states,
                    c,
                    channels,
                    input,
                    &kernel,
                    Ghost(idx as int),
                    Ghost(taps),
                    Ghost(kept),
                    Ghost(given),
                );
                let ghost samples_before = samples@;
                samples[idx] = narrow(output);
                proof {
                    taps = new_taps;
                    kept = new_kept;
                    lemma_progress_step(
                        before,
                        samples_before,
                        samples@,
                        memory_before,
                        states_before,
                        self.states@,
                        coeffs,
                        channels as int,
                        widen,
                        kernel,
                        narrow,
                        earlier_taps,
                        earlier_kept,
                        taps,
                        kept,
                        base as int,
                        c as int,
                    );
                }
                c += 1;
            }
            proof {
                lemma_memory_wraps(
                    memory_before,
                    self.states@,
                    channels as int,
                    kept,
                    base as int,
                );
            }
            base += channels;
            f += 1;
        }
        proof {
            lemma_progress_done(
                before,
                samples@,
                memory_before,
                self.states@,
                coeffs,
                channels as int,
                widen,
                kernel,
                narrow,
                taps,
                kept,
                base as int,
            );
            assert(self.memory() == self.states@);
            assert(old(self).memory() == memory_before);
            assert(old(self).coefficients() == coeffs);
            assert(old(self).channel_count() == channels);
            assert(exists|t: spec_fn(int, int) -> U, k: spec_fn(int, int) -> S|
                #[trigger] filtered(
                    old(samples)@,
                    samples@,
                    old(self).memory(),
                    self.memory(),
                    old(self).coefficients(),
                    old(self).channel_count() as int,
                    widen,
                    kernel,
                    narrow,
                    t,
                    k,
                ));
        }
    }
}

/// The first `done` samples of a packet are filtered, the rest untouched.
#[verifier::opaque]
pub closed spec fn samples_done<T, U, C, S, W: Fn(T) -> U, K: Fn(C, S, U) -> (S, U), N: Fn(U) -> T>(
    before: Seq<T>,
    now: Seq<T>,
    memory_before: Seq<S>,
    coeffs: Seq<C>,
    channels: int,
    widen: W,
    kernel: K,
    narrow: N,
    taps: spec_fn(int, int) -> U,
    kept: spec_fn(int, int) -> S,
    done: int,
) -> bool {
    &&& now.len() == before.len()
    &&& forall|j: int| done <= j < before.len() ==> #[trigger] now[j] == before[j]
    &&& forall|j: int| 0 <= j < done ==> call_ensures(widen, (before[j],), #[trigger] taps(j, 0))
    &&& forall|j: int, b: int|
        0 <= j < done && 0 <= b < NUM_BANDS ==> call_ensures(
            kernel,
            (coeffs[b], handed(memory_before, kept, channels, j, b), taps(j, b)),
            (#[trigger] kept(j, b), taps(j, b + 1)),
        )
    &&& forall|j: int|
        0 <= j < done ==> call_ensures(narrow, (taps(j, NUM_BANDS as int),), #[trigger] now[j])
}

/// The memories while the frame at `base` is being filtered: the first `c`
/// channels hold what their bands kept from this frame, the others what
/// they are handed for it.
#[verifier::opaque]
pub closed spec fn memory_at<S>(
    memory_before: Seq<S>,
    memory_now: Seq<S>,
    channels: int,
    kept: spec_fn(int, int) -> S,
    base: int,
    c: int,
) -> bool {
    forall|d: int, b: int|
        0 <= d < channels && 0 <= b < NUM_BANDS ==> memory_now[#[trigger] cell(d, b)] == if d < c {
            kept(base + d, b)
        } else {
            handed(memory_before, kept, channels, base + d, b)
        }
}

/// One sample through the ten bands, for the channel `channel`.
fn run_bands<C: Copy, S: Copy, U: Copy, K: Fn(C, S, U) -> (S, U)>(
    coeffs: &Vec<C>,
    states: &mut Vec<S>,
    channel: usize,
    channels: usize,
    input: U,
    kernel: &K,
    Ghost(idx): Ghost<int>,
    Ghost(taps): Ghost<spec_fn(int, int) -> U>,
    Ghost(kept): Ghost<spec_fn(int, int) -> S>,
    Ghost(given): Ghost<spec_fn(int) -> S>,
) -> (r: (U, Ghost<spec_fn(int, int) -> U>, Ghost<spec_fn(int, int) -> S>))
    requires
        coeffs@.len() == NUM_BANDS,
        old(states)@.len() == channels * NUM_BANDS,
        channel < channels,
        forall|c: C, s: S, u: U| call_requires(*kernel, (c, s, u)),
        taps(idx, 0) == input,
        forall|b: int| 0 <= b < NUM_BANDS ==> old(states)@[cell(channel as int, b)] == #[trigger] given(b),
    ensures
        final(states)@.len() == old(states)@.len(),
        forall|d: int, b: int|
            0 <= d < channels && 0 <= b < NUM_BANDS && d != channel ==> final(states)@[#[trigger] cell(
                d,
                b,
            )] == old(states)@[cell(d, b)],
        forall|b: int|
            0 <= b < NUM_BANDS ==> final(states)@[cell(channel as int, b)] == #[trigger] r.2@(idx, b),
        forall|b: int|
            0 <= b < NUM_BANDS ==> call_ensures(
                *kernel,
                (coeffs@[b], given(b), r.1@(idx, b)),
                (#[trigger] r.2@(idx, b), r.1@(idx, b + 1)),
            ),
        r.0 == r.1@(idx, NUM_BANDS as int),
        r.1@(idx, 0) == input,
        forall|j: int, b: int| j != idx ==> #[trigger] r.1@(j, b) == taps(j, b),
        forall|j: int, b: int| j != idx ==> #[trigger] r.2@(j, b) == kept(j, b),
{
    let ghost mut taps = taps;
    let ghost mut kept = kept;
    let ghost first_taps = taps;
    let ghost first_kept = kept;
    let mut u = input;
    let mut band: usize = 0;
    let len = states.len();
    proof {
        assert(channel * NUM_BANDS + NUM_BANDS <= channels * NUM_BANDS) by (nonlinear_arith)
            requires
                channel < channels,
        ;
    }
    while band < NUM_BANDS
        invariant
            band <= NUM_BANDS,
            coeffs@.len() == NUM_BANDS,
            states@.len() == channels * NUM_BANDS,
            states@.len() == old(states)@.len(),
            channel * NUM_BANDS + NUM_BANDS <= len,
            len == states@.len(),
            forall|c: C, s: S, u: U| call_requires(*kernel, (c, s, u)),
            u == taps(idx, band as int),
            taps(idx, 0) == input,
            forall|d: int, b: int|
                0 <= d < channels && 0 <= b < NUM_BANDS && d != channel ==> states@[#[trigger] cell(
                    d,
                    b,
                )] == old(states)@[cell(d, b)],
            forall|b: int|
                band <= b < NUM_BANDS ==> states@[cell(channel as int, b)] == #[trigger] given(b),
            forall|b: int|
                0 <= b < band ==> states@[cell(channel as int, b)] == #[trigger] kept(idx, b),
            forall|b: int|
                0 <= b < band ==> call_ensures(
                    *kernel,
                    (coeffs@[b], given(b), taps(idx, b)),
                    (#[trigger] kept(idx, b), taps(idx, b + 1)),
                ),
            forall|j: int, b: int| j != idx ==> #[trigger] taps(j, b) == first_taps(j, b),
            forall|j: int, b: int| j != idx ==> #[trigger] kept(j, b) == first_kept(j, b),
        decreases NUM_BANDS - band,
    {
        let at = channel * NUM_BANDS + band;
        proof {
            assert(at == cell(channel as int, band as int));
            assert(states@[cell(channel as int, band as int)] == given(band as int));
        }
        let (memory, y) = kernel(coeffs[band], states[at], u);
        let ghost states_before = states@;
        let ghost earlier_taps = taps;
        let ghost earlier_kept = kept;
        states[at] = memory;
        proof {
            taps = |j: int, b: int|
                if j == idx && b == band + 1 {
                    y
                } else {
                    earlier_taps(j, b)
                };
            kept = |j: int, b: int|
                if j == idx && b == band {
                    memory
                } else {
                    earlier_kept(j, b)
                };
            assert forall|d: int, b: int|
                0 <= d < channels && 0 <= b < NUM_BANDS && d != channel implies states@[#[trigger] cell(
                d,
                b,
            )] == old(states)@[cell(d, b)] by {
                assert(cell(d, b) != at);
                assert(states_before[cell(d, b)] == old(states)@[cell(d, b)]);
            }
            assert forall|b: int| band + 1 <= b < NUM_BANDS implies states@[cell(channel as int, b)]
                == #[trigger] given(b) by {
                assert(cell(channel as int, b) != at);
                assert(states_before[cell(channel as int, b)] == given(b));
            }
            assert forall|b: int| 0 <= b < band + 1 implies states@[cell(channel as int, b)]
                == #[trigger] kept(idx, b) by {
                if b < band {
                    assert(cell(channel as int, b) != at);
                    assert(states_before[cell(channel as int, b)] == earlier_kept(idx, b));
                }
            }
            assert forall|b: int| 0 <= b < band + 1 implies call_ensures(
                *kernel,
                (coeffs@[b], given(b), taps(idx, b)),
                (#[trigger] kept(idx, b), taps(idx, b + 1)),
            ) by {
                assert(taps(idx, b) == earlier_taps(idx, b));
                if b < band {
                    assert(kept(idx, b) == earlier_kept(idx, b));
                    assert(taps(idx, b + 1) == earlier_taps(idx, b + 1));
                }
            }
            assert forall|j: int, b: int| j != idx implies #[trigger] taps(j, b) == first_taps(
                j,
                b,
            ) by {
                assert(taps(j, b) == earlier_taps(j, b));
            }
            assert forall|j: int, b: int| j != idx implies #[trigger] kept(j, b) == first_kept(
                j,
                b,
            ) by {
                assert(kept(j, b) == earlier_kept(j, b));
            }
        }
        u = y;
        band += 1;
    }
    (u, Ghost(taps), Ghost(kept))
}

/// One more sample is done.
proof fn lemma_progress_step<T, U, C, S, W: Fn(T) -> U, K: Fn(C, S, U) -> (S, U), N: Fn(U) -> T>(
    before: Seq<T>,
    samples_then: Seq<T>,
    samples_now: Seq<T>,
    memory_before: Seq<S>,
    memory_then: Seq<S>,
    memory_now: Seq<S>,
    coeffs: Seq<C>,
    channels: int,
    widen: W,
    kernel: K,
    narrow: N,
    taps_then: spec_fn(int, int) -> U,
    kept_then: spec_fn(int, int) -> S,
    taps: spec_fn(int, int) -> U,
    kept: spec_fn(int, int) -> S,
    base: int,
    c: int,
)
    requires
        0 <= c < channels,
        0 <= base,
        base == 0 || base >= channels,
        base + channels <= before.len(),
        coeffs.len() == NUM_BANDS,
        memory_then.len() == channels * NUM_BANDS,
        memory_now.len() == memory_then.len(),
        samples_done(
            before,
            samples_then,
            memory_before,
            coeffs,
            channels,
            widen,
            kernel,
            narrow,
            taps_then,
            kept_then,
            base + c,
        ),
        memory_at(memory_before, memory_then, channels, kept_then, base, c),
        samples_now.len() == samples_then.len(),
        forall|j: int|
            0 <= j < samples_then.len() && j != base + c ==> #[trigger] samples_now[j]
                == samples_then[j],
        call_ensures(widen, (samples_then[base + c],), taps(base + c, 0)),
        call_ensures(narrow, (taps(base + c, NUM_BANDS as int),), samples_now[base + c]),
        forall|d: int, b: int|
            0 <= d < channels && 0 <= b < NUM_BANDS && d != c ==> memory_now[#[trigger] cell(d, b)]
                == memory_then[cell(d, b)],
        forall|b: int|
            0 <= b < NUM_BANDS ==> memory_now[cell(c, b)] == #[trigger] kept(base + c, b),
        forall|b: int|
            0 <= b < NUM_BANDS ==> call_ensures(
                kernel,
                (
                    coeffs[b],
                    handed(memory_before, kept_then, channels, base + c, b),
                    taps(base + c, b),
                ),
                (#[trigger] kept(base + c, b), taps(base + c, b + 1)),
            ),
        forall|j: int, b: int| j != base + c ==> #[trigger] taps(j, b) == taps_then(j, b),
        forall|j: int, b: int| j != base + c ==> #[trigger] kept(j, b) == kept_then(j, b),
    ensures
        samples_done(
            before,
            samples_now,
            memory_before,
            coeffs,
            channels,
            widen,
            kernel,
            narrow,
            taps,
            kept,
            base + c + 1,
        ),
        memory_at(memory_before, memory_now, channels, kept, base, c + 1),
{
    reveal(samples_done);
    reveal(memory_at);
    let idx = base + c;
    assert forall|j: int, b: int| 0 <= j < idx + channels implies handed(
        memory_before,
        kept,
        channels,
        j,
        b,
    ) == handed(memory_before, kept_then, channels, j, b) by {
        if j >= channels {
            assert(kept(j - channels, b) == kept_then(j - channels, b));
        }
    }
    assert forall|j: int| idx + 1 <= j < before.len() implies #[trigger] samples_now[j]
        == before[j] by {
        assert(samples_now[j] == samples_then[j]);
    }
    assert(samples_then[idx] == before[idx]);
    assert forall|j: int| 0 <= j < idx + 1 implies call_ensures(
        widen,
        (before[j],),
        #[trigger] taps(j, 0),
    ) by {
        if j < idx {
            assert(taps(j, 0) == taps_then(j, 0));
        }
    }
    assert forall|j: int, b: int| 0 <= j < idx + 1 && 0 <= b < NUM_BANDS implies call_ensures(
        kernel,
        (coeffs[b], handed(memory_before, kept, channels, j, b), taps(j, b)),
        (#[trigger] kept(j, b), taps(j, b + 1)),
    ) by {
        if j < idx {
            assert(kept(j, b) == kept_then(j, b));
            assert(taps(j, b) == taps_then(j, b));
            assert(taps(j, b + 1) == taps_then(j, b + 1));
        }
    }
    assert forall|j: int| 0 <= j < idx + 1 implies call_ensures(
        narrow,
        (taps(j, NUM_BANDS as int),),
        #[trigger] samples_now[j],
    ) by {
        if j < idx {
            assert(samples_now[j] == samples_then[j]);
            assert(taps(j, NUM_BANDS as int) == taps_then(j, NUM_BANDS as int));
        }
    }
    assert forall|d: int, b: int| 0 <= d < channels && 0 <= b < NUM_BANDS implies memory_now[#[trigger] cell(
        d,
        b,
    )] == if d < c + 1 {
        kept(base + d, b)
    } else {
        handed(memory_before, kept, channels, base + d, b)
    } by {
        if d != c {
            assert(memory_now[cell(d, b)] == memory_then[cell(d, b)]);
            if d < c {
                assert(kept(base + d, b) == kept_then(base + d, b));
            }
        }
    }
}

/// A frame is done: the next one starts with what the bands kept.
proof fn lemma_memory_wraps<S>(
    memory_before: Seq<S>,
    memory_now: Seq<S>,
    channels: int,
    kept: spec_fn(int, int) -> S,
    base: int,
)
    requires
        channels > 0,
        0 <= base,
        memory_at(memory_before, memory_now, channels, kept, base, channels),
    ensures
        memory_at(memory_before, memory_now, channels, kept, base + channels, 0),
{
    reveal(memory_at);
    assert forall|d: int, b: int| 0 <= d < channels && 0 <= b < NUM_BANDS implies memory_now[#[trigger] cell(
        d,
        b,
    )] == handed(memory_before, kept, channels, base + channels + d, b) by {
        assert(memory_now[cell(d, b)] == kept(base + d, b));
        assert(base + channels + d - channels == base + d);
    }
}

/// All whole frames are done: the packet is filtered.
proof fn lemma_progress_done<T, U, C, S, W: Fn(T) -> U, K: Fn(C, S, U) -> (S, U), N: Fn(U) -> T>(
    before: Seq<T>,
    now: Seq<T>,
    memory_before: Seq<S>,
    memory_now: Seq<S>,
    coeffs: Seq<C>,
    channels: int,
    widen: W,
    kernel: K,
    narrow: N,
    taps: spec_fn(int, int) -> U,
    kept: spec_fn(int, int) -> S,
    base: int,
)
    requires
        channels > 0,
        base == whole_samples(before.len() as int, channels),
        base == 0 || base >= channels,
        samples_done(
            before,
            now,
            memory_before,
            coeffs,
            channels,
            widen,
            kernel,
            narrow,
            taps,
            kept,
            base,
        ),
        memory_at(memory_before, memory_now, channels, kept, base, 0),
    ensures
        filtered(
            before,
            now,
            memory_before,
            memory_now,
            coeffs,
            channels,
            widen,
            kernel,
            narrow,
            taps,
            kept,
        ),
{
    reveal(samples_done);
    reveal(memory_at);
    assert forall|c: int, b: int| 0 <= c < channels && 0 <= b < NUM_BANDS implies memory_now[#[trigger] cell(
        c,
        b,
    )] == if base == 0 {
        memory_before[cell(c, b)]
    } else {
        kept(base - channels + c, b)
    } by {
        assert(memory_now[cell(c, b)] == handed(memory_before, kept, channels, base + c, b));
    }
}

/// Whatever `narrow` promises of all its results holds of every sample of
/// a whole frame that has passed the chain: where `narrow` clamps, no
/// filtered sample lies outside the clamp.
pub proof fn lemma_filtered_samples_are_narrowed<
    T,
    U,
    C,
    S,
    W: Fn(T) -> U,
    K: Fn(C, S, U) -> (S, U),
    N: Fn(U) -> T,
>(
    before: Seq<T>,
    after: Seq<T>,
    memory_before: Seq<S>,
    memory_after: Seq<S>,
    coeffs: Seq<C>,
    channels: int,
    widen: W,
    kernel: K,
    narrow: N,
    taps: spec_fn(int, int) -> U,
    kept: spec_fn(int, int) -> S,
    promise: spec_fn(T) -> bool,
)
    requires
        filtered(
            before,
            after,
            memory_before,
            memory_after,
            coeffs,
            channels,
            widen,
            kernel,
            narrow,
            taps,
            kept,
        ),
        forall|u: U, y: T| #[trigger] call_ensures(narrow, (u,), y) ==> promise(y),
    ensures
        forall|j: int|
            0 <= j < whole_samples(before.len() as int, channels) ==> promise(#[trigger] after[j]),
{
}

/// Whatever `kernel` promises of every memory it returns, and holds of the
/// memories before a packet, holds of the memories after it: where one
/// step of a filter keeps its memory finite, the memories stay finite.
pub proof fn lemma_memories_come_from_the_kernel<
    T,
    U,
    C,
    S,
    W: Fn(T) -> U,
    K: Fn(C, S, U) -> (S, U),
    N: Fn(U) -> T,
>(
    before: Seq<T>,
    after: Seq<T>,
    memory_before: Seq<S>,
    memory_after: Seq<S>,
    coeffs: Seq<C>,
    channels: int,
    widen: W,
    kernel: K,
    narrow: N,
    taps: spec_fn(int, int) -> U,
    kept: spec_fn(int, int) -> S,
    promise: spec_fn(S) -> bool,
)
    requires
        channels >= 0,
        filtered(
            before,
            after,
            memory_before,
            memory_after,
            coeffs,
            channels,
            widen,
            kernel,
            narrow,
            taps,
            kept,
        ),
        forall|c: C, s: S, u: U, r: (S, U)|
            #[trigger] call_ensures(kernel, (c, s, u), r) ==> promise(r.0),
        forall|c: int, b: int|
            0 <= c < channels && 0 <= b < NUM_BANDS ==> promise(memory_before[#[trigger] cell(c, b)]),
    ensures
        forall|c: int, b: int|
            0 <= c < channels && 0 <= b < NUM_BANDS ==> promise(memory_after[#[trigger] cell(c, b)]),
{
    let total = whole_samples(before.len() as int, channels);
    assert forall|c: int, b: int| 0 <= c < channels && 0 <= b < NUM_BANDS implies promise(
        memory_after[#[trigger] cell(c, b)],
    ) by {
        if total != 0 {
            let frames = frame_count(before.len() as int, channels);
            assert(frames >= 1) by {
                if frames <= 0 {
                    assert(frames * channels <= 0) by (nonlinear_arith)
                        requires
                            frames <= 0,
                            channels >= 0,
                    ;
                    vstd::arithmetic::div_mod::lemma_div_pos_is_pos(
                        before.len() as int,
                        channels,
                    );
                    assert(frames * channels == 0) by (nonlinear_arith)
                        requires
                            frames == 0,
                    ;
                }
            }
            assert(total >= channels) by (nonlinear_arith)
                requires
                    total == frames * channels,
                    frames >= 1,
                    channels >= 0,
            ;
            let j = total - channels + c;
            assert(0 <= j < total);
            assert(call_ensures(
                kernel,
                (coeffs[b], handed(memory_before, kept, channels, j, b), taps(j, b)),
                (kept(j, b), taps(j, b + 1)),
            ));
        }
    }
}

} // verus!
