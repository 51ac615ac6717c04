//! The fade envelope: a per-sample gain that ramps playback in and out.
//!
//! Gain is counted in ticks. For an output of `rate` samples per second on
//! `channels` channels the full gain is `3 * rate * channels` ticks, a
//! fade-in adds 15 ticks per sample and a fade-out takes 20 away, so that a
//! ramp between silence and full gain lasts exactly 200 ms on the way in
//! and 150 ms on the way out. The gain of a sample is `gain / full`; the
//! multiplication itself is the caller's.

use vstd::prelude::*;
use super::volume::Volume;

verus! {

/// Length of a fade-out in milliseconds.
pub const FADE_OUT_MS: u64 = 150;

/// Length of a fade-in in milliseconds.
pub const FADE_IN_MS: u64 = 200;

/// Ticks a fade-in adds per sample.
pub const FADE_IN_STEP: u64 = 15;

/// Ticks a fade-out removes per sample.
pub const FADE_OUT_STEP: u64 = 20;

/// Ticks of full gain per sample of one second of output.
pub const TICKS_PER_SAMPLE: u64 = 3;

/// The largest full gain: every rate and channel count fits below it.
pub const MAX_FULL: u64 = 0x3_0000_0000_0000;

/// What the engine does once a fade-out has reached silence.
#[derive(Debug, Clone, PartialEq, Eq)]
pub enum FadeAction {
    Pause,
    Stop,
    PlayNext { source: String },
}

/// The envelope's state.
#[derive(Debug, Clone, PartialEq, Eq)]
pub enum FadeState {
    /// Full gain, no ramp.
    Steady,
    /// Ramping up: `gain` of `full` ticks now, `step` more with each sample.
    FadingIn { gain: u64, step: u64, full: u64 },
    /// Ramping down to silence, after which `action` is due.
    FadingOut { gain: u64, step: u64, full: u64, action: FadeAction },
}

/// Ticks of full gain for an output format; at least one.
pub open spec fn full_scale(sample_rate: u32, channels: u16) -> int {
    if sample_rate == 0 || channels == 0 {
        1
    } else {
        TICKS_PER_SAMPLE * sample_rate * channels
    }
}

/// `gain` of `from` ticks, expressed in a scale of `to` ticks (rounded down).
pub open spec fn rescaled(gain: int, from: int, to: int) -> int {
    if from == to {
        gain
    } else {
        gain * to / from
    }
}

impl FadeAction {
    /// The action without its payload's representation: two actions are
    /// alike when they are the same kind and name the same source.
    pub open spec fn same_as(&self, other: &FadeAction) -> bool {
        match (self, other) {
            (FadeAction::Pause, FadeAction::Pause) => true,
            (FadeAction::Stop, FadeAction::Stop) => true,
            (FadeAction::PlayNext { source: a }, FadeAction::PlayNext { source: b }) => a@ == b@,
            _ => false,
        }
    }
}

impl FadeState {
    /// Gains lie between silence and full, and a ramp moves.
    pub open spec fn wf(&self) -> bool {
        match *self {
            FadeState::Steady => true,
            FadeState::FadingIn { gain, step, full } => 1 <= full <= MAX_FULL && gain <= full && 1
                <= step <= MAX_FULL,
            FadeState::FadingOut { gain, step, full, .. } => 1 <= full <= MAX_FULL && gain <= full
                && 1 <= step <= MAX_FULL,
        }
    }

    /// Ticks of full gain in this state's scale.
    pub open spec fn full(&self) -> int {
        match *self {
            FadeState::Steady => 1,
            FadeState::FadingIn { full, .. } => full as int,
            FadeState::FadingOut { full, .. } => full as int,
        }
    }

    /// The gain, in ticks, of the sample that comes `k` samples from now.
    pub open spec fn gain_at(&self, k: int) -> int {
        match *self {
            FadeState::Steady => 1,
            FadeState::FadingIn { gain, step, full } => if gain + k * step >= full {
                full as int
            } else {
                gain + k * step
            },
            FadeState::FadingOut { gain, step, .. } => if gain - k * step <= 0 {
                0
            } else {
                gain - k * step
            },
        }
    }

    /// The state after `n` samples have been scaled. A fade-in that has
    /// reached full gain ends; a fade-out stays, at silence, until its
    /// action is taken.
    pub open spec fn advanced(self, n: int) -> FadeState {
        match self {
            FadeState::Steady => FadeState::Steady,
            FadeState::FadingIn { gain, step, full } => if self.gain_at(n) >= full {
                FadeState::Steady
            } else {
                FadeState::FadingIn { gain: self.gain_at(n) as u64, step, full }
            },
            FadeState::FadingOut { gain, step, full, action } => FadeState::FadingOut {
                gain: self.gain_at(n) as u64,
                step,
                full,
                action,
            },
        }
    }

    /// A fade-out that has reached silence.
    pub open spec fn completed(&self) -> bool {
        match *self {
            FadeState::FadingOut { gain, .. } => gain == 0,
            _ => false,
        }
    }

    /// The gain now, in a scale of `full` ticks: full when nothing fades.
    pub open spec fn gain_in(&self, full: int) -> int {
        match *self {
            FadeState::Steady => full,
            FadeState::FadingIn { gain, full: own, .. } => rescaled(gain as int, own as int, full),
            FadeState::FadingOut { gain, full: own, .. } => rescaled(gain as int, own as int, full),
        }
    }

    /// The gain now, in a scale of `full` ticks.
    pub fn current_gain(&self, full: u64) -> (gain: u64)
        requires
            self.wf(),
            1 <= full <= MAX_FULL,
        ensures
            gain == self.gain_in(full as int),
            gain <= full,
    {
        match self {
            FadeState::Steady => full,
            FadeState::FadingIn { gain, full: own, .. } => rescale(*gain, *own, full),
            FadeState::FadingOut { gain, full: own, .. } => rescale(*gain, *own, full),
        }
    }

    /// A fade-in from silence for the given output format.
    pub fn fade_in(sample_rate: u32, channels: u16) -> (fade: FadeState)
        ensures
            fade == (FadeState::FadingIn {
                gain: 0,
                step: FADE_IN_STEP,
                full: full_scale(sample_rate, channels) as u64,
            }),
            fade.wf(),
    {
        FadeState::FadingIn { gain: 0, step: FADE_IN_STEP, full: full_ticks(sample_rate, channels) }
    }

    /// A fade-in that starts at the gain `current` has now: the reversal of
    /// a fade-out.
    pub fn fade_in_from(current: &FadeState, sample_rate: u32, channels: u16) -> (fade: FadeState)
        requires
            current.wf(),
        ensures
            fade == (FadeState::FadingIn {
                gain: current.gain_in(full_scale(sample_rate, channels)) as u64,
                step: FADE_IN_STEP,
                full: full_scale(sample_rate, channels) as u64,
            }),
            fade.wf(),
    {
        let full = full_ticks(sample_rate, channels);
        FadeState::FadingIn { gain: current.current_gain(full), step: FADE_IN_STEP, full }
    }

    /// A fade-out that starts at the gain `current` has now and ends in
    /// `action`.
    pub fn fade_out(
        current: &FadeState,
        sample_rate: u32,
        channels: u16,
        action: FadeAction,
    ) -> (fade: FadeState)
        requires
            current.wf(),
        ensures
            fade == (FadeState::FadingOut {
                gain: current.gain_in(full_scale(sample_rate, channels)) as u64,
                step: FADE_OUT_STEP,
                full: full_scale(sample_rate, channels) as u64,
                action,
            }),
            fade.wf(),
    {
        let full = full_ticks(sample_rate, channels);
        FadeState::FadingOut { gain: current.current_gain(full), step: FADE_OUT_STEP, full, action }
    }

    /// Whether a fade-out is under way that ends in a pause.
    pub fn is_pausing(&self) -> (pausing: bool)
        ensures
            pausing == (self matches FadeState::FadingOut { action: FadeAction::Pause, .. }),
    {
        match self {
            FadeState::FadingOut { action: FadeAction::Pause, .. } => true,
            _ => false,
        }
    }

    /// Ends the fade and hands out the action of a fade-out.
    pub fn take_action(self) -> (action: Option<FadeAction>)
        ensures
            action == match self {
                FadeState::FadingOut { action, .. } => Some(action),
                _ => None,
            },
    {
        match self {
            FadeState::FadingOut { action, .. } => Some(action),
            _ => None,
        }
    }
}

/// Computes the full gain of an output format.
pub fn full_ticks(sample_rate: u32, channels: u16) -> (full: u64)
    ensures
        full == full_scale(sample_rate, channels),
        1 <= full <= MAX_FULL,
{
    if sample_rate == 0 || channels == 0 {
        1
    } else {
        assert(TICKS_PER_SAMPLE * sample_rate * channels <= MAX_FULL) by (nonlinear_arith)
            requires
                sample_rate <= 0xffff_ffff,
                channels <= 0xffff,
                TICKS_PER_SAMPLE == 3,
                MAX_FULL == 0x3_0000_0000_0000,
        ;
        assert(TICKS_PER_SAMPLE * sample_rate * channels >= 1) by (nonlinear_arith)
            requires
                sample_rate >= 1,
                channels >= 1,
                TICKS_PER_SAMPLE == 3,
        ;
        assert(TICKS_PER_SAMPLE * sample_rate <= 0x3_0000_0000) by (nonlinear_arith)
            requires
                sample_rate <= 0xffff_ffff,
                TICKS_PER_SAMPLE == 3,
        ;
        TICKS_PER_SAMPLE * (sample_rate as u64) * (channels as u64)
    }
}

/// Expresses `gain` of `from` ticks in a scale of `to` ticks.
fn rescale(gain: u64, from: u64, to: u64) -> (r: u64)
    requires
        gain <= from,
        1 <= from <= MAX_FULL,
        1 <= to <= MAX_FULL,
    ensures
        r == rescaled(gain as int, from as int, to as int),
        r <= to,
{
    if from == to {
        gain
    } else {
        assert(gain * to <= from * to) by (nonlinear_arith)
            requires
                gain <= from,
                to >= 0,
        ;
        assert(from * to <= MAX_FULL * MAX_FULL) by (nonlinear_arith)
            requires
                from <= MAX_FULL,
                to <= MAX_FULL,
        ;
        assert((gain * to) / (from as int) <= to) by (nonlinear_arith)
            requires
                gain * to <= from * to,
                from >= 1,
                to >= 0,
                gain >= 0,
        ;
        let wide: u128 = (gain as u128) * (to as u128) / (from as u128);
        wide as u64
    }
}

/// Scales `samples` by the volume and the envelope and moves the envelope
/// on by as many samples. `scale` receives a sample, the volume's bits, the
/// gain of that sample in ticks and the ticks of full gain, and returns
/// the sample times `volume * gain / full`. Without a fade, and with the
/// volume at one, the samples are left as they are. The result tells that
/// a fade-out stands at silence: its action is due.
pub fn apply_volume_with_fade<T: Copy>(
    samples: &mut [T],
    volume: Volume,
    fade: &mut FadeState,
    scale: impl Fn(T, u32, u64, u64) -> T,
) -> (completed: bool)
    requires
        old(fade).wf(),
        forall|s: T, v: u32, g: u64, f: u64| call_requires(scale, (s, v, g, f)),
    ensures
        final(fade).wf(),
        final(samples)@.len() == old(samples)@.len(),
        *final(fade) == old(fade).advanced(old(samples)@.len() as int),
        completed == final(fade).completed(),
        *old(fade) is Steady && volume.is_unity() ==> final(samples)@ == old(samples)@,
        !(*old(fade) is Steady && volume.is_unity()) ==> forall|k: int|
            0 <= k < old(samples)@.len() ==> call_ensures(
                scale,
                (old(samples)@[k], volume@, old(fade).gain_at(k) as u64, old(fade).full() as u64),
                #[trigger] final(samples)@[k],
            ),
{
    let n = samples.len();
    let bits = volume.to_bits();
    match fade {
        FadeState::Steady => {
            if !volume.is_unity() {
                let mut k: usize = 0;
                while k < n
                    invariant
                        k <= n,
                        n == samples@.len(),
                        samples@.len() == old(samples)@.len(),
                        bits == volume@,
                        forall|s: T, v: u32, g: u64, f: u64| call_requires(scale, (s, v, g, f)),
                        forall|j: int| k <= j < n ==> samples@[j] == old(samples)@[j],
                        forall|j: int|
                            0 <= j < k ==> call_ensures(
                                scale,
                                (old(samples)@[j], bits, 1u64, 1u64),
                                #[trigger] samples@[j],
                            ),
                    decreases n - k,
                {
                    samples[k] = scale(samples[k], bits, 1, 1);
                    k += 1;
                }
            }
            false
        },
        FadeState::FadingIn { gain, step, full } => {
            let ghost before = FadeState::FadingIn { gain: *gain, step: *step, full: *full };
            let mut g: u64 = *gain;
            let mut k: usize = 0;
            while k < n
                invariant
                    k <= n,
                    n == samples@.len(),
                    samples@.len() == old(samples)@.len(),
                    bits == volume@,
                    before.wf(),
                    before == (FadeState::FadingIn { gain: *gain, step: *step, full: *full }),
                    g == before.gain_at(k as int),
                    forall|s: T, v: u32, g: u64, f: u64| call_requires(scale, (s, v, g, f)),
                    forall|j: int| k <= j < n ==> samples@[j] == old(samples)@[j],
                    forall|j: int|
                        0 <= j < k ==> call_ensures(
                            scale,
                            (old(samples)@[j], bits, before.gain_at(j) as u64, *full),
                            #[trigger] samples@[j],
                        ),
                decreases n - k,
            {
                samples[k] = scale(samples[k], bits, g, *full);
                proof {
                    lemma_ramp_step(*gain as int, *step as int, k as int);
                }
                g = if g + *step >= *full {
                    *full
                } else {
                    g + *step
                };
                k += 1;
            }
            if g >= *full {
                *fade = FadeState::Steady;
            } else {
                *gain = g;
            }
            false
        },
        FadeState::FadingOut { gain, step, full, action } => {
            let ghost before = FadeState::FadingOut {
                gain: *gain,
                step: *step,
                full: *full,
                action: *action,
            };
            let mut g: u64 = *gain;
            let mut k: usize = 0;
            while k < n
                invariant
                    k <= n,
                    n == samples@.len(),
                    samples@.len() == old(samples)@.len(),
                    bits == volume@,
                    before.wf(),
                    before == (FadeState::FadingOut {
                        gain: *gain,
                        step: *step,
                        full: *full,
                        action: *action,
                    }),
                    g == before.gain_at(k as int),
                    forall|s: T, v: u32, g: u64, f: u64| call_requires(scale, (s, v, g, f)),
                    forall|j: int| k <= j < n ==> samples@[j] == old(samples)@[j],
                    forall|j: int|
                        0 <= j < k ==> call_ensures(
                            scale,
                            (old(samples)@[j], bits, before.gain_at(j) as u64, *full),
                            #[trigger] samples@[j],
                        ),
                decreases n - k,
            {
                samples[k] = scale(samples[k], bits, g, *full);
                proof {
                    lemma_ramp_step(*gain as int, *step as int, k as int);
                }
                g = if g <= *step {
                    0
                } else {
                    g - *step
                };
                k += 1;
            }
            *gain = g;
            g == 0
        },
    }
}

/// One more sample moves a ramp by one more step.
proof fn lemma_ramp_step(gain: int, step: int, k: int)
    ensures
        gain + (k + 1) * step == gain + k * step + step,
        gain - (k + 1) * step == gain - k * step - step,
{
    assert((k + 1) * step == k * step + step) by (nonlinear_arith);
}


/// The gain of every sample lies between silence and full gain, and the
/// envelope stays well formed as it moves.
pub proof fn lemma_gain_within_scale(fade: FadeState, k: int)
    requires
        fade.wf(),
        k >= 0,
    ensures
        0 <= fade.gain_at(k) <= fade.full(),
        fade.advanced(k).wf(),
{
    match fade {
        FadeState::Steady => {},
        FadeState::FadingIn { gain, step, full } => {
            assert(k * step >= 0) by (nonlinear_arith)
                requires
                    k >= 0,
                    step >= 0,
            ;
        },
        FadeState::FadingOut { gain, step, full, .. } => {
            assert(k * step >= 0) by (nonlinear_arith)
                requires
                    k >= 0,
                    step >= 0,
            ;
        },
    }
}

/// A fade-out stands at silence exactly when its steps have used up the
/// gain it started from, and from then on every sample is silent.
pub proof fn lemma_fade_out_ends_in_silence(fade: FadeState, n: int, later: int)
    requires
        fade.wf(),
        fade is FadingOut,
        0 <= n <= later,
    ensures
        fade.advanced(n).completed() <==> n * fade->FadingOut_step >= fade->FadingOut_gain,
        fade.advanced(n).completed() ==> fade.gain_at(later) == 0 && fade.advanced(
            later,
        ).completed(),
{
    let step = fade->FadingOut_step;
    assert(n * step <= later * step) by (nonlinear_arith)
        requires
            n <= later,
            step >= 0,
    ;
}

/// A fade-in from silence reaches full gain after exactly 200 ms of
/// samples: it has ended after `n` samples if and only if `n` samples last
/// 200 ms or more at the output's rate and channel count.
pub proof fn lemma_fade_in_lasts(sample_rate: u32, channels: u16, n: int)
    requires
        sample_rate > 0,
        channels > 0,
        n >= 0,
    ensures
        (FadeState::FadingIn {
            gain: 0,
            step: FADE_IN_STEP,
            full: full_scale(sample_rate, channels) as u64,
        }).advanced(n) is Steady <==> n * 1000 >= FADE_IN_MS * sample_rate * channels,
{
    let full = full_scale(sample_rate, channels);
    assert(1 <= 3 * sample_rate * channels <= MAX_FULL) by (nonlinear_arith)
        requires
            1 <= sample_rate <= 0xffff_ffff,
            1 <= channels <= 0xffff,
            MAX_FULL == 0x3_0000_0000_0000,
    ;
    assert((n * 15 >= 3 * sample_rate * channels) <==> (n * 1000 >= 200 * sample_rate * channels))
        by (nonlinear_arith);
}

/// A fade-out from full gain reaches silence after exactly 150 ms of
/// samples.
pub proof fn lemma_fade_out_lasts(sample_rate: u32, channels: u16, action: FadeAction, n: int)
    requires
        sample_rate > 0,
        channels > 0,
        n >= 0,
    ensures
        (FadeState::FadingOut {
            gain: full_scale(sample_rate, channels) as u64,
            step: FADE_OUT_STEP,
            full: full_scale(sample_rate, channels) as u64,
            action,
        }).advanced(n).completed() <==> n * 1000 >= FADE_OUT_MS * sample_rate * channels,
{
    assert(1 <= 3 * sample_rate * channels <= MAX_FULL) by (nonlinear_arith)
        requires
            1 <= sample_rate <= 0xffff_ffff,
            1 <= channels <= 0xffff,
            MAX_FULL == 0x3_0000_0000_0000,
    ;
    assert((n * 20 >= 3 * sample_rate * channels) <==> (n * 1000 >= 150 * sample_rate * channels))
        by (nonlinear_arith);
}

/// The envelope does not depend on how the samples are cut into packets:
/// moving it by `a` samples and then by `b` is moving it by `a + b`.
pub proof fn lemma_advance_composes(fade: FadeState, a: int, b: int)
    requires
        fade.wf(),
        a >= 0,
        b >= 0,
    ensures
        fade.advanced(a).advanced(b) == fade.advanced(a + b),
{
    match fade {
        FadeState::Steady => {},
        FadeState::FadingIn { gain, step, full } => {
            assert((a + b) * step == a * step + b * step) by (nonlinear_arith);
            assert(a * step >= 0 && b * step >= 0) by (nonlinear_arith)
                requires
                    a >= 0,
                    b >= 0,
                    step >= 0,
            ;
        },
        FadeState::FadingOut { gain, step, full, action } => {
            assert((a + b) * step == a * step + b * step) by (nonlinear_arith);
            assert(a * step >= 0 && b * step >= 0) by (nonlinear_arith)
                requires
                    a >= 0,
                    b >= 0,
                    step >= 0,
            ;
        },
    }
}

} // verus!
