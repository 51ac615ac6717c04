//! The playback state machine.
//!
//! The audio thread owns a decoder, an output device and the signal chain;
//! what it does with them is decided here. [`EngineCore`] holds what the
//! decisions depend on and turns each event (a command from the UI, the
//! outcome of an open or a seek, a decoded packet, the end of a fade) into
//! its next state and a list of [`Action`]s for the thread to carry out, in
//! order. Positions are counted in frames of the source; what is published
//! is in microseconds.

use vstd::prelude::*;
use super::fade::{
    apply_volume_with_fade,
    full_scale,
    FadeAction,
    FadeState,
    FADE_IN_STEP,
    FADE_OUT_STEP,
};
use super::decoder::DecodedInfo;
use super::volume::{clamped_bits, Volume};

verus! {

/// Packets decoded per turn of the audio thread, at most.
pub const MAX_PACKETS_PER_TURN: u32 = 32;

/// Free samples the ring must offer before another packet is decoded.
pub const MIN_VACANT_SAMPLES: usize = 8192;

/// Milliseconds between two time events.
pub const TIME_EVENT_MS: u64 = 250;

/// Milliseconds between two visualisation events.
pub const FFT_EVENT_MS: u64 = 33;

/// Milliseconds the thread sleeps between turns while playing.
pub const PLAYING_SLEEP_MS: u64 = 1;

/// Milliseconds the thread sleeps between turns while idle.
pub const IDLE_SLEEP_MS: u64 = 10;

/// Number of equalizer bands a gain update must carry.
pub const EQ_BANDS: usize = 10;

/// Channels the output is asked for, at most.
pub const MAX_OUTPUT_CHANNELS: u16 = 2;

/// Microseconds per second.
pub const MICROS_PER_SEC: u64 = 1_000_000;

/// Commands sent from the UI to the audio thread. A seek position is in
/// microseconds; a volume and the equalizer gains (in dB) are the bits of
/// IEEE-754 singles.
#[derive(Debug, Clone, PartialEq, Eq)]
pub enum AudioCommand {
    Play { source: String },
    Pause,
    Resume,
    Stop,
    Seek { position_micros: u64 },
    SetVolume { volume: u32 },
    SetEqBands { gains: Vec<u32> },
    SetEqEnabled { enabled: bool },
    EnableVisualization { enabled: bool },
}

/// The playback snapshot that the UI reads.
#[derive(Clone, Copy, Debug, PartialEq, Eq, Structural)]
pub struct PlaybackState {
    pub is_playing: bool,
    pub position_micros: u64,
    pub duration_micros: u64,
    pub volume: Volume,
}

/// The format of the output stream.
#[derive(Clone, Copy, Debug, PartialEq, Eq, Structural)]
pub struct OutputFormat {
    pub sample_rate: u32,
    pub channels: u16,
}

/// One thing for the audio thread to do.
#[derive(Debug, Clone, PartialEq, Eq)]
pub enum Action {
    /// Have the device callback discard what is queued.
    FlushOutput,
    /// Suspend the device callback.
    PauseOutput,
    /// Re-enable the device callback.
    ResumeOutput,
    /// Drop decoder, output and resampler, and clear the staging buffer.
    ReleaseSource,
    /// Open `source`, and report the outcome.
    OpenSource { source: String },
    /// Reposition the decoder, and report the outcome.
    SeekDecoder { position_micros: u64 },
    /// Clear the equalizer's filter memory.
    ResetEqualizer,
    /// Replace the equalizer by one for the given format, with every
    /// filter at rest. The gains in force follow in a
    /// [`Action::SetEqGains`].
    RebuildEqualizer { sample_rate: u32, channels: u16, enabled: bool },
    /// Recompute the equalizer's coefficients for these ten gains.
    SetEqGains { gains: [u32; 10] },
    /// Switch the equalizer on or off.
    SetEqEnabled { enabled: bool },
    /// Switch the visualisation tap on or off.
    SetVisualization { enabled: bool },
    /// Store the snapshot for the UI.
    PublishState { state: PlaybackState },
    /// Emit `state_changed`.
    EmitStateChanged { is_playing: bool },
    /// Emit `ended`.
    EmitEnded,
    /// Emit `error`.
    EmitError { message: String },
}

/// What the audio thread decides on.
#[derive(Debug, Clone, PartialEq, Eq)]
pub struct EngineCore {
    /// A decoder and an output are open.
    pub loaded: bool,
    /// A resampler sits between decoder and output.
    pub resampling: bool,
    pub is_playing: bool,
    /// Frames of the source decoded so far.
    pub position_frames: u64,
    /// Length of the source in frames, zero when unknown.
    pub duration_frames: u64,
    pub source_sample_rate: u32,
    pub source_channels: usize,
    /// Format of the open output; meaningful while `loaded`.
    pub output: OutputFormat,
    pub volume: Volume,
    pub fade: FadeState,
    pub eq_enabled: bool,
    /// The gains of the last accepted update, in dB, as bits of singles.
    pub eq_gains: [u32; 10],
    pub visualization: bool,
    /// What the last `state_changed` told the UI.
    pub announced_playing: bool,
}

/// Frames of a rate, as microseconds (rounded down; zero for rate zero;
/// the largest value where the time does not fit).
pub open spec fn micros_of_frames(frames: u64, rate: u32) -> u64 {
    if rate == 0 {
        0
    } else if frames * MICROS_PER_SEC / (rate as int) > u64::MAX {
        u64::MAX
    } else {
        (frames * MICROS_PER_SEC / (rate as int)) as u64
    }
}

/// Microseconds, as frames of a rate (rounded down; the largest value where
/// the count does not fit).
pub open spec fn frames_of_micros(micros: u64, rate: u32) -> u64 {
    if micros * rate / (MICROS_PER_SEC as int) > u64::MAX {
        u64::MAX
    } else {
        (micros * rate / (MICROS_PER_SEC as int)) as u64
    }
}

/// The time that `samples` interleaved samples of a format last, in
/// microseconds.
pub open spec fn micros_of_samples(samples: usize, format: OutputFormat) -> u64 {
    if format.sample_rate == 0 || format.channels == 0 {
        u64::MAX
    } else if samples * MICROS_PER_SEC / (format.sample_rate * format.channels) > u64::MAX {
        u64::MAX
    } else {
        (samples * MICROS_PER_SEC / (format.sample_rate * format.channels)) as u64
    }
}

/// Whole frames in `samples` interleaved samples.
pub open spec fn frames_in(samples: usize, channels: usize) -> int {
    if channels == 0 {
        0
    } else {
        samples as int / channels as int
    }
}

/// `position` held inside a known duration.
pub open spec fn clamped_position(position: int, duration: u64) -> u64 {
    if duration > 0 && position > duration {
        duration
    } else if position > u64::MAX {
        u64::MAX
    } else {
        position as u64
    }
}

/// The ten gains of an update, as an array.
pub open spec fn ten_gains(gains: Seq<u32>) -> [u32; 10] {
    [
        gains[0],
        gains[1],
        gains[2],
        gains[3],
        gains[4],
        gains[5],
        gains[6],
        gains[7],
        gains[8],
        gains[9],
    ]
}

/// Channels of the output asked for a source: its own, two at most.
pub open spec fn requested_channels(source_channels: usize) -> u16 {
    if source_channels >= MAX_OUTPUT_CHANNELS {
        MAX_OUTPUT_CHANNELS
    } else {
        source_channels as u16
    }
}

impl EngineCore {
    /// The state's invariant: playing needs an open source, a resampler
    /// needs an output, and the position stays inside a known duration.
    pub open spec fn wf(&self) -> bool {
        &&& self.fade.wf()
        &&& self.volume.wf()
        &&& self.is_playing ==> self.loaded
        &&& self.resampling ==> self.loaded
        &&& self.duration_frames > 0 ==> self.position_frames <= self.duration_frames
    }

    /// The snapshot of this state.
    pub open spec fn snapshot_of(&self) -> PlaybackState {
        PlaybackState {
            is_playing: self.is_playing,
            position_micros: micros_of_frames(self.position_frames, self.source_sample_rate),
            duration_micros: micros_of_frames(self.duration_frames, self.source_sample_rate),
            volume: self.volume,
        }
    }

    /// The snapshot after a stop: nothing loaded, nothing played.
    pub open spec fn stopped_snapshot(&self) -> PlaybackState {
        PlaybackState {
            is_playing: false,
            position_micros: 0,
            duration_micros: 0,
            volume: self.volume,
        }
    }

    /// The snapshot at the end of the stream: the position is the duration.
    pub open spec fn ended_snapshot(&self) -> PlaybackState {
        PlaybackState {
            is_playing: false,
            position_micros: micros_of_frames(self.duration_frames, self.source_sample_rate),
            duration_micros: micros_of_frames(self.duration_frames, self.source_sample_rate),
            volume: self.volume,
        }
    }

    /// The rate by which a fade started now is timed.
    pub open spec fn fade_rate(&self) -> u32 {
        if self.loaded {
            self.output.sample_rate
        } else {
            self.source_sample_rate
        }
    }

    /// The channel count by which a fade started now is timed.
    pub open spec fn fade_channels(&self) -> u16 {
        if self.loaded {
            self.output.channels
        } else {
            MAX_OUTPUT_CHANNELS
        }
    }

    /// The fade-out that starts now, from the present gain.
    pub open spec fn fade_out_to(&self, action: FadeAction) -> FadeState {
        let full = full_scale(self.fade_rate(), self.fade_channels());
        FadeState::FadingOut {
            gain: self.fade.gain_in(full) as u64,
            step: FADE_OUT_STEP,
            full: full as u64,
            action,
        }
    }

    /// The fade-in that starts now, from `gain` ticks.
    pub open spec fn fade_in_at(&self, gain: int) -> FadeState {
        FadeState::FadingIn {
            gain: gain as u64,
            step: FADE_IN_STEP,
            full: full_scale(self.fade_rate(), self.fade_channels()) as u64,
        }
    }

    /// The state with its source released, ready for an open.
    pub open spec fn released(self) -> EngineCore {
        EngineCore { loaded: false, resampling: false, is_playing: false, position_frames: 0, ..self }
    }

    /// The state after a stop has been carried out.
    pub open spec fn stopped(self) -> EngineCore {
        EngineCore {
            loaded: false,
            resampling: false,
            is_playing: false,
            position_frames: 0,
            duration_frames: 0,
            fade: FadeState::Steady,
            visualization: false,
            announced_playing: false,
            ..self
        }
    }

    /// What a stop hands to the audio thread once it is carried out.
    pub open spec fn stop_actions(&self) -> Seq<Action> {
        seq![
            Action::ReleaseSource,
            Action::SetVisualization { enabled: false },
            Action::PublishState { state: self.stopped_snapshot() },
            Action::EmitStateChanged { is_playing: false },
        ]
    }

    /// `Play`: while playing, fade out and open the new source after the
    /// fade; when idle, open it at once.
    pub open spec fn after_play(self, source: String) -> (EngineCore, Seq<Action>) {
        if self.is_playing {
            (
                EngineCore { fade: self.fade_out_to(FadeAction::PlayNext { source }), ..self },
                seq![Action::FlushOutput],
            )
        } else {
            (self.released(), seq![Action::ReleaseSource, Action::OpenSource { source }])
        }
    }

    /// `Pause`: while playing, fade out towards a pause. What is queued in
    /// the ring stays there, and is heard after a resume.
    pub open spec fn after_pause(self) -> (EngineCore, Seq<Action>) {
        if self.is_playing {
            (EngineCore { fade: self.fade_out_to(FadeAction::Pause), ..self }, Seq::empty())
        } else {
            (self, Seq::empty())
        }
    }

    /// `Resume`: when suspended with a source, play again with a fade-in
    /// from silence; while a fade-out towards a pause runs, turn it into a
    /// fade-in from its present gain. A fade-out towards a stop or the next
    /// source is not reversed.
    pub open spec fn after_resume(self) -> (EngineCore, Seq<Action>) {
        if !self.is_playing && self.loaded {
            let next = EngineCore {
                is_playing: true,
                announced_playing: true,
                fade: self.fade_in_at(0),
                ..self
            };
            (
                next,
                seq![
                    Action::ResumeOutput,
                    Action::PublishState { state: next.snapshot_of() },
                    Action::EmitStateChanged { is_playing: true },
                ],
            )
        } else if self.is_playing && (self.fade matches FadeState::FadingOut {
            action: FadeAction::Pause,
            ..
        }) {
            let full = full_scale(self.fade_rate(), self.fade_channels());
            (EngineCore { fade: self.fade_in_at(self.fade.gain_in(full)), ..self }, Seq::empty())
        } else {
            (self, Seq::empty())
        }
    }

    /// `Stop`: while playing, fade out towards a stop; when idle, stop at
    /// once.
    pub open spec fn after_stop(self) -> (EngineCore, Seq<Action>) {
        if self.is_playing {
            (
                EngineCore { fade: self.fade_out_to(FadeAction::Stop), ..self },
                seq![Action::FlushOutput],
            )
        } else {
            (self.stopped(), self.stop_actions())
        }
    }

    /// `Seek`: with a source, ask the decoder; the state changes when the
    /// decoder has answered.
    pub open spec fn after_seek(self, position_micros: u64) -> (EngineCore, Seq<Action>) {
        if self.loaded {
            (self, seq![Action::SeekDecoder { position_micros }])
        } else {
            (self, Seq::empty())
        }
    }

    /// The decoder's answer to a seek: on success the position follows,
    /// held inside the duration, stale audio is flushed and the equalizer's
    /// memory cleared; on failure playback goes on where it was.
    pub open spec fn after_seek_finished(self, ok: bool, position_micros: u64) -> (
        EngineCore,
        Seq<Action>,
    ) {
        if ok {
            let next = EngineCore {
                position_frames: clamped_position(
                    frames_of_micros(position_micros, self.source_sample_rate) as int,
                    self.duration_frames,
                ),
                ..self
            };
            (
                next,
                seq![
                    Action::FlushOutput,
                    Action::ResetEqualizer,
                    Action::PublishState { state: next.snapshot_of() },
                ],
            )
        } else {
            (self, Seq::empty())
        }
    }

    /// `SetVolume`: the value clamped to `[0, 1]`; a NaN changes nothing.
    pub open spec fn after_set_volume(self, bits: u32) -> (EngineCore, Seq<Action>) {
        match clamped_bits(bits) {
            Some(clamped) => {
                let next = EngineCore { volume: Volume { bits: clamped }, ..self };
                (next, seq![Action::PublishState { state: next.snapshot_of() }])
            },
            None => (self, Seq::empty()),
        }
    }

    /// `SetEqBands`: ten gains are kept and passed on; any other number is
    /// rejected.
    pub open spec fn after_set_eq_bands(self, gains: Vec<u32>) -> (EngineCore, Seq<Action>) {
        if gains@.len() == EQ_BANDS {
            (
                EngineCore { eq_gains: ten_gains(gains@), ..self },
                seq![Action::SetEqGains { gains: ten_gains(gains@) }],
            )
        } else {
            (self, Seq::empty())
        }
    }

    /// The state and the actions that follow a command.
    pub open spec fn after_command(self, command: AudioCommand) -> (EngineCore, Seq<Action>) {
        match command {
            AudioCommand::Play { source } => self.after_play(source),
            AudioCommand::Pause => self.after_pause(),
            AudioCommand::Resume => self.after_resume(),
            AudioCommand::Stop => self.after_stop(),
            AudioCommand::Seek { position_micros } => self.after_seek(position_micros),
            AudioCommand::SetVolume { volume } => self.after_set_volume(volume),
            AudioCommand::SetEqBands { gains } => self.after_set_eq_bands(gains),
            AudioCommand::SetEqEnabled { enabled } => (
                EngineCore { eq_enabled: enabled, ..self },
                seq![Action::SetEqEnabled { enabled }],
            ),
            AudioCommand::EnableVisualization { enabled } => (
                EngineCore { visualization: enabled, ..self },
                seq![Action::SetVisualization { enabled }],
            ),
        }
    }

    /// The state once the decoder has opened a source: playback of it
    /// starts at its beginning.
    pub open spec fn with_source(self, format: DecodedInfo) -> EngineCore {
        EngineCore {
            position_frames: 0,
            source_sample_rate: format.sample_rate,
            source_channels: format.channels,
            duration_frames: format.duration_frames,
            ..self
        }
    }

    /// The rate at which samples reach the equalizer and the fade.
    pub open spec fn effective_rate(&self, output: OutputFormat, resampling: bool) -> u32 {
        if resampling {
            output.sample_rate
        } else {
            self.source_sample_rate
        }
    }

    /// The state and the actions once the output stands: playback runs.
    /// The equalizer is set up anew for the rate and channels at hand and
    /// takes over the switch and the gains in force.
    pub open spec fn after_output_opened(
        self,
        output: OutputFormat,
        resampling: bool,
        with_fade_in: bool,
    ) -> (EngineCore, Seq<Action>) {
        let rate = self.effective_rate(output, resampling);
        let channels = requested_channels(self.source_channels);
        let next = EngineCore {
            loaded: true,
            resampling,
            is_playing: true,
            announced_playing: true,
            output,
            fade: if with_fade_in {
                FadeState::FadingIn {
                    gain: 0,
                    step: FADE_IN_STEP,
                    full: full_scale(rate, channels) as u64,
                }
            } else {
                FadeState::Steady
            },
            ..self
        };
        (
            next,
            seq![
                Action::RebuildEqualizer { sample_rate: rate, channels, enabled: self.eq_enabled },
                Action::SetEqGains { gains: self.eq_gains },
                Action::PublishState { state: next.snapshot_of() },
                Action::EmitStateChanged { is_playing: true },
            ],
        )
    }

    /// The state and the actions after a source could not be opened, or no
    /// output could be built for it: the engine is idle, the error is
    /// reported and the snapshot says so; the UI is told that playback has
    /// stopped if it was last told that it runs.
    pub open spec fn after_open_failed(self, message: String) -> (EngineCore, Seq<Action>) {
        let next = EngineCore { announced_playing: false, ..self.released() };
        let report = seq![
            Action::EmitError { message },
            Action::PublishState { state: next.snapshot_of() },
        ];
        if self.announced_playing {
            (next, report.push(Action::EmitStateChanged { is_playing: false }))
        } else {
            (next, report)
        }
    }

    /// The state after a packet of `samples` decoded samples was played.
    pub open spec fn after_packet(self, samples: usize) -> EngineCore {
        EngineCore {
            position_frames: clamped_position(
                self.position_frames + frames_in(samples, self.source_channels),
                self.duration_frames,
            ),
            ..self
        }
    }

    /// The end of the stream: playback stops where it is.
    pub open spec fn after_end_of_stream(self) -> (EngineCore, Seq<Action>) {
        (
            EngineCore {
                is_playing: false,
                announced_playing: false,
                fade: FadeState::Steady,
                ..self
            },
            seq![
                Action::PublishState { state: self.ended_snapshot() },
                Action::EmitEnded,
                Action::EmitStateChanged { is_playing: false },
            ],
        )
    }

    /// A fatal decode error: playback stops, the error is reported, and
    /// snapshot and UI are told that the engine is idle.
    pub open spec fn after_decode_failed(self, message: String) -> (EngineCore, Seq<Action>) {
        let next = EngineCore {
            is_playing: false,
            announced_playing: false,
            fade: FadeState::Steady,
            ..self
        };
        (
            next,
            seq![
                Action::EmitError { message },
                Action::PublishState { state: next.snapshot_of() },
                Action::EmitStateChanged { is_playing: false },
            ],
        )
    }

    /// A fade-out has reached silence: its action is carried out.
    pub open spec fn after_fade_completed(self) -> (EngineCore, Seq<Action>) {
        match self.fade {
            FadeState::FadingOut { action: FadeAction::Pause, .. } => {
                let next = EngineCore {
                    is_playing: false,
                    announced_playing: false,
                    fade: FadeState::Steady,
                    ..self
                };
                (
                    next,
                    seq![
                        Action::PauseOutput,
                        Action::PublishState { state: next.snapshot_of() },
                        Action::EmitStateChanged { is_playing: false },
                    ],
                )
            },
            FadeState::FadingOut { action: FadeAction::Stop, .. } => (
                self.stopped(),
                self.stop_actions(),
            ),
            FadeState::FadingOut { action: FadeAction::PlayNext { source }, .. } => (
                EngineCore { fade: FadeState::Steady, ..self }.released(),
                seq![Action::ReleaseSource, Action::OpenSource { source }],
            ),
            _ => (EngineCore { fade: FadeState::Steady, ..self }, Seq::empty()),
        }
    }

    /// Whether another packet is decoded in this turn.
    pub open spec fn wants_packet_spec(&self, packets_done: u32, vacant: usize) -> bool {
        self.is_playing && self.loaded && packets_done < MAX_PACKETS_PER_TURN && vacant
            >= MIN_VACANT_SAMPLES
    }

    /// The position the listener hears: what was decoded less what still
    /// waits in the ring, not below zero.
    pub open spec fn heard_micros(&self, buffered_samples: usize) -> u64 {
        let decoded = micros_of_frames(self.position_frames, self.source_sample_rate);
        if !self.loaded {
            decoded
        } else if micros_of_samples(buffered_samples, self.output) >= decoded {
            0
        } else {
            (decoded - micros_of_samples(buffered_samples, self.output)) as u64
        }
    }
}


/// Converts frames of a rate to microseconds.
pub fn frames_to_micros(frames: u64, rate: u32) -> (micros: u64)
    ensures
        micros == micros_of_frames(frames, rate),
{
    if rate == 0 {
        return 0;
    }
    assert(frames * MICROS_PER_SEC <= u64::MAX * MICROS_PER_SEC) by (nonlinear_arith)
        requires
            frames <= u64::MAX,
    ;
    let wide: u128 = (frames as u128) * (MICROS_PER_SEC as u128) / (rate as u128);
    if wide > u64::MAX as u128 {
        u64::MAX
    } else {
        wide as u64
    }
}

/// Converts microseconds to frames of a rate.
pub fn micros_to_frames(micros: u64, rate: u32) -> (frames: u64)
    ensures
        frames == frames_of_micros(micros, rate),
{
    assert(micros * rate <= u64::MAX * u32::MAX) by (nonlinear_arith)
        requires
            micros <= u64::MAX,
            rate <= u32::MAX,
    ;
    let wide: u128 = (micros as u128) * (rate as u128) / (MICROS_PER_SEC as u128);
    if wide > u64::MAX as u128 {
        u64::MAX
    } else {
        wide as u64
    }
}

/// Converts a count of interleaved samples of a format to microseconds.
pub fn samples_to_micros(samples: usize, format: OutputFormat) -> (micros: u64)
    ensures
        micros == micros_of_samples(samples, format),
{
    if format.sample_rate == 0 || format.channels == 0 {
        return u64::MAX;
    }
    assert(1 <= format.sample_rate * format.channels <= u32::MAX * u16::MAX)
        by (nonlinear_arith)
        requires
            1 <= format.sample_rate <= u32::MAX,
            1 <= format.channels <= u16::MAX,
    ;
    let per_second: u64 = (format.sample_rate as u64) * (format.channels as u64);
    assert(samples * MICROS_PER_SEC <= usize::MAX * MICROS_PER_SEC) by (nonlinear_arith)
        requires
            samples <= usize::MAX,
    ;
    let wide: u128 = (samples as u128) * (MICROS_PER_SEC as u128) / (per_second as u128);
    if wide > u64::MAX as u128 {
        u64::MAX
    } else {
        wide as u64
    }
}

/// The number of output channels to ask for: the source's, two at most.
pub fn output_channels_for(source_channels: usize) -> (channels: u16)
    ensures
        channels == requested_channels(source_channels),
{
    if source_channels >= MAX_OUTPUT_CHANNELS as usize {
        MAX_OUTPUT_CHANNELS
    } else {
        source_channels as u16
    }
}

impl EngineCore {
    /// An idle engine: nothing loaded, full volume, equalizer on,
    /// visualisation off.
    pub fn new() -> (core: EngineCore)
        ensures
            core.wf(),
            !core.loaded,
            !core.resampling,
            !core.is_playing,
            core.position_frames == 0,
            core.duration_frames == 0,
            core.source_sample_rate == 44100,
            core.source_channels == 2,
            core.volume@ == super::volume::ONE_BITS,
            core.fade is Steady,
            core.eq_enabled,
            forall|b: int| 0 <= b < EQ_BANDS ==> #[trigger] core.eq_gains@[b] == 0,
            !core.visualization,
            !core.announced_playing,
    {
        EngineCore {
            loaded: false,
            resampling: false,
            is_playing: false,
            position_frames: 0,
            duration_frames: 0,
            source_sample_rate: 44100,
            source_channels: 2,
            output: OutputFormat { sample_rate: 44100, channels: 2 },
            volume: Volume::unity(),
            fade: FadeState::Steady,
            eq_enabled: true,
            eq_gains: [0, 0, 0, 0, 0, 0, 0, 0, 0, 0],
            visualization: false,
            announced_playing: false,
        }
    }

    /// The snapshot for the UI.
    pub fn snapshot(&self) -> (state: PlaybackState)
        ensures
            state == self.snapshot_of(),
    {
        PlaybackState {
            is_playing: self.is_playing,
            position_micros: frames_to_micros(self.position_frames, self.source_sample_rate),
            duration_micros: frames_to_micros(self.duration_frames, self.source_sample_rate),
            volume: self.volume,
        }
    }

    fn timing_rate(&self) -> (rate: u32)
        ensures
            rate == self.fade_rate(),
    {
        if self.loaded {
            self.output.sample_rate
        } else {
            self.source_sample_rate
        }
    }

    fn timing_channels(&self) -> (channels: u16)
        ensures
            channels == self.fade_channels(),
    {
        if self.loaded {
            self.output.channels
        } else {
            MAX_OUTPUT_CHANNELS
        }
    }

    fn start_fade_out(&mut self, action: FadeAction)
        requires
            old(self).wf(),
        ensures
            final(self).wf(),
            *final(self) == (EngineCore { fade: old(self).fade_out_to(action), ..*old(self) }),
    {
        let fade = FadeState::fade_out(
            &self.fade,
            self.timing_rate(),
            self.timing_channels(),
            action,
        );
        self.fade = fade;
    }

    fn release(&mut self)
        requires
            old(self).wf(),
        ensures
            final(self).wf(),
            *final(self) == old(self).released(),
    {
        self.loaded = false;
        self.resampling = false;
        self.is_playing = false;
        self.position_frames = 0;
    }

    fn stop_now(&mut self) -> (actions: Vec<Action>)
        requires
            old(self).wf(),
        ensures
            final(self).wf(),
            *final(self) == old(self).stopped(),
            actions@ == old(self).stop_actions(),
    {
        self.loaded = false;
        self.resampling = false;
        self.is_playing = false;
        self.position_frames = 0;
        self.duration_frames = 0;
        self.fade = FadeState::Steady;
        self.visualization = false;
        self.announced_playing = false;
        let mut actions = Vec::new();
        actions.push(Action::ReleaseSource);
        actions.push(Action::SetVisualization { enabled: false });
        actions.push(
            Action::PublishState {
                state: PlaybackState {
                    is_playing: false,
                    position_micros: 0,
                    duration_micros: 0,
                    volume: self.volume,
                },
            },
        );
        actions.push(Action::EmitStateChanged { is_playing: false });
        proof {
            assert(actions@ =~= old(self).stop_actions());
        }
        actions
    }

    /// Applies a command from the UI.
    pub fn handle_command(&mut self, command: AudioCommand) -> (actions: Vec<Action>)
        requires
            old(self).wf(),
        ensures
            final(self).wf(),
            (*final(self), actions@) == old(self).after_command(command),
    {
        let mut actions = Vec::new();
        match command {
            AudioCommand::Play { source } => {
                if self.is_playing {
                    self.start_fade_out(FadeAction::PlayNext { source });
                    actions.push(Action::FlushOutput);
                    proof {
                        assert(actions@ =~= seq![Action::FlushOutput]);
                    }
                } else {
                    self.release();
                    actions.push(Action::ReleaseSource);
                    actions.push(Action::OpenSource { source });
                    proof {
                        assert(actions@ =~= seq![
                            Action::ReleaseSource,
                            Action::OpenSource { source },
                        ]);
                    }
                }
            },
            AudioCommand::Pause => {
                if self.is_playing {
                    self.start_fade_out(FadeAction::Pause);
                }
            },
            AudioCommand::Resume => {
                if !self.is_playing && self.loaded {
                    self.is_playing = true;
                    self.announced_playing = true;
                    self.fade = FadeState::fade_in(self.timing_rate(), self.timing_channels());
                    actions.push(Action::ResumeOutput);
                    actions.push(Action::PublishState { state: self.snapshot() });
                    actions.push(Action::EmitStateChanged { is_playing: true });
                    proof {
                        assert(actions@ =~= old(self).after_resume().1);
                    }
                } else if self.is_playing && self.fade.is_pausing() {
                    let fade = FadeState::fade_in_from(
                        &self.fade,
                        self.timing_rate(),
                        self.timing_channels(),
                    );
                    self.fade = fade;
                }
            },
            AudioCommand::Stop => {
                if self.is_playing {
                    self.start_fade_out(FadeAction::Stop);
                    actions.push(Action::FlushOutput);
                    proof {
                        assert(actions@ =~= seq![Action::FlushOutput]);
                    }
                } else {
                    actions = self.stop_now();
                }
            },
            AudioCommand::Seek { position_micros } => {
                if self.loaded {
                    actions.push(Action::SeekDecoder { position_micros });
                    proof {
                        assert(actions@ =~= seq![Action::SeekDecoder { position_micros }]);
                    }
                }
            },
            AudioCommand::SetVolume { volume } => {
                match Volume::from_bits(volume) {
                    Some(v) => {
                        self.volume = v;
                        actions.push(Action::PublishState { state: self.snapshot() });
                        proof {
                            assert(actions@ =~= old(self).after_set_volume(volume).1);
                        }
                    },
                    None => {},
                }
            },
            AudioCommand::SetEqBands { gains } => {
                if gains.len() == EQ_BANDS {
                    let kept: [u32; 10] = [
                        gains[0],
                        gains[1],
                        gains[2],
                        gains[3],
                        gains[4],
                        gains[5],
                        gains[6],
                        gains[7],
                        gains[8],
                        gains[9],
                    ];
                    self.eq_gains = kept;
                    actions.push(Action::SetEqGains { gains: kept });
                    proof {
                        assert(kept == ten_gains(gains@));
                        assert(actions@ =~= seq![Action::SetEqGains { gains: kept }]);
                    }
                }
            },
            AudioCommand::SetEqEnabled { enabled } => {
                self.eq_enabled = enabled;
                actions.push(Action::SetEqEnabled { enabled });
                proof {
                    assert(actions@ =~= seq![Action::SetEqEnabled { enabled }]);
                }
            },
            AudioCommand::EnableVisualization { enabled } => {
                self.visualization = enabled;
                actions.push(Action::SetVisualization { enabled });
                proof {
                    assert(actions@ =~= seq![Action::SetVisualization { enabled }]);
                }
            },
        }
        actions
    }

    /// Takes the decoder's answer to a [`Action::SeekDecoder`].
    pub fn seek_finished(&mut self, ok: bool, position_micros: u64) -> (actions: Vec<Action>)
        requires
            old(self).wf(),
        ensures
            final(self).wf(),
            (*final(self), actions@) == old(self).after_seek_finished(ok, position_micros),
    {
        let mut actions = Vec::new();
        if ok {
            let target = micros_to_frames(position_micros, self.source_sample_rate);
            self.position_frames = if self.duration_frames > 0 && target > self.duration_frames {
                self.duration_frames
            } else {
                target
            };
            actions.push(Action::FlushOutput);
            actions.push(Action::ResetEqualizer);
            actions.push(Action::PublishState { state: self.snapshot() });
            proof {
                assert(actions@ =~= old(self).after_seek_finished(ok, position_micros).1);
            }
        }
        actions
    }

    /// Takes the format of the source that the decoder has opened, and
    /// tells which output to ask for.
    pub fn source_decoded(&mut self, format: DecodedInfo) -> (request: OutputFormat)
        requires
            old(self).wf(),
        ensures
            final(self).wf(),
            *final(self) == old(self).with_source(format),
            request == (OutputFormat {
                sample_rate: format.sample_rate,
                channels: requested_channels(format.channels),
            }),
    {
        self.source_sample_rate = format.sample_rate;
        self.source_channels = format.channels;
        self.duration_frames = format.duration_frames;
        self.position_frames = 0;
        OutputFormat {
            sample_rate: format.sample_rate,
            channels: output_channels_for(format.channels),
        }
    }

    /// Whether the output's rate calls for a resampler.
    pub fn needs_resampler(&self, output: OutputFormat) -> (needed: bool)
        ensures
            needed == (output.sample_rate != self.source_sample_rate),
    {
        output.sample_rate != self.source_sample_rate
    }

    /// The source could not be opened, or no output could be built for it:
    /// the engine is idle, reports the error and publishes the snapshot of
    /// the idle state.
    pub fn open_failed(&mut self, message: String) -> (actions: Vec<Action>)
        requires
            old(self).wf(),
        ensures
            final(self).wf(),
            (*final(self), actions@) == old(self).after_open_failed(message),
    {
        let told = self.announced_playing;
        self.release();
        self.announced_playing = false;
        let mut actions = Vec::new();
        actions.push(Action::EmitError { message });
        actions.push(Action::PublishState { state: self.snapshot() });
        if told {
            actions.push(Action::EmitStateChanged { is_playing: false });
        }
        proof {
            assert(actions@ =~= old(self).after_open_failed(message).1);
        }
        actions
    }

    /// The output stands, with or without a resampler: playback starts.
    pub fn output_opened(&mut self, output: OutputFormat, resampling: bool, with_fade_in: bool) -> (actions:
        Vec<Action>)
        requires
            old(self).wf(),
        ensures
            final(self).wf(),
            (*final(self), actions@) == old(self).after_output_opened(
                output,
                resampling,
                with_fade_in,
            ),
    {
        let rate = if resampling {
            output.sample_rate
        } else {
            self.source_sample_rate
        };
        let channels = output_channels_for(self.source_channels);
        self.loaded = true;
        self.resampling = resampling;
        self.is_playing = true;
        self.announced_playing = true;
        self.output = output;
        self.fade = if with_fade_in {
            FadeState::fade_in(rate, channels)
        } else {
            FadeState::Steady
        };
        let mut actions = Vec::new();
        actions.push(
            Action::RebuildEqualizer { sample_rate: rate, channels, enabled: self.eq_enabled },
        );
        actions.push(Action::SetEqGains { gains: self.eq_gains });
        actions.push(Action::PublishState { state: self.snapshot() });
        actions.push(Action::EmitStateChanged { is_playing: true });
        proof {
            assert(actions@ =~= old(self).after_output_opened(output, resampling, with_fade_in).1);
        }
        actions
    }

    /// Whether another packet is decoded in this turn: only while playing,
    /// for at most 32 packets, and only while the ring has room for one.
    pub fn wants_packet(&self, packets_done: u32, vacant: usize) -> (wanted: bool)
        ensures
            wanted == self.wants_packet_spec(packets_done, vacant),
    {
        self.is_playing && self.loaded && packets_done < MAX_PACKETS_PER_TURN && vacant
            >= MIN_VACANT_SAMPLES
    }

    /// Scales a packet on its way to the ring by the volume and the fade.
    /// The result tells that a fade-out has reached silence.
    pub fn scale_packet<T: Copy>(
        &mut self,
        samples: &mut [T],
        scale: impl Fn(T, u32, u64, u64) -> T,
    ) -> (completed: bool)
        requires
            old(self).wf(),
            forall|s: T, v: u32, g: u64, f: u64| call_requires(scale, (s, v, g, f)),
        ensures
            final(self).wf(),
            *final(self) == (EngineCore {
                fade: old(self).fade.advanced(old(samples)@.len() as int),
                ..*old(self)
            }),
            completed == final(self).fade.completed(),
            final(samples)@.len() == old(samples)@.len(),
            old(self).fade is Steady && old(self).volume.is_unity() ==> final(samples)@ == old(
                samples,
            )@,
            !(old(self).fade is Steady && old(self).volume.is_unity()) ==> forall|k: int|
                0 <= k < old(samples)@.len() ==> call_ensures(
                    scale,
                    (
                        old(samples)@[k],
                        old(self).volume@,
                        old(self).fade.gain_at(k) as u64,
                        old(self).fade.full() as u64,
                    ),
                    #[trigger] final(samples)@[k],
                ),
    {
        apply_volume_with_fade(samples, self.volume, &mut self.fade, scale)
    }

    /// Accounts for a packet of `samples` decoded samples that was played.
    pub fn packet_played(&mut self, samples: usize)
        requires
            old(self).wf(),
        ensures
            final(self).wf(),
            *final(self) == old(self).after_packet(samples),
    {
        let frames: u64 = if self.source_channels == 0 {
            0
        } else {
            (samples / self.source_channels) as u64
        };
        let position = match self.position_frames.checked_add(frames) {
            Some(position) => position,
            None => u64::MAX,
        };
        self.position_frames = if self.duration_frames > 0 && position > self.duration_frames {
            self.duration_frames
        } else {
            position
        };
    }

    /// The decoder has reached the end of the stream.
    pub fn end_of_stream(&mut self) -> (actions: Vec<Action>)
        requires
            old(self).wf(),
        ensures
            final(self).wf(),
            (*final(self), actions@) == old(self).after_end_of_stream(),
    {
        self.is_playing = false;
        self.announced_playing = false;
        self.fade = FadeState::Steady;
        let duration = frames_to_micros(self.duration_frames, self.source_sample_rate);
        let mut actions = Vec::new();
        actions.push(
            Action::PublishState {
                state: PlaybackState {
                    is_playing: false,
                    position_micros: duration,
                    duration_micros: duration,
                    volume: self.volume,
                },
            },
        );
        actions.push(Action::EmitEnded);
        actions.push(Action::EmitStateChanged { is_playing: false });
        proof {
            assert(actions@ =~= old(self).after_end_of_stream().1);
        }
        actions
    }

    /// The decoder has failed for good.
    pub fn decode_failed(&mut self, message: String) -> (actions: Vec<Action>)
        requires
            old(self).wf(),
        ensures
            final(self).wf(),
            (*final(self), actions@) == old(self).after_decode_failed(message),
    {
        self.is_playing = false;
        self.announced_playing = false;
        self.fade = FadeState::Steady;
        let mut actions = Vec::new();
        actions.push(Action::EmitError { message });
        actions.push(Action::PublishState { state: self.snapshot() });
        actions.push(Action::EmitStateChanged { is_playing: false });
        proof {
            assert(actions@ =~= old(self).after_decode_failed(message).1);
        }
        actions
    }

    /// A fade-out has reached silence: carries out what it was for.
    pub fn fade_completed(&mut self) -> (actions: Vec<Action>)
        requires
            old(self).wf(),
        ensures
            final(self).wf(),
            (*final(self), actions@) == old(self).after_fade_completed(),
    {
        let mut fade = FadeState::Steady;
        core::mem::swap(&mut self.fade, &mut fade);
        let mut actions = Vec::new();
        match fade.take_action() {
            Some(FadeAction::Pause) => {
                self.is_playing = false;
                self.announced_playing = false;
                actions.push(Action::PauseOutput);
                actions.push(Action::PublishState { state: self.snapshot() });
                actions.push(Action::EmitStateChanged { is_playing: false });
                proof {
                    assert(actions@ =~= old(self).after_fade_completed().1);
                }
            },
            Some(FadeAction::Stop) => {
                actions = self.stop_now();
            },
            Some(FadeAction::PlayNext { source }) => {
                self.release();
                actions.push(Action::ReleaseSource);
                actions.push(Action::OpenSource { source });
                proof {
                    assert(actions@ =~= seq![
                        Action::ReleaseSource,
                        Action::OpenSource { source },
                    ]);
                }
            },
            None => {},
        }
        actions
    }

    /// Whether a time event is due, `elapsed_ms` after the last one.
    pub fn time_event_due(&self, elapsed_ms: u64) -> (due: bool)
        ensures
            due == (self.is_playing && elapsed_ms >= TIME_EVENT_MS),
    {
        self.is_playing && elapsed_ms >= TIME_EVENT_MS
    }

    /// Whether a visualisation event is due, `elapsed_ms` after the last.
    pub fn fft_event_due(&self, elapsed_ms: u64) -> (due: bool)
        ensures
            due == (self.visualization && elapsed_ms >= FFT_EVENT_MS),
    {
        self.visualization && elapsed_ms >= FFT_EVENT_MS
    }

    /// How long the thread sleeps before its next turn.
    pub fn sleep_millis(&self) -> (millis: u64)
        ensures
            millis == if self.is_playing {
                PLAYING_SLEEP_MS
            } else {
                IDLE_SLEEP_MS
            },
    {
        if self.is_playing {
            PLAYING_SLEEP_MS
        } else {
            IDLE_SLEEP_MS
        }
    }

    /// The snapshot of a time event: the position is what the listener
    /// hears, given the samples that still wait in the ring.
    pub fn time_event(&self, buffered_samples: usize) -> (state: PlaybackState)
        ensures
            state == (PlaybackState {
                position_micros: self.heard_micros(buffered_samples),
                ..self.snapshot_of()
            }),
    {
        let decoded = frames_to_micros(self.position_frames, self.source_sample_rate);
        let heard = if !self.loaded {
            decoded
        } else {
            let buffered = samples_to_micros(buffered_samples, self.output);
            if buffered >= decoded {
                0
            } else {
                decoded - buffered
            }
        };
        PlaybackState {
            is_playing: self.is_playing,
            position_micros: heard,
            duration_micros: frames_to_micros(self.duration_frames, self.source_sample_rate),
            volume: self.volume,
        }
    }
}


/// Some action of the list has the device callback discard what is queued.
pub open spec fn asks_flush(actions: Seq<Action>) -> bool {
    exists|i: int| 0 <= i < actions.len() && actions[i] == Action::FlushOutput
}

/// Some action of the list tells the UI that playback has stopped.
pub open spec fn announces_stop(actions: Seq<Action>) -> bool {
    exists|i: int|
        0 <= i < actions.len() && actions[i] == (Action::EmitStateChanged { is_playing: false })
}

/// A later frame is never an earlier time.
pub proof fn lemma_micros_monotone(a: u64, b: u64, rate: u32)
    requires
        a <= b,
    ensures
        micros_of_frames(a, rate) <= micros_of_frames(b, rate),
{
    if rate > 0 {
        assert(a * MICROS_PER_SEC <= b * MICROS_PER_SEC) by (nonlinear_arith)
            requires
                a <= b,
        ;
        vstd::arithmetic::div_mod::lemma_div_is_ordered(
            a * MICROS_PER_SEC,
            b * MICROS_PER_SEC,
            rate as int,
        );
    }
}

/// In every well-formed state with a known duration the published position
/// lies between zero and the duration, and so does the position a time
/// event reports.
pub proof fn lemma_position_within_duration(core: EngineCore, buffered_samples: usize)
    requires
        core.wf(),
        core.duration_frames > 0,
    ensures
        core.snapshot_of().position_micros <= core.snapshot_of().duration_micros,
        core.heard_micros(buffered_samples) <= core.snapshot_of().duration_micros,
{
    lemma_micros_monotone(core.position_frames, core.duration_frames, core.source_sample_rate);
}

/// Every command leads from a well-formed state to a well-formed state.
pub proof fn lemma_command_keeps_wf(core: EngineCore, command: AudioCommand)
    requires
        core.wf(),
    ensures
        core.after_command(command).0.wf(),
{
    let full = full_scale(core.fade_rate(), core.fade_channels());
    lemma_full_scale_bounds(core.fade_rate(), core.fade_channels());
    lemma_gain_in_bounds(core.fade, full);
    if let AudioCommand::SetVolume { volume } = command {
        super::volume::lemma_clamp_range(volume);
    }
}

/// Every other event, too, leads from a well-formed state to a well-formed
/// state: the outcome of an open, a packet, the end of the stream, a decode
/// error and the end of a fade. In particular the position never leaves a
/// known duration.
pub proof fn lemma_events_keep_wf(
    core: EngineCore,
    format: DecodedInfo,
    output: OutputFormat,
    resampling: bool,
    with_fade_in: bool,
    samples: usize,
    message: String,
)
    requires
        core.wf(),
    ensures
        core.with_source(format).wf(),
        core.after_output_opened(output, resampling, with_fade_in).0.wf(),
        core.after_packet(samples).wf(),
        core.after_end_of_stream().0.wf(),
        core.after_decode_failed(message).0.wf(),
        core.after_open_failed(message).0.wf(),
        core.after_fade_completed().0.wf(),
{
    let rate = core.effective_rate(output, resampling);
    lemma_full_scale_bounds(rate, requested_channels(core.source_channels));
}

/// A seek, wherever it aims, leaves the position inside a known duration,
/// and a failed seek leaves everything as it was.
pub proof fn lemma_seek_clamps(core: EngineCore, ok: bool, position_micros: u64)
    requires
        core.wf(),
    ensures
        core.after_seek_finished(ok, position_micros).0.wf(),
        core.duration_frames > 0 ==> core.after_seek_finished(
            ok,
            position_micros,
        ).0.position_frames <= core.duration_frames,
        !ok ==> core.after_seek_finished(ok, position_micros) == (core, Seq::<Action>::empty()),
{
}

/// Pause, then the end of the fade-out, then resume: playback runs again
/// at the position at which it was paused.
pub proof fn lemma_pause_resume_keeps_position(core: EngineCore, faded_samples: int)
    requires
        core.wf(),
        core.is_playing,
        faded_samples >= 0,
        core.after_pause().0.fade.advanced(faded_samples).completed(),
    ensures
        ({
            let paused = core.after_pause().0;
            let silent = EngineCore { fade: paused.fade.advanced(faded_samples), ..paused };
            let suspended = silent.after_fade_completed().0;
            let resumed = suspended.after_resume().0;
            &&& !suspended.is_playing
            &&& suspended.loaded
            &&& suspended.position_frames == core.position_frames
            &&& resumed.is_playing
            &&& resumed.position_frames == core.position_frames
            &&& resumed.duration_frames == core.duration_frames
            &&& resumed.volume == core.volume
            &&& resumed.fade == suspended.fade_in_at(0)
        }),
{
}

/// A resume while the fade-out towards a pause still runs turns it round
/// at its present gain; a fade-out towards a stop or towards the next
/// source goes on.
pub proof fn lemma_resume_reverses_only_pause(core: EngineCore)
    requires
        core.wf(),
        core.is_playing,
        core.fade is FadingOut,
    ensures
        core.fade->FadingOut_action is Pause ==> ({
            let full = full_scale(core.fade_rate(), core.fade_channels());
            &&& core.after_resume().0.fade == core.fade_in_at(core.fade.gain_in(full))
            &&& core.after_resume().1 == Seq::<Action>::empty()
        }),
        !(core.fade->FadingOut_action is Pause) ==> core.after_resume() == (
            core,
            Seq::<Action>::empty(),
        ),
{
}

/// A gain update that does not carry ten gains changes nothing and asks
/// for nothing.
pub proof fn lemma_eq_bands_need_ten(core: EngineCore, gains: Vec<u32>)
    requires
        gains@.len() != EQ_BANDS,
    ensures
        core.after_command(AudioCommand::SetEqBands { gains }) == (core, Seq::<Action>::empty()),
{
}

/// Whatever bits a volume command carries, the volume stays in `[0, 1]`:
/// a NaN changes nothing, every other value is stored clamped. The fade
/// goes on untouched.
pub proof fn lemma_set_volume_clamps(core: EngineCore, bits: u32)
    requires
        core.wf(),
    ensures
        core.after_set_volume(bits).0.volume.wf(),
        core.after_set_volume(bits).0.fade == core.fade,
        core.after_set_volume(bits).0.is_playing == core.is_playing,
        super::volume::is_nan(bits) ==> core.after_set_volume(bits) == (
            core,
            Seq::<Action>::empty(),
        ),
        !super::volume::is_nan(bits) ==> clamped_bits(bits) == Some(
            core.after_set_volume(bits).0.volume@,
        ),
{
    super::volume::lemma_clamp_range(bits);
}

/// A change of track while playing never tells the UI that playback has
/// stopped: neither when the fade-out starts nor when it ends and the new
/// source is opened.
pub proof fn lemma_track_change_announces_no_stop(core: EngineCore, source: String)
    requires
        core.is_playing,
    ensures
        !announces_stop(core.after_play(source).1),
        !announces_stop(core.after_play(source).0.after_fade_completed().1),
{
    let first = core.after_play(source).1;
    assert(first[0] == Action::FlushOutput);
    let second = core.after_play(source).0.after_fade_completed().1;
    assert(second[0] == Action::ReleaseSource);
    assert(second[1] == (Action::OpenSource { source }));
}

proof fn lemma_full_scale_bounds(sample_rate: u32, channels: u16)
    ensures
        1 <= full_scale(sample_rate, channels) <= super::fade::MAX_FULL,
{
    if sample_rate != 0 && channels != 0 {
        assert(1 <= 3 * sample_rate * channels <= 0x3_0000_0000_0000) by (nonlinear_arith)
            requires
                1 <= sample_rate <= 0xffff_ffff,
                1 <= channels <= 0xffff,
        ;
    }
}

proof fn lemma_gain_in_bounds(fade: FadeState, full: int)
    requires
        fade.wf(),
        1 <= full,
    ensures
        0 <= fade.gain_in(full) <= full,
{
    match fade {
        FadeState::Steady => {},
        FadeState::FadingIn { gain, full: own, .. } => {
            lemma_rescaled_bounds(gain as int, own as int, full);
        },
        FadeState::FadingOut { gain, full: own, .. } => {
            lemma_rescaled_bounds(gain as int, own as int, full);
        },
    }
}

proof fn lemma_rescaled_bounds(gain: int, from: int, to: int)
    requires
        0 <= gain <= from,
        1 <= from,
        1 <= to,
    ensures
        0 <= super::fade::rescaled(gain, from, to) <= to,
{
    if from != to {
        assert(0 <= gain * to <= from * to) by (nonlinear_arith)
            requires
                0 <= gain <= from,
                to >= 1,
        ;
        assert(0 <= (gain * to) / from <= to) by (nonlinear_arith)
            requires
                0 <= gain * to <= from * to,
                from >= 1,
                to >= 1,
        ;
    }
}

/// Pause, the end of its fade-out and resume discard nothing of what is
/// queued in the ring: none of the three asks for a flush, so that the
/// listener hears after the resume what was queued before the pause.
pub proof fn lemma_pause_resume_discards_nothing(core: EngineCore, faded_samples: int)
    requires
        core.wf(),
        core.is_playing,
        faded_samples >= 0,
    ensures
        ({
            let paused = core.after_pause().0;
            let silent = EngineCore { fade: paused.fade.advanced(faded_samples), ..paused };
            let suspended = silent.after_fade_completed().0;
            &&& core.after_pause().1 == Seq::<Action>::empty()
            &&& !asks_flush(silent.after_fade_completed().1)
            &&& !asks_flush(suspended.after_resume().1)
        }),
{
    let paused = core.after_pause().0;
    let silent = EngineCore { fade: paused.fade.advanced(faded_samples), ..paused };
    let suspended = silent.after_fade_completed().0;
    let first = silent.after_fade_completed().1;
    assert(first[0] == Action::PauseOutput);
    assert(first[2] == (Action::EmitStateChanged { is_playing: false }));
    let second = suspended.after_resume().1;
    assert(second[0] == Action::ResumeOutput);
    assert(second[2] == (Action::EmitStateChanged { is_playing: true }));
}

/// The gains of the equalizer change with an accepted update and with
/// nothing else: every other command and every event keeps them.
pub proof fn lemma_only_an_update_changes_gains(
    core: EngineCore,
    command: AudioCommand,
    format: DecodedInfo,
    output: OutputFormat,
    resampling: bool,
    with_fade_in: bool,
    samples: usize,
    ok: bool,
    position_micros: u64,
    message: String,
)
    ensures
        !(command is SetEqBands) ==> core.after_command(command).0.eq_gains == core.eq_gains,
        command matches AudioCommand::SetEqBands { gains } ==> core.after_command(
            command,
        ).0.eq_gains == if gains@.len() == EQ_BANDS {
            ten_gains(gains@)
        } else {
            core.eq_gains
        },
        core.with_source(format).eq_gains == core.eq_gains,
        core.after_output_opened(output, resampling, with_fade_in).0.eq_gains == core.eq_gains,
        core.after_open_failed(message).0.eq_gains == core.eq_gains,
        core.after_seek_finished(ok, position_micros).0.eq_gains == core.eq_gains,
        core.after_packet(samples).eq_gains == core.eq_gains,
        core.after_end_of_stream().0.eq_gains == core.eq_gains,
        core.after_decode_failed(message).0.eq_gains == core.eq_gains,
        core.after_fade_completed().0.eq_gains == core.eq_gains,
{
}

/// When a source has been opened the equalizer is set up for the rate at
/// which samples reach it and for the channels of the output asked for,
/// and is then given the switch and the gains in force: neither is lost
/// over a change of track or of rate.
pub proof fn lemma_open_hands_on_the_gains(
    core: EngineCore,
    output: OutputFormat,
    resampling: bool,
    with_fade_in: bool,
)
    ensures
        ({
            let actions = core.after_output_opened(output, resampling, with_fade_in).1;
            &&& actions[0] == (Action::RebuildEqualizer {
                sample_rate: core.effective_rate(output, resampling),
                channels: requested_channels(core.source_channels),
                enabled: core.eq_enabled,
            })
            &&& actions[1] == (Action::SetEqGains { gains: core.eq_gains })
        }),
{
}

/// After a failed open and after a fatal decode error the engine is idle
/// and says so: the snapshot it publishes reports that nothing plays, and
/// the UI is told that playback has stopped unless it knows already.
pub proof fn lemma_failure_leaves_idle(core: EngineCore, message: String)
    ensures
        ({
            let (next, actions) = core.after_open_failed(message);
            &&& !next.is_playing
            &&& !next.loaded
            &&& next.position_frames == 0
            &&& actions[0] == (Action::EmitError { message })
            &&& actions[1] == (Action::PublishState { state: next.snapshot_of() })
            &&& !next.snapshot_of().is_playing
            &&& announces_stop(actions) == core.announced_playing
        }),
        ({
            let (next, actions) = core.after_decode_failed(message);
            &&& !next.is_playing
            &&& actions[0] == (Action::EmitError { message })
            &&& actions[1] == (Action::PublishState { state: next.snapshot_of() })
            &&& !next.snapshot_of().is_playing
            &&& announces_stop(actions)
        }),
{
    let (next, actions) = core.after_open_failed(message);
    if core.announced_playing {
        assert(actions[2] == (Action::EmitStateChanged { is_playing: false }));
    }
    let failed = core.after_decode_failed(message).1;
    assert(failed[2] == (Action::EmitStateChanged { is_playing: false }));
}

} // verus!
