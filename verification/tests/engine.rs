use bayin::audio_engine::decoder::DecodedInfo;
use bayin::audio_engine::engine::{
    frames_to_micros, micros_to_frames, output_channels_for, samples_to_micros, Action,
    AudioCommand, EngineCore, OutputFormat, PlaybackState,
};
use bayin::audio_engine::fade::{FadeAction, FadeState};
use bayin::audio_engine::volume::Volume;

const STEREO_44K: OutputFormat = OutputFormat { sample_rate: 44100, channels: 2 };

fn scale(sample: f32, volume: u32, gain: u64, full: u64) -> f32 {
    sample * (f32::from_bits(volume) * (gain as f32 / full as f32))
}

fn playing_core(duration_frames: u64) -> EngineCore {
    let mut core = EngineCore::new();
    let actions = core.handle_command(AudioCommand::Play { source: "/a.mp3".to_string() });
    assert_eq!(
        actions,
        vec![Action::ReleaseSource, Action::OpenSource { source: "/a.mp3".to_string() }]
    );
    let request = core.source_decoded(DecodedInfo {
        sample_rate: 44100,
        channels: 2,
        duration_frames,
    });
    assert_eq!(request, STEREO_44K);
    assert!(!core.needs_resampler(STEREO_44K));
    core.output_opened(STEREO_44K, false, true);
    core
}

fn state_changes(actions: &[Action]) -> Vec<bool> {
    let mut seen = Vec::new();
    for action in actions {
        if let Action::EmitStateChanged { is_playing } = action {
            seen.push(*is_playing);
        }
    }
    seen
}

#[test]
fn new_engine_is_idle() {
    let core = EngineCore::new();
    assert!(!core.is_playing);
    assert!(!core.loaded);
    assert_eq!(core.fade, FadeState::Steady);
    assert_eq!(core.volume, Volume::unity());
    assert!(core.eq_enabled);
    assert!(!core.visualization);
    assert_eq!(
        core.snapshot(),
        PlaybackState {
            is_playing: false,
            position_micros: 0,
            duration_micros: 0,
            volume: Volume::unity()
        }
    );
    assert_eq!(core.sleep_millis(), 10);
}

#[test]
fn local_play_from_idle_to_the_end() {
    let mut core = EngineCore::new();
    core.handle_command(AudioCommand::Play { source: "/a.mp3".to_string() });
    core.source_decoded(DecodedInfo { sample_rate: 44100, channels: 2, duration_frames: 1_323_000 });
    let actions = core.output_opened(STEREO_44K, false, true);
    assert_eq!(
        actions,
        vec![
            Action::RebuildEqualizer { sample_rate: 44100, channels: 2, enabled: true },
            Action::SetEqGains { gains: [0; 10] },
            Action::PublishState {
                state: PlaybackState {
                    is_playing: true,
                    position_micros: 0,
                    duration_micros: 30_000_000,
                    volume: Volume::unity()
                }
            },
            Action::EmitStateChanged { is_playing: true },
        ]
    );
    assert!(core.is_playing);
    assert_eq!(core.fade, FadeState::FadingIn { gain: 0, step: 15, full: 264_600 });
    assert_eq!(core.sleep_millis(), 1);

    let mut last = 0;
    for _ in 0..1300 {
        core.packet_played(2304);
        let now = core.time_event(0).position_micros;
        assert!(now >= last);
        assert!(now <= 30_000_000);
        last = now;
    }
    assert_eq!(core.position_frames, 1_323_000);
    assert!(core.time_event_due(250));
    assert!(!core.time_event_due(249));

    let actions = core.end_of_stream();
    assert_eq!(
        actions,
        vec![
            Action::PublishState {
                state: PlaybackState {
                    is_playing: false,
                    position_micros: 30_000_000,
                    duration_micros: 30_000_000,
                    volume: Volume::unity()
                }
            },
            Action::EmitEnded,
            Action::EmitStateChanged { is_playing: false },
        ]
    );
    assert!(!core.is_playing);
    assert!(!core.time_event_due(1000));
}

#[test]
fn play_reports_an_open_failure_and_stays_idle() {
    let mut core = EngineCore::new();
    core.handle_command(AudioCommand::Play { source: "/missing.mp3".to_string() });
    let before = core.clone();
    let actions = core.open_failed("Failed to open file".to_string());
    assert_eq!(
        actions,
        vec![
            Action::EmitError { message: "Failed to open file".to_string() },
            Action::PublishState {
                state: PlaybackState {
                    is_playing: false,
                    position_micros: 0,
                    duration_micros: 0,
                    volume: Volume::unity()
                }
            },
        ]
    );
    assert_eq!(core, before);
    assert!(!core.is_playing);
    assert!(!core.loaded);
}

#[test]
fn failed_open_after_a_track_change_leaves_the_engine_idle() {
    let mut core = playing_core(1_323_000);
    core.packet_played(88_200);
    core.handle_command(AudioCommand::Play { source: "/broken.flac".to_string() });
    let mut packet = vec![1.0f32; 20_000];
    assert!(core.scale_packet(&mut packet, scale));
    assert_eq!(
        core.fade_completed(),
        vec![Action::ReleaseSource, Action::OpenSource { source: "/broken.flac".to_string() }]
    );
    let actions = core.open_failed("Failed to probe audio format".to_string());
    assert_eq!(
        actions,
        vec![
            Action::EmitError { message: "Failed to probe audio format".to_string() },
            Action::PublishState {
                state: PlaybackState {
                    is_playing: false,
                    position_micros: 0,
                    duration_micros: 30_000_000,
                    volume: Volume::unity()
                }
            },
            Action::EmitStateChanged { is_playing: false },
        ]
    );
    assert!(!core.is_playing);
    assert!(!core.loaded);
    assert!(!core.resampling);
    assert_eq!(core.position_frames, 0);
    assert!(!core.snapshot().is_playing);
}

#[test]
fn failed_output_after_a_decoded_source_leaves_the_engine_idle() {
    let mut core = EngineCore::new();
    core.handle_command(AudioCommand::Play { source: "/a.mp3".to_string() });
    core.source_decoded(DecodedInfo { sample_rate: 48_000, channels: 2, duration_frames: 96_000 });
    let actions = core.open_failed("No audio output device found".to_string());
    assert_eq!(
        actions,
        vec![
            Action::EmitError { message: "No audio output device found".to_string() },
            Action::PublishState {
                state: PlaybackState {
                    is_playing: false,
                    position_micros: 0,
                    duration_micros: 2_000_000,
                    volume: Volume::unity()
                }
            },
        ]
    );
    assert!(!core.is_playing);
    assert!(!core.loaded);
}

#[test]
fn output_is_asked_for_two_channels_at_most() {
    assert_eq!(output_channels_for(1), 1);
    assert_eq!(output_channels_for(2), 2);
    assert_eq!(output_channels_for(6), 2);
    assert_eq!(output_channels_for(0), 0);
    let mut core = EngineCore::new();
    let request = core.source_decoded(DecodedInfo {
        sample_rate: 96000,
        channels: 6,
        duration_frames: 0,
    });
    assert_eq!(request, OutputFormat { sample_rate: 96000, channels: 2 });
    assert!(core.needs_resampler(OutputFormat { sample_rate: 48000, channels: 2 }));
}

#[test]
fn resampled_source_fades_at_the_output_rate() {
    let mut core = EngineCore::new();
    core.handle_command(AudioCommand::SetEqEnabled { enabled: false });
    core.handle_command(AudioCommand::Play { source: "/a.flac".to_string() });
    core.source_decoded(DecodedInfo { sample_rate: 96000, channels: 2, duration_frames: 0 });
    let actions =
        core.output_opened(OutputFormat { sample_rate: 48000, channels: 2 }, true, true);
    assert_eq!(
        actions[0],
        Action::RebuildEqualizer { sample_rate: 48000, channels: 2, enabled: false }
    );
    assert_eq!(core.fade, FadeState::FadingIn { gain: 0, step: 15, full: 288_000 });
    assert!(core.resampling);

    let mut core = EngineCore::new();
    core.handle_command(AudioCommand::Play { source: "/a.flac".to_string() });
    core.source_decoded(DecodedInfo { sample_rate: 96000, channels: 2, duration_frames: 0 });
    let actions =
        core.output_opened(OutputFormat { sample_rate: 48000, channels: 2 }, false, false);
    assert_eq!(
        actions[0],
        Action::RebuildEqualizer { sample_rate: 96000, channels: 2, enabled: true }
    );
    assert_eq!(core.fade, FadeState::Steady);
}

#[test]
fn pause_fades_out_then_suspends() {
    let mut core = playing_core(1_323_000);
    core.fade = FadeState::Steady;
    core.packet_played(88_200);
    let actions = core.handle_command(AudioCommand::Pause);
    assert!(actions.is_empty());
    assert_eq!(
        core.fade,
        FadeState::FadingOut { gain: 264_600, step: 20, full: 264_600, action: FadeAction::Pause }
    );
    assert!(core.is_playing);

    let mut packet = vec![1.0f32; 13_229];
    assert!(!core.scale_packet(&mut packet, scale));
    let mut packet = vec![1.0f32; 1];
    assert!(core.scale_packet(&mut packet, scale));
    let actions = core.fade_completed();
    assert_eq!(
        actions,
        vec![
            Action::PauseOutput,
            Action::PublishState {
                state: PlaybackState {
                    is_playing: false,
                    position_micros: 1_000_000,
                    duration_micros: 30_000_000,
                    volume: Volume::unity()
                }
            },
            Action::EmitStateChanged { is_playing: false },
        ]
    );
    assert!(!core.is_playing);
    assert!(core.loaded);
    assert_eq!(core.fade, FadeState::Steady);
}

#[test]
fn pause_then_resume_keeps_the_position() {
    let mut core = playing_core(1_323_000);
    core.packet_played(200_000);
    let position = core.position_frames;
    core.handle_command(AudioCommand::Pause);
    let mut packet = vec![0.5f32; 20_000];
    assert!(core.scale_packet(&mut packet, scale));
    core.fade_completed();
    assert_eq!(core.position_frames, position);
    let actions = core.handle_command(AudioCommand::Resume);
    assert_eq!(
        actions,
        vec![
            Action::ResumeOutput,
            Action::PublishState {
                state: PlaybackState {
                    is_playing: true,
                    position_micros: frames_to_micros(position, 44100),
                    duration_micros: 30_000_000,
                    volume: Volume::unity()
                }
            },
            Action::EmitStateChanged { is_playing: true },
        ]
    );
    assert!(core.is_playing);
    assert_eq!(core.position_frames, position);
    assert_eq!(core.fade, FadeState::FadingIn { gain: 0, step: 15, full: 264_600 });
}

#[test]
fn pause_when_idle_does_nothing() {
    let mut core = EngineCore::new();
    let before = core.clone();
    assert!(core.handle_command(AudioCommand::Pause).is_empty());
    assert_eq!(core, before);
    assert!(core.handle_command(AudioCommand::Resume).is_empty());
    assert_eq!(core, before);
}

#[test]
fn resume_reverses_a_pause_fade_at_its_gain() {
    let mut core = playing_core(0);
    core.fade = FadeState::Steady;
    core.handle_command(AudioCommand::Pause);
    let mut packet = vec![1.0f32; 1000];
    assert!(!core.scale_packet(&mut packet, scale));
    assert_eq!(
        core.fade,
        FadeState::FadingOut { gain: 244_600, step: 20, full: 264_600, action: FadeAction::Pause }
    );
    let actions = core.handle_command(AudioCommand::Resume);
    assert!(actions.is_empty());
    assert_eq!(core.fade, FadeState::FadingIn { gain: 244_600, step: 15, full: 264_600 });
    assert!(core.is_playing);
}

#[test]
fn resume_does_not_reverse_a_stop_fade() {
    let mut core = playing_core(0);
    core.handle_command(AudioCommand::Stop);
    let before = core.clone();
    assert!(core.handle_command(AudioCommand::Resume).is_empty());
    assert_eq!(core, before);

    let mut core = playing_core(0);
    core.handle_command(AudioCommand::Play { source: "/b.mp3".to_string() });
    let before = core.clone();
    assert!(core.handle_command(AudioCommand::Resume).is_empty());
    assert_eq!(core, before);
}

#[test]
fn stop_while_playing_fades_then_releases() {
    let mut core = playing_core(1_323_000);
    core.handle_command(AudioCommand::EnableVisualization { enabled: true });
    core.packet_played(88_200);
    let actions = core.handle_command(AudioCommand::Stop);
    assert_eq!(actions, vec![Action::FlushOutput]);
    assert!(matches!(core.fade, FadeState::FadingOut { action: FadeAction::Stop, .. }));
    let mut packet = vec![1.0f32; 4096];
    assert!(core.scale_packet(&mut packet, scale));
    let actions = core.fade_completed();
    assert_eq!(
        actions,
        vec![
            Action::ReleaseSource,
            Action::SetVisualization { enabled: false },
            Action::PublishState {
                state: PlaybackState {
                    is_playing: false,
                    position_micros: 0,
                    duration_micros: 0,
                    volume: Volume::unity()
                }
            },
            Action::EmitStateChanged { is_playing: false },
        ]
    );
    assert!(!core.is_playing);
    assert!(!core.loaded);
    assert!(!core.visualization);
    assert_eq!(core.position_frames, 0);
    assert_eq!(core.duration_frames, 0);
}

#[test]
fn stop_when_idle_releases_at_once() {
    let mut core = playing_core(1000);
    core.end_of_stream();
    let actions = core.handle_command(AudioCommand::Stop);
    assert_eq!(actions.len(), 4);
    assert_eq!(actions[0], Action::ReleaseSource);
    assert_eq!(actions[3], Action::EmitStateChanged { is_playing: false });
    assert!(!core.loaded);
}

#[test]
fn track_change_fades_out_then_opens_the_next_source() {
    let mut core = playing_core(1_323_000);
    core.fade = FadeState::Steady;
    core.packet_played(882_000);
    let mut seen = Vec::new();

    let actions = core.handle_command(AudioCommand::Play { source: "/b.flac".to_string() });
    assert_eq!(actions, vec![Action::FlushOutput]);
    seen.extend(state_changes(&actions));
    assert_eq!(
        core.fade,
        FadeState::FadingOut {
            gain: 264_600,
            step: 20,
            full: 264_600,
            action: FadeAction::PlayNext { source: "/b.flac".to_string() }
        }
    );

    let mut packet = vec![1.0f32; 13_230];
    assert!(core.scale_packet(&mut packet, scale));
    let actions = core.fade_completed();
    assert_eq!(
        actions,
        vec![Action::ReleaseSource, Action::OpenSource { source: "/b.flac".to_string() }]
    );
    seen.extend(state_changes(&actions));
    assert!(!core.is_playing);
    assert_eq!(core.position_frames, 0);

    core.source_decoded(DecodedInfo { sample_rate: 48000, channels: 2, duration_frames: 480_000 });
    let actions = core.output_opened(OutputFormat { sample_rate: 48000, channels: 2 }, false, true);
    seen.extend(state_changes(&actions));
    assert_eq!(core.fade, FadeState::FadingIn { gain: 0, step: 15, full: 288_000 });
    assert_eq!(seen, vec![true]);
}

#[test]
fn fade_completed_without_a_fade_out_does_nothing() {
    let mut core = playing_core(0);
    let actions = core.fade_completed();
    assert!(actions.is_empty());
    assert_eq!(core.fade, FadeState::Steady);
    assert!(core.is_playing);
}

#[test]
fn seek_asks_the_decoder_then_moves() {
    let mut core = playing_core(1_323_000);
    let before = core.clone();
    let actions = core.handle_command(AudioCommand::Seek { position_micros: 12_000_000 });
    assert_eq!(actions, vec![Action::SeekDecoder { position_micros: 12_000_000 }]);
    assert_eq!(core, before);
    let actions = core.seek_finished(true, 12_000_000);
    assert_eq!(core.position_frames, 529_200);
    assert_eq!(
        actions,
        vec![
            Action::FlushOutput,
            Action::ResetEqualizer,
            Action::PublishState {
                state: PlaybackState {
                    is_playing: true,
                    position_micros: 12_000_000,
                    duration_micros: 30_000_000,
                    volume: Volume::unity()
                }
            },
        ]
    );
    assert_eq!(core.fade, before.fade);
}

#[test]
fn seek_clamps_to_the_duration() {
    let mut core = playing_core(1_323_000);
    core.seek_finished(true, 0);
    assert_eq!(core.position_frames, 0);
    core.seek_finished(true, 30_000_000);
    assert_eq!(core.position_frames, 1_323_000);
    core.seek_finished(true, 45_000_000);
    assert_eq!(core.position_frames, 1_323_000);
    core.seek_finished(true, u64::MAX);
    assert_eq!(core.position_frames, 1_323_000);
    assert_eq!(core.snapshot().position_micros, 30_000_000);
}

#[test]
fn seek_without_a_duration_is_not_clamped() {
    let mut core = playing_core(0);
    core.seek_finished(true, 45_000_000);
    assert_eq!(core.position_frames, 1_984_500);
    core.seek_finished(true, u64::MAX);
    assert_eq!(core.position_frames, 813_501_413_650_591_226);
}

#[test]
fn failed_seek_changes_nothing() {
    let mut core = playing_core(1_323_000);
    core.packet_played(2000);
    let before = core.clone();
    assert!(core.seek_finished(false, 12_000_000).is_empty());
    assert_eq!(core, before);
}

#[test]
fn seek_when_nothing_is_loaded_does_nothing() {
    let mut core = EngineCore::new();
    assert!(core.handle_command(AudioCommand::Seek { position_micros: 5 }).is_empty());
}

#[test]
fn set_volume_clamps() {
    let mut core = EngineCore::new();
    let cases: [(f32, f32); 8] = [
        (0.5, 0.5),
        (2.0, 1.0),
        (-2.0, 0.0),
        (f32::INFINITY, 1.0),
        (f32::NEG_INFINITY, 0.0),
        (0.0, 0.0),
        (-0.0, 0.0),
        (1.0, 1.0),
    ];
    for (given, expected) in cases {
        let actions = core.handle_command(AudioCommand::SetVolume { volume: given.to_bits() });
        assert_eq!(core.volume.to_bits(), expected.to_bits());
        assert_eq!(actions, vec![Action::PublishState { state: core.snapshot() }]);
    }
}

#[test]
fn set_volume_ignores_nan() {
    let mut core = EngineCore::new();
    core.handle_command(AudioCommand::SetVolume { volume: 0.25f32.to_bits() });
    let before = core.clone();
    assert!(core.handle_command(AudioCommand::SetVolume { volume: f32::NAN.to_bits() }).is_empty());
    assert_eq!(core, before);
    assert!(core
        .handle_command(AudioCommand::SetVolume { volume: (-f32::NAN).to_bits() })
        .is_empty());
    assert_eq!(core, before);
    assert!(core.handle_command(AudioCommand::SetVolume { volume: 0x7f80_0001 }).is_empty());
    assert_eq!(core.volume.to_bits(), 0.25f32.to_bits());
}

#[test]
fn set_volume_during_a_pause_fade() {
    let mut core = playing_core(0);
    core.fade = FadeState::Steady;
    core.handle_command(AudioCommand::Pause);
    let mut packet = vec![1.0f32; 4];
    core.scale_packet(&mut packet, scale);
    let fade = core.fade.clone();
    core.handle_command(AudioCommand::SetVolume { volume: 0.5f32.to_bits() });
    assert_eq!(core.fade, fade);

    let mut packet = vec![1.0f32; 2];
    assert!(!core.scale_packet(&mut packet, scale));
    let gain_4 = (264_600.0f32 - 80.0) / 264_600.0;
    let gain_5 = (264_600.0f32 - 100.0) / 264_600.0;
    assert_eq!(packet, vec![0.5 * gain_4, 0.5 * gain_5]);

    let mut packet = vec![1.0f32; 20_000];
    assert!(core.scale_packet(&mut packet, scale));
    assert_eq!(packet[19_999], 0.0);
    assert_eq!(core.fade_completed()[0], Action::PauseOutput);
    assert!(!core.is_playing);

    core.handle_command(AudioCommand::Resume);
    assert_eq!(core.volume.to_bits(), 0.5f32.to_bits());
    let mut packet = vec![1.0f32; 3];
    core.scale_packet(&mut packet, scale);
    assert_eq!(packet[0], 0.0);
    assert_eq!(packet[2], 0.5 * (30.0 / 264_600.0));
}

#[test]
fn eq_bands_need_ten_gains() {
    let mut core = EngineCore::new();
    let before = core.clone();
    for len in [0usize, 1, 9, 11, 20] {
        let actions = core.handle_command(AudioCommand::SetEqBands { gains: vec![0u32; len] });
        assert!(actions.is_empty());
        assert_eq!(core, before);
    }
    let gains: Vec<u32> = (0..10).map(|i| (i as f32).to_bits()).collect();
    let mut kept = [0u32; 10];
    kept.copy_from_slice(&gains);
    let actions = core.handle_command(AudioCommand::SetEqBands { gains });
    assert_eq!(actions, vec![Action::SetEqGains { gains: kept }]);
    assert_eq!(core.eq_gains, kept);
    core.eq_gains = before.eq_gains;
    assert_eq!(core, before);
}

#[test]
fn gains_survive_a_change_of_track_and_rate() {
    let mut core = playing_core(1_323_000);
    let gains: Vec<u32> = (0..10).map(|i| (i as f32 - 4.5).to_bits()).collect();
    let mut kept = [0u32; 10];
    kept.copy_from_slice(&gains);
    core.handle_command(AudioCommand::SetEqBands { gains });
    core.handle_command(AudioCommand::SetEqBands { gains: vec![0; 3] });
    core.handle_command(AudioCommand::SetEqEnabled { enabled: false });

    core.handle_command(AudioCommand::Play { source: "/b.flac".to_string() });
    let mut packet = vec![1.0f32; 20_000];
    assert!(core.scale_packet(&mut packet, scale));
    core.fade_completed();
    core.source_decoded(DecodedInfo { sample_rate: 96_000, channels: 1, duration_frames: 0 });
    let actions = core.output_opened(OutputFormat { sample_rate: 48_000, channels: 2 }, true, true);
    assert_eq!(
        &actions[..2],
        &[
            Action::RebuildEqualizer { sample_rate: 48_000, channels: 1, enabled: false },
            Action::SetEqGains { gains: kept },
        ]
    );
    assert_eq!(core.eq_gains, kept);

    core.handle_command(AudioCommand::Stop);
    let mut packet = vec![1.0f32; 20_000];
    assert!(core.scale_packet(&mut packet, scale));
    core.fade_completed();
    core.handle_command(AudioCommand::Play { source: "/c.mp3".to_string() });
    core.source_decoded(DecodedInfo { sample_rate: 44_100, channels: 2, duration_frames: 0 });
    let actions = core.output_opened(STEREO_44K, false, true);
    assert_eq!(actions[1], Action::SetEqGains { gains: kept });
}

#[test]
fn toggles_are_passed_on() {
    let mut core = EngineCore::new();
    assert_eq!(
        core.handle_command(AudioCommand::SetEqEnabled { enabled: false }),
        vec![Action::SetEqEnabled { enabled: false }]
    );
    assert!(!core.eq_enabled);
    assert_eq!(
        core.handle_command(AudioCommand::EnableVisualization { enabled: true }),
        vec![Action::SetVisualization { enabled: true }]
    );
    assert!(core.visualization);
    assert!(core.fft_event_due(33));
    assert!(!core.fft_event_due(32));
    core.handle_command(AudioCommand::EnableVisualization { enabled: false });
    assert!(!core.fft_event_due(1000));
}

#[test]
fn short_source_ends_during_the_fade_in() {
    let mut core = playing_core(2205);
    let mut packet = vec![1.0f32; 4410];
    assert!(!core.scale_packet(&mut packet, scale));
    assert_eq!(packet[0], 0.0);
    for pair in packet.windows(2) {
        assert!(pair[1] >= pair[0]);
        assert!(pair[1] - pair[0] < 0.0001);
    }
    core.packet_played(4410);
    assert!(matches!(core.fade, FadeState::FadingIn { gain: 66_150, .. }));
    let actions = core.end_of_stream();
    assert!(actions.contains(&Action::EmitEnded));
    assert_eq!(core.fade, FadeState::Steady);
    assert!(!core.is_playing);
}

#[test]
fn decode_failure_stops_playback() {
    let mut core = playing_core(1000);
    core.packet_played(88_200);
    let actions = core.decode_failed("Decode error: bad frame".to_string());
    assert_eq!(
        actions,
        vec![
            Action::EmitError { message: "Decode error: bad frame".to_string() },
            Action::PublishState {
                state: PlaybackState {
                    is_playing: false,
                    position_micros: frames_to_micros(1000, 44_100),
                    duration_micros: frames_to_micros(1000, 44_100),
                    volume: Volume::unity()
                }
            },
            Action::EmitStateChanged { is_playing: false },
        ]
    );
    assert!(!core.is_playing);
    assert!(core.loaded);
    assert_eq!(core.fade, FadeState::Steady);
}

#[test]
fn packets_are_decoded_while_the_ring_has_room() {
    let core = playing_core(0);
    assert!(core.wants_packet(0, 8192));
    assert!(core.wants_packet(31, 100_000));
    assert!(!core.wants_packet(32, 100_000));
    assert!(!core.wants_packet(0, 8191));
    let idle = EngineCore::new();
    assert!(!idle.wants_packet(0, 100_000));
}

#[test]
fn position_counts_whole_frames_and_stops_at_the_duration() {
    let mut core = playing_core(1000);
    core.packet_played(401);
    assert_eq!(core.position_frames, 200);
    core.packet_played(1598);
    assert_eq!(core.position_frames, 999);
    core.packet_played(4);
    assert_eq!(core.position_frames, 1000);
    core.packet_played(4000);
    assert_eq!(core.position_frames, 1000);

    let mut core = playing_core(0);
    core.position_frames = u64::MAX - 1;
    core.packet_played(8);
    assert_eq!(core.position_frames, u64::MAX);
}

#[test]
fn time_event_reports_what_the_listener_hears() {
    let mut core = playing_core(1_323_000);
    core.packet_played(176_400);
    assert_eq!(core.time_event(0).position_micros, 2_000_000);
    assert_eq!(core.time_event(44_100).position_micros, 1_500_000);
    assert_eq!(core.time_event(176_400).position_micros, 0);
    assert_eq!(core.time_event(1_000_000).position_micros, 0);
    let event = core.time_event(88_200);
    assert_eq!(event.duration_micros, 30_000_000);
    assert!(event.is_playing);
    assert_eq!(core.position_frames, 88_200);
}

#[test]
fn time_conversions() {
    assert_eq!(frames_to_micros(44_100, 44_100), 1_000_000);
    assert_eq!(frames_to_micros(1, 44_100), 22);
    assert_eq!(frames_to_micros(1, 0), 0);
    assert_eq!(frames_to_micros(u64::MAX, 1), u64::MAX);
    assert_eq!(micros_to_frames(1_000_000, 48_000), 48_000);
    assert_eq!(micros_to_frames(999_999, 48_000), 47_999);
    assert_eq!(micros_to_frames(u64::MAX, 192_000), 3_541_774_862_152_233_910);
    assert_eq!(micros_to_frames(u64::MAX, 4_000_000), u64::MAX);
    assert_eq!(samples_to_micros(88_200, STEREO_44K), 1_000_000);
    assert_eq!(samples_to_micros(1, OutputFormat { sample_rate: 0, channels: 2 }), u64::MAX);
    assert_eq!(samples_to_micros(1, OutputFormat { sample_rate: 44_100, channels: 0 }), u64::MAX);
}

fn to_json(state: &PlaybackState) -> String {
    let mut fields = serde_json::Map::new();
    fields.insert("is_playing".to_string(), serde_json::Value::Bool(state.is_playing));
    fields.insert("position_micros".to_string(), serde_json::Value::from(state.position_micros));
    fields.insert("duration_micros".to_string(), serde_json::Value::from(state.duration_micros));
    fields.insert("volume".to_string(), serde_json::Value::from(state.volume.to_bits()));
    serde_json::Value::Object(fields).to_string()
}

fn from_json(text: &str) -> Option<PlaybackState> {
    let value: serde_json::Value = serde_json::from_str(text).ok()?;
    Some(PlaybackState {
        is_playing: value.get("is_playing")?.as_bool()?,
        position_micros: value.get("position_micros")?.as_u64()?,
        duration_micros: value.get("duration_micros")?.as_u64()?,
        volume: Volume::from_bits(value.get("volume")?.as_u64()? as u32)?,
    })
}

#[test]
fn snapshot_survives_serialization() {
    let mut core = playing_core(1_323_000);
    core.packet_played(12_345);
    core.handle_command(AudioCommand::SetVolume { volume: 0.3f32.to_bits() });
    let states = [
        EngineCore::new().snapshot(),
        core.snapshot(),
        core.time_event(999),
        PlaybackState {
            is_playing: true,
            position_micros: u64::MAX,
            duration_micros: u64::MAX,
            volume: Volume::from_bits(0).unwrap(),
        },
    ];
    for state in states {
        assert_eq!(from_json(&to_json(&state)), Some(state));
    }
}
