use bayin::audio_engine::decoder::{
    decode_step, delivered_channels, describe_track, has_prefix, packet_step, select_track,
    source_kind, DecodeEvent, DecodeStep, DecodedInfo, PacketEvent, PacketStep, SourceKind,
    TrackParams,
};

fn track(id: u32, has_codec: bool) -> TrackParams {
    TrackParams { id, has_codec, sample_rate: Some(48_000), channels: Some(2), n_frames: Some(10) }
}

#[test]
fn http_sources_are_streams() {
    assert_eq!(source_kind("http://host/a.mp3"), SourceKind::HttpStream);
    assert_eq!(source_kind("https://host/file.flac"), SourceKind::HttpStream);
    assert_eq!(source_kind("/music/a.mp3"), SourceKind::LocalFile);
    assert_eq!(source_kind("C:\\music\\a.mp3"), SourceKind::LocalFile);
    assert_eq!(source_kind("HTTP://host/a.mp3"), SourceKind::LocalFile);
    assert_eq!(source_kind("http:/host"), SourceKind::LocalFile);
    assert_eq!(source_kind("ftp://http://x"), SourceKind::LocalFile);
    assert_eq!(source_kind(""), SourceKind::LocalFile);
    assert_eq!(source_kind("http://"), SourceKind::HttpStream);
}

#[test]
fn prefixes() {
    assert!(has_prefix("abc", ""));
    assert!(has_prefix("abc", "ab"));
    assert!(has_prefix("abc", "abc"));
    assert!(!has_prefix("abc", "abcd"));
    assert!(!has_prefix("abc", "b"));
    assert!(has_prefix("\u{97f3}\u{4e50}.mp3", "\u{97f3}"));
}

#[test]
fn first_track_with_a_codec_is_played() {
    assert_eq!(select_track(&[track(7, false), track(8, true), track(9, true)]), Some(1));
    assert_eq!(select_track(&[track(7, true)]), Some(0));
    assert_eq!(select_track(&[track(7, false), track(8, false)]), None);
    assert_eq!(select_track(&[]), None);
}

#[test]
fn missing_parameters_take_the_defaults() {
    assert_eq!(
        describe_track(&track(1, true)),
        DecodedInfo { sample_rate: 48_000, channels: 2, duration_frames: 10 }
    );
    let bare =
        TrackParams { id: 1, has_codec: true, sample_rate: None, channels: None, n_frames: None };
    assert_eq!(
        describe_track(&bare),
        DecodedInfo { sample_rate: 44_100, channels: 2, duration_frames: 0 }
    );
}

#[test]
fn packet_loop_decisions() {
    assert_eq!(packet_step(3, PacketEvent::Packet { track_id: 3 }), PacketStep::Decode);
    assert_eq!(packet_step(3, PacketEvent::Packet { track_id: 4 }), PacketStep::Skip);
    assert_eq!(packet_step(3, PacketEvent::EndOfStream), PacketStep::Finish);
    assert_eq!(packet_step(3, PacketEvent::ResetRequired), PacketStep::Reset);
    assert_eq!(packet_step(3, PacketEvent::Failed), PacketStep::Fail);
    assert_eq!(decode_step(DecodeEvent::Decoded), DecodeStep::Deliver);
    assert_eq!(decode_step(DecodeEvent::Corrupt), DecodeStep::Skip);
    assert_eq!(decode_step(DecodeEvent::Failed), DecodeStep::Fail);
}

#[test]
fn channels_handed_out() {
    assert_eq!(delivered_channels(2, 2), 2);
    assert_eq!(delivered_channels(2, 6), 2);
    assert_eq!(delivered_channels(6, 2), 2);
    assert_eq!(delivered_channels(0, 2), 0);
}
