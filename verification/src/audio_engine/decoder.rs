//! Decisions round the decoder: what kind of source an identifier names,
//! which track of a container is played, what is assumed where the codec
//! leaves a parameter open, and what the packet loop does with each
//! outcome of reading and decoding.

use vstd::prelude::*;

verus! {

/// The sample rate assumed where the codec names none.
pub const DEFAULT_SAMPLE_RATE: u32 = 44100;

/// The channel count assumed where the codec names none.
pub const DEFAULT_CHANNELS: usize = 2;

/// Constant attributes of an opened source.
#[derive(Clone, Copy, Debug, PartialEq, Eq, Structural)]
pub struct DecodedInfo {
    pub sample_rate: u32,
    pub channels: usize,
    /// Length in frames, zero when unknown.
    pub duration_frames: u64,
}

/// Where the bytes of a source come from.
#[derive(Clone, Copy, Debug, PartialEq, Eq, Structural)]
pub enum SourceKind {
    /// A file at a path of the local file system.
    LocalFile,
    /// An HTTP or HTTPS stream.
    HttpStream,
}

/// What the container tells of one of its tracks.
#[derive(Clone, Copy, Debug, PartialEq, Eq, Structural)]
pub struct TrackParams {
    pub id: u32,
    /// The track names a codec (other than the null codec).
    pub has_codec: bool,
    pub sample_rate: Option<u32>,
    pub channels: Option<usize>,
    pub n_frames: Option<u64>,
}

/// The outcome of asking the container for its next packet.
#[derive(Clone, Copy, Debug, PartialEq, Eq, Structural)]
pub enum PacketEvent {
    /// A packet of the track with this id.
    Packet { track_id: u32 },
    /// The stream ended (an unexpected end of file while reading).
    EndOfStream,
    /// The codec asks for a reset.
    ResetRequired,
    /// Any other error.
    Failed,
}

/// What the packet loop does after asking for a packet.
#[derive(Clone, Copy, Debug, PartialEq, Eq, Structural)]
pub enum PacketStep {
    /// Decode the packet.
    Decode,
    /// Ask for the next packet.
    Skip,
    /// Reset the decoder, then ask for the next packet.
    Reset,
    /// Report the end of the stream.
    Finish,
    /// Report the error.
    Fail,
}

/// The outcome of decoding a packet.
#[derive(Clone, Copy, Debug, PartialEq, Eq, Structural)]
pub enum DecodeEvent {
    Decoded,
    /// The packet is corrupt; the stream is not.
    Corrupt,
    /// Any other error.
    Failed,
}

/// What the packet loop does after decoding.
#[derive(Clone, Copy, Debug, PartialEq, Eq, Structural)]
pub enum DecodeStep {
    /// Hand the samples out.
    Deliver,
    /// Ask for the next packet.
    Skip,
    /// Report the error.
    Fail,
}

/// `s` begins with `prefix`.
pub open spec fn starts_with(s: Seq<char>, prefix: Seq<char>) -> bool {
    s.len() >= prefix.len() && s.subrange(0, prefix.len() as int) == prefix
}

/// The kind of source that an identifier names.
pub open spec fn kind_of(source: Seq<char>) -> SourceKind {
    if starts_with(source, "http://"@) || starts_with(source, "https://"@) {
        SourceKind::HttpStream
    } else {
        SourceKind::LocalFile
    }
}

/// The index of the track to play: the first that names a codec.
pub open spec fn first_playable(tracks: Seq<TrackParams>, i: int) -> bool {
    0 <= i < tracks.len() && tracks[i].has_codec && forall|j: int|
        0 <= j < i ==> !(#[trigger] tracks[j]).has_codec
}

/// The attributes of a track, with the defaults where it names none.
pub open spec fn info_of(track: TrackParams) -> DecodedInfo {
    DecodedInfo {
        sample_rate: match track.sample_rate {
            Some(rate) => rate,
            None => DEFAULT_SAMPLE_RATE,
        },
        channels: match track.channels {
            Some(channels) => channels,
            None => DEFAULT_CHANNELS,
        },
        duration_frames: match track.n_frames {
            Some(frames) => frames,
            None => 0,
        },
    }
}

/// Tells whether `text` begins with `prefix`.
pub fn has_prefix(text: &str, prefix: &str) -> (yes: bool)
    ensures
        yes == starts_with(text@, prefix@),
{
    let n = prefix.unicode_len();
    if text.unicode_len() < n {
        return false;
    }
    let mut i: usize = 0;
    while i < n
        invariant
            i <= n,
            n == prefix@.len(),
            n <= text@.len(),
            text@.subrange(0, i as int) == prefix@.subrange(0, i as int),
        decreases n - i,
    {
        if text.get_char(i) != prefix.get_char(i) {
            proof {
                assert(text@.subrange(0, n as int)[i as int] != prefix@[i as int]);
            }
            return false;
        }
        proof {
            assert(text@.subrange(0, i + 1) =~= text@.subrange(0, i as int).push(text@[i as int]));
            assert(prefix@.subrange(0, i + 1) =~= prefix@.subrange(0, i as int).push(
                prefix@[i as int],
            ));
        }
        i += 1;
    }
    proof {
        assert(prefix@.subrange(0, n as int) =~= prefix@);
    }
    true
}

/// Classifies a source identifier.
pub fn source_kind(source: &str) -> (kind: SourceKind)
    ensures
        kind == kind_of(source@),
{
    if has_prefix(source, "http://") || has_prefix(source, "https://") {
        SourceKind::HttpStream
    } else {
        SourceKind::LocalFile
    }
}

/// Picks the track to play.
pub fn select_track(tracks: &[TrackParams]) -> (chosen: Option<usize>)
    ensures
        match chosen {
            Some(i) => first_playable(tracks@, i as int),
            None => forall|j: int| 0 <= j < tracks@.len() ==> !(#[trigger] tracks@[j]).has_codec,
        },
{
    let n = tracks.len();
    let mut i: usize = 0;
    while i < n
        invariant
            i <= n,
            n == tracks@.len(),
            forall|j: int| 0 <= j < i ==> !(#[trigger] tracks@[j]).has_codec,
        decreases n - i,
    {
        if tracks[i].has_codec {
            return Some(i);
        }
        i += 1;
    }
    None
}

/// The attributes of the track to play.
pub fn describe_track(track: &TrackParams) -> (info: DecodedInfo)
    ensures
        info == info_of(*track),
{
    DecodedInfo {
        sample_rate: match track.sample_rate {
            Some(rate) => rate,
            None => DEFAULT_SAMPLE_RATE,
        },
        channels: match track.channels {
            Some(channels) => channels,
            None => DEFAULT_CHANNELS,
        },
        duration_frames: match track.n_frames {
            Some(frames) => frames,
            None => 0,
        },
    }
}

/// Decides on the outcome of asking for a packet, for a decoder that plays
/// the track `track_id`: packets of other tracks are passed over, the end
/// of the stream ends the loop, a reset request is honoured, and every
/// other error is final.
pub fn packet_step(track_id: u32, event: PacketEvent) -> (step: PacketStep)
    ensures
        step == match event {
            PacketEvent::Packet { track_id: id } => if id == track_id {
                PacketStep::Decode
            } else {
                PacketStep::Skip
            },
            PacketEvent::EndOfStream => PacketStep::Finish,
            PacketEvent::ResetRequired => PacketStep::Reset,
            PacketEvent::Failed => PacketStep::Fail,
        },
{
    match event {
        PacketEvent::Packet { track_id: id } => if id == track_id {
            PacketStep::Decode
        } else {
            PacketStep::Skip
        },
        PacketEvent::EndOfStream => PacketStep::Finish,
        PacketEvent::ResetRequired => PacketStep::Reset,
        PacketEvent::Failed => PacketStep::Fail,
    }
}

/// Decides on the outcome of decoding a packet: a corrupt packet is passed
/// over, every other error is final.
pub fn decode_step(event: DecodeEvent) -> (step: DecodeStep)
    ensures
        step == match event {
            DecodeEvent::Decoded => DecodeStep::Deliver,
            DecodeEvent::Corrupt => DecodeStep::Skip,
            DecodeEvent::Failed => DecodeStep::Fail,
        },
{
    match event {
        DecodeEvent::Decoded => DecodeStep::Deliver,
        DecodeEvent::Corrupt => DecodeStep::Skip,
        DecodeEvent::Failed => DecodeStep::Fail,
    }
}

/// Channels of a decoded buffer that are handed out: those the track
/// announced, as far as the buffer has them.
pub fn delivered_channels(announced: usize, in_buffer: usize) -> (channels: usize)
    ensures
        channels == if announced <= in_buffer {
            announced
        } else {
            in_buffer
        },
{
    if announced <= in_buffer {
        announced
    } else {
        in_buffer
    }
}

} // verus!
