//! Addresses and headers of the Jellyfin API, as spoken by Jellyfin and
//! Emby servers.

use vstd::prelude::*;
use crate::models::streaming::{JellyfinLyricLine, ServerType, StreamServerConfig};
use crate::text::{
    joined_lines,
    lemma_join_push,
    lrc_tag,
    push_lrc_tag,
    strip_end_slashes,
    trim_end_slashes,
};

verus! {

/// The text of an optional field, empty where it is missing.
pub open spec fn text_or_empty(field: Option<String>) -> Seq<char> {
    match field {
        Some(text) => text@,
        None => Seq::empty(),
    }
}

/// The value of the `Authorization` header: the client's identity, and the
/// access token once there is one.
pub open spec fn auth_header_value(access_token: Option<String>) -> Seq<char> {
    match access_token {
        Some(token) =>
            "MediaBrowser Client=\"BaYin\", Device=\"BaYin\", DeviceId=\"bayin-app\", Version=\"1.0.0\", Token=\""@
                + token@ + "\""@,
        None =>
            "MediaBrowser Client=\"BaYin\", Device=\"BaYin\", DeviceId=\"bayin-app\", Version=\"1.0.0\""@,
    }
}

/// The stream address of a song. Emby is asked for the file as it is.
pub open spec fn stream_url(config: StreamServerConfig, song_id: Seq<char>) -> Seq<char> {
    let common = trim_end_slashes(config.server_url@) + "/Audio/"@ + song_id
        + "/universal?UserId="@ + text_or_empty(config.user_id) + "&DeviceId=bayin-app&api_key="@
        + text_or_empty(config.access_token)
        + "&MaxStreamingBitrate=999999999&Container=opus,webm|opus,mp3,aac,m4a|aac,m4b|aac,flac,webma,webm|webma,wav,ogg&TranscodingContainer=mp4&TranscodingProtocol=hls&AudioCodec=aac"@;
    if config.server_type is Emby {
        common + "&Static=true"@
    } else {
        common
    }
}

/// The headers that authenticate a call.
pub fn build_auth_header(config: &StreamServerConfig) -> (headers: Vec<(String, String)>)
    ensures
        headers@.len() == 1,
        headers@[0].0@ == "Authorization"@,
        headers@[0].1@ == auth_header_value(config.access_token),
{
    let mut value = String::from_str(
        "MediaBrowser Client=\"BaYin\", Device=\"BaYin\", DeviceId=\"bayin-app\", Version=\"1.0.0\"",
    );
    match &config.access_token {
        Some(token) => {
            value.append(", Token=\"");
            value.append(token.as_str());
            value.append("\"");
            proof {
                reveal_strlit(
                    "MediaBrowser Client=\"BaYin\", Device=\"BaYin\", DeviceId=\"bayin-app\", Version=\"1.0.0\"",
                );
                reveal_strlit(", Token=\"");
                reveal_strlit(
                    "MediaBrowser Client=\"BaYin\", Device=\"BaYin\", DeviceId=\"bayin-app\", Version=\"1.0.0\", Token=\"",
                );
                assert(value@ =~= auth_header_value(config.access_token));
            }
        },
        None => {},
    }
    let mut headers: Vec<(String, String)> = Vec::new();
    headers.push((String::from_str("Authorization"), value));
    headers
}

/// The server's address without slashes at its end.
pub fn base_url(config: &StreamServerConfig) -> (url: String)
    ensures
        url@ == trim_end_slashes(config.server_url@),
{
    String::from_str(strip_end_slashes(config.server_url.as_str()))
}

/// The stream address of a song on the server.
pub fn get_stream_url(config: &StreamServerConfig, song_id: &str) -> (url: String)
    ensures
        url@ == stream_url(*config, song_id@),
{
    let mut url = base_url(config);
    url.append("/Audio/");
    url.append(song_id);
    url.append("/universal?UserId=");
    match &config.user_id {
        Some(id) => {
            url.append(id.as_str());
        },
        None => {},
    }
    url.append("&DeviceId=bayin-app&api_key=");
    match &config.access_token {
        Some(token) => {
            url.append(token.as_str());
        },
        None => {},
    }
    url.append(
        "&MaxStreamingBitrate=999999999&Container=opus,webm|opus,mp3,aac,m4a|aac,m4b|aac,flac,webma,webm|webma,wav,ogg&TranscodingContainer=mp4&TranscodingProtocol=hls&AudioCodec=aac",
    );
    match config.server_type {
        ServerType::Emby => {
            url.append("&Static=true");
        },
        _ => {},
    }
    proof {
        assert(url@ =~= stream_url(*config, song_id@));
    }
    url
}

/// Ticks of 100 ns in a millisecond.
pub const TICKS_PER_MS: u64 = 10000;

/// The lines that carry a start time, each as an LRC line: its time tag,
/// then its text.
pub open spec fn timed_lines(lines: Seq<JellyfinLyricLine>) -> Seq<Seq<char>>
    decreases lines.len(),
{
    if lines.len() == 0 {
        Seq::empty()
    } else {
        let before = timed_lines(lines.drop_last());
        match lines.last().start {
            Some(ticks) => before.push(
                lrc_tag((ticks / TICKS_PER_MS) as nat) + lines.last().text@,
            ),
            None => before,
        }
    }
}

/// The text of every line.
pub open spec fn plain_lines(lines: Seq<JellyfinLyricLine>) -> Seq<Seq<char>>
    decreases lines.len(),
{
    if lines.len() == 0 {
        Seq::empty()
    } else {
        plain_lines(lines.drop_last()).push(lines.last().text@)
    }
}

/// The lyrics of a song as one text: in LRC where any line carries a start
/// time (lines without one are then left out), else as plain text, and
/// nothing where no text is left.
pub open spec fn lyrics_of(lines: Seq<JellyfinLyricLine>) -> Option<Seq<char>> {
    if timed_lines(lines).len() > 0 {
        Some(joined_lines(timed_lines(lines)))
    } else if joined_lines(plain_lines(lines)).len() > 0 {
        Some(joined_lines(plain_lines(lines)))
    } else {
        None
    }
}

/// Renders the lyrics of a song as one text.
pub fn lyrics_text(lines: &Vec<JellyfinLyricLine>) -> (text: Option<String>)
    ensures
        match text {
            Some(t) => lyrics_of(lines@) == Some(t@),
            None => lyrics_of(lines@).is_none(),
        },
{
    let n = lines.len();
    let mut lrc = String::new();
    let mut timed: usize = 0;
    let mut plain = String::new();
    let mut i: usize = 0;
    while i < n
        invariant
            i <= n,
            n == lines@.len(),
            timed <= i,
            timed == timed_lines(lines@.subrange(0, i as int)).len(),
            lrc@ == joined_lines(timed_lines(lines@.subrange(0, i as int))),
            plain_lines(lines@.subrange(0, i as int)).len() == i,
            plain@ == joined_lines(plain_lines(lines@.subrange(0, i as int))),
        decreases n - i,
    {
        let line = &lines[i];
        proof {
            let so_far = lines@.subrange(0, i as int);
            let next = lines@.subrange(0, i + 1);
            assert(next.drop_last() =~= so_far);
            assert(next.last() == lines@[i as int]);
            reveal_strlit("\n");
            lemma_join_push(plain_lines(so_far), line.text@);
            match line.start {
                Some(ticks) => {
                    lemma_join_push(
                        timed_lines(so_far),
                        lrc_tag((ticks / TICKS_PER_MS) as nat) + line.text@,
                    );
                },
                None => {},
            }
        }
        match line.start {
            Some(ticks) => {
                if timed > 0 {
                    lrc.append("\n");
                }
                push_lrc_tag(&mut lrc, ticks / TICKS_PER_MS);
                lrc.append(line.text.as_str());
                timed += 1;
                proof {
                    let so_far = lines@.subrange(0, i as int);
                    let entry = lrc_tag((ticks / TICKS_PER_MS) as nat) + line.text@;
                    assert(lrc@ =~= if timed_lines(so_far).len() == 0 {
                        entry
                    } else {
                        joined_lines(timed_lines(so_far)) + "\n"@ + entry
                    });
                }
            },
            None => {},
        }
        if i > 0 {
            plain.append("\n");
        }
        plain.append(line.text.as_str());
        proof {
            let so_far = lines@.subrange(0, i as int);
            assert(plain@ =~= if plain_lines(so_far).len() == 0 {
                line.text@
            } else {
                joined_lines(plain_lines(so_far)) + "\n"@ + line.text@
            });
        }
        i += 1;
    }
    proof {
        assert(lines@.subrange(0, n as int) =~= lines@);
    }
    if timed > 0 {
        Some(lrc)
    } else if plain.as_str().unicode_len() > 0 {
        Some(plain)
    } else {
        None
    }
}

} // verus!
