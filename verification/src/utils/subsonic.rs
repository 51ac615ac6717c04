//! Addresses and credentials of the Subsonic API, as spoken by Navidrome,
//! Subsonic and OpenSubsonic servers, and the records of its lyrics calls.

use vstd::prelude::*;
use crate::models::streaming::StreamServerConfig;
use crate::text::{
    joined_lines,
    lemma_join_push,
    lrc_tag,
    push_lrc_tag,
    strip_end_slashes,
    trim_end_slashes,
};

verus! {

/// Length of the salt of a token.
pub const SALT_LEN: usize = 12;

/// The protocol version sent with every call.
pub const API_VERSION: &'static str = "1.16.1";

/// The client name sent with every call.
pub const CLIENT_NAME: &'static str = "BaYin";

/// Answer to `getLyrics`.
#[derive(Debug, Clone)]
pub struct GetLyricsResponse {
    pub lyrics: Option<LyricsData>,
}

/// The text of unsynchronised lyrics.
#[derive(Debug, Clone)]
pub struct LyricsData {
    pub value: Option<String>,
}

/// Answer to `getLyricsBySongId`, an OpenSubsonic extension.
#[derive(Debug, Clone)]
pub struct GetLyricsBySongIdResponse {
    pub lyrics_list: Option<LyricsList>,
}

/// The lyrics a server holds for a song.
#[derive(Debug, Clone)]
pub struct LyricsList {
    pub structured_lyrics: Option<Vec<StructuredLyrics>>,
}

/// One set of lyrics, line by line.
#[derive(Debug, Clone)]
pub struct StructuredLyrics {
    pub synced: Option<bool>,
    pub line: Option<Vec<LyricLine>>,
}

/// One line of lyrics; `start` is in milliseconds.
#[derive(Debug, Clone)]
pub struct LyricLine {
    pub start: Option<u64>,
    pub value: Option<String>,
}

/// The lower-case hexadecimal MD5 digest of the UTF-8 bytes of a text.
pub uninterp spec fn md5_hex_of(text: Seq<char>) -> Seq<char>;

/// An ASCII letter or digit.
pub open spec fn is_alphanumeric(c: char) -> bool {
    ('a' <= c && c <= 'z') || ('A' <= c && c <= 'Z') || ('0' <= c && c <= '9')
}

/// A salt: twelve ASCII letters and digits.
pub open spec fn is_salt(salt: Seq<char>) -> bool {
    salt.len() == SALT_LEN && forall|i: int| 0 <= i < salt.len() ==> is_alphanumeric(#[trigger] salt[i])
}

/// The token that proves knowledge of a password for a salt.
pub open spec fn token_of(password: Seq<char>, salt: Seq<char>) -> Seq<char> {
    md5_hex_of(password + salt)
}

/// The address of an endpoint of a server.
pub open spec fn endpoint_url(server_url: Seq<char>, endpoint: Seq<char>) -> Seq<char> {
    trim_end_slashes(server_url) + "/rest/"@ + endpoint
}

/// The query that authenticates a call.
pub open spec fn auth_query(username: Seq<char>, token: Seq<char>, salt: Seq<char>) -> Seq<char> {
    "u="@ + username + "&t="@ + token + "&s="@ + salt + "&v=1.16.1&c=BaYin&f=json"@
}

/// The address from which a song is streamed.
pub open spec fn stream_url(
    server_url: Seq<char>,
    song_id: Seq<char>,
    username: Seq<char>,
    password: Seq<char>,
    salt: Seq<char>,
) -> Seq<char> {
    trim_end_slashes(server_url) + "/rest/stream?id="@ + song_id + "&"@ + auth_query(
        username,
        token_of(password, salt),
        salt,
    )
}

/// `md5::compute` on the bytes of `text`, printed with the digest's
/// `LowerHex`: 32 hexadecimal digits that depend on the text alone.
#[verifier::external_body]
pub(crate) fn md5_hex(text: &str) -> (digest: String)
    ensures
        digest@ == md5_hex_of(text@),
{
    format!("{:x}", md5::compute(text))
}

/// `len` draws from `rand::distributions::Alphanumeric` with the thread's
/// generator: each is an ASCII letter or digit; which, is left to chance.
#[verifier::external_body]
pub(crate) fn random_alphanumeric(len: usize) -> (text: String)
    ensures
        text@.len() == len,
        forall|i: int| 0 <= i < text@.len() ==> is_alphanumeric(#[trigger] text@[i]),
{
    rand::Rng::sample_iter(rand::thread_rng(), &rand::distributions::Alphanumeric)
        .take(len)
        .map(char::from)
        .collect()
}

/// Draws a fresh salt.
pub(crate) fn random_salt() -> (salt: String)
    ensures
        is_salt(salt@),
{
    random_alphanumeric(SALT_LEN)
}

/// One name and value of an authenticated call.
#[derive(Debug, Clone)]
pub struct AuthParam {
    pub name: &'static str,
    pub value: String,
}

/// The parameters that authenticate a call, for a given salt: user,
/// token, salt, protocol version, client name and answer format.
pub fn auth_params_with_salt(username: &str, password: &str, salt: String) -> (params: Vec<
    AuthParam,
>)
    ensures
        params@.len() == 6,
        params@[0].name@ == "u"@ && params@[0].value@ == username@,
        params@[1].name@ == "t"@ && params@[1].value@ == token_of(password@, salt@),
        params@[2].name@ == "s"@ && params@[2].value@ == salt@,
        params@[3].name@ == "v"@ && params@[3].value@ == API_VERSION@,
        params@[4].name@ == "c"@ && params@[4].value@ == CLIENT_NAME@,
        params@[5].name@ == "f"@ && params@[5].value@ == "json"@,
{
    let mut salted = String::from_str(password);
    salted.append(salt.as_str());
    let token = md5_hex(salted.as_str());
    let mut params: Vec<AuthParam> = Vec::new();
    params.push(AuthParam { name: "u", value: String::from_str(username) });
    params.push(AuthParam { name: "t", value: token });
    params.push(AuthParam { name: "s", value: salt });
    params.push(AuthParam { name: "v", value: String::from_str(API_VERSION) });
    params.push(AuthParam { name: "c", value: String::from_str(CLIENT_NAME) });
    params.push(AuthParam { name: "f", value: String::from_str("json") });
    params
}

/// The parameters that authenticate a call, with a fresh salt.
pub fn generate_auth_params(username: &str, password: &str) -> (params: Vec<AuthParam>)
    ensures
        params@.len() == 6,
        is_salt(params@[2].value@),
        params@[0].name@ == "u"@ && params@[0].value@ == username@,
        params@[1].name@ == "t"@ && params@[1].value@ == token_of(password@, params@[2].value@),
        params@[2].name@ == "s"@,
        params@[3].name@ == "v"@ && params@[3].value@ == API_VERSION@,
        params@[4].name@ == "c"@ && params@[4].value@ == CLIENT_NAME@,
        params@[5].name@ == "f"@ && params@[5].value@ == "json"@,
{
    auth_params_with_salt(username, password, random_salt())
}

/// Joins parameters to a query: `name=value` pairs with `&` between.
pub open spec fn query_of(params: Seq<AuthParam>) -> Seq<char>
    decreases params.len(),
{
    if params.len() == 0 {
        Seq::empty()
    } else if params.len() == 1 {
        params[0].name@ + "="@ + params[0].value@
    } else {
        query_of(params.drop_last()) + "&"@ + params.last().name@ + "="@ + params.last().value@
    }
}

/// Renders parameters as a query.
pub fn build_query(params: &Vec<AuthParam>) -> (query: String)
    ensures
        query@ == query_of(params@),
{
    let mut query = String::new();
    let mut i: usize = 0;
    while i < params.len()
        invariant
            i <= params@.len(),
            query@ == query_of(params@.subrange(0, i as int)),
        decreases params@.len() - i,
    {
        proof {
            assert(params@.subrange(0, i + 1).drop_last() =~= params@.subrange(0, i as int));
            reveal_strlit("&");
            reveal_strlit("=");
        }
        if i > 0 {
            query.append("&");
        }
        query.append(params[i].name);
        query.append("=");
        query.append(params[i].value.as_str());
        proof {
            assert(query@ =~= query_of(params@.subrange(0, i + 1)));
        }
        i += 1;
    }
    proof {
        assert(params@.subrange(0, params@.len() as int) =~= params@);
    }
    query
}

/// The address of an API endpoint of the server.
pub fn build_url(config: &StreamServerConfig, endpoint: &str) -> (url: String)
    ensures
        url@ == endpoint_url(config.server_url@, endpoint@),
{
    let mut url = String::from_str(strip_end_slashes(config.server_url.as_str()));
    url.append("/rest/");
    url.append(endpoint);
    url
}

/// The stream address of a song, authenticated with the given salt.
pub fn stream_url_with_salt(server_url: &str, username: &str, password: &str, song_id: &str, salt: String) -> (url:
    String)
    ensures
        url@ == stream_url(server_url@, song_id@, username@, password@, salt@),
{
    let params = auth_params_with_salt(username, password, salt);
    let query = build_query(&params);
    proof {
        lemma_auth_query(params@, username@, token_of(password@, salt@), salt@);
    }
    let mut url = String::from_str(strip_end_slashes(server_url));
    url.append("/rest/stream?id=");
    url.append(song_id);
    url.append("&");
    url.append(query.as_str());
    proof {
        assert(url@ =~= stream_url(server_url@, song_id@, username@, password@, salt@));
    }
    url
}

/// The six parameters of a call render to its authenticating query.
proof fn lemma_auth_query(
    params: Seq<AuthParam>,
    username: Seq<char>,
    token: Seq<char>,
    salt: Seq<char>,
)
    requires
        params.len() == 6,
        params[0].name@ == "u"@ && params[0].value@ == username,
        params[1].name@ == "t"@ && params[1].value@ == token,
        params[2].name@ == "s"@ && params[2].value@ == salt,
        params[3].name@ == "v"@ && params[3].value@ == API_VERSION@,
        params[4].name@ == "c"@ && params[4].value@ == CLIENT_NAME@,
        params[5].name@ == "f"@ && params[5].value@ == "json"@,
    ensures
        query_of(params) == auth_query(username, token, salt),
{
    reveal_strlit("u");
    reveal_strlit("t");
    reveal_strlit("s");
    reveal_strlit("v");
    reveal_strlit("c");
    reveal_strlit("f");
    reveal_strlit("=");
    reveal_strlit("&");
    reveal_strlit("u=");
    reveal_strlit("&t=");
    reveal_strlit("&s=");
    reveal_strlit("1.16.1");
    reveal_strlit("BaYin");
    reveal_strlit("json");
    reveal_strlit("&v=1.16.1&c=BaYin&f=json");
    let p5 = params;
    let p4 = p5.drop_last();
    let p3 = p4.drop_last();
    let p2 = p3.drop_last();
    let p1 = p2.drop_last();
    let p0 = p1.drop_last();
    assert(query_of(p0) =~= "u="@ + username);
    assert(query_of(p1) =~= "u="@ + username + "&t="@ + token);
    assert(query_of(p2) =~= "u="@ + username + "&t="@ + token + "&s="@ + salt);
    assert(query_of(p3) =~= query_of(p2) + "&v=1.16.1"@) by {
        reveal_strlit("&v=1.16.1");
    }
    assert(query_of(p4) =~= query_of(p2) + "&v=1.16.1&c=BaYin"@) by {
        reveal_strlit("&v=1.16.1");
        reveal_strlit("&v=1.16.1&c=BaYin");
    }
    assert(query_of(p5) =~= query_of(p2) + "&v=1.16.1&c=BaYin&f=json"@) by {
        reveal_strlit("&v=1.16.1&c=BaYin");
    }
}

/// The stream address of a song on the server. Each call draws a fresh
/// salt; the address is the one that salt gives.
pub fn get_stream_url(config: &StreamServerConfig, song_id: &str) -> (url: String)
    ensures
        exists|salt: Seq<char>|
            is_salt(salt) && url@ == stream_url(
                config.server_url@,
                song_id@,
                config.username@,
                config.password@,
                salt,
            ),
{
    let salt = random_salt();
    let ghost drawn = salt@;
    let url = stream_url_with_salt(
        config.server_url.as_str(),
        config.username.as_str(),
        config.password.as_str(),
        song_id,
        salt,
    );
    proof {
        assert(is_salt(drawn) && url@ == stream_url(
            config.server_url@,
            song_id@,
            config.username@,
            config.password@,
            drawn,
        ));
    }
    url
}

/// The start of a line in milliseconds; a line without one starts at zero.
pub open spec fn start_of(line: LyricLine) -> nat {
    match line.start {
        Some(ms) => ms as nat,
        None => 0,
    }
}

/// The lines that have a text, each as an LRC line: its time tag, then its
/// text.
pub open spec fn synced_lines(lines: Seq<LyricLine>) -> Seq<Seq<char>>
    decreases lines.len(),
{
    if lines.len() == 0 {
        Seq::empty()
    } else {
        let before = synced_lines(lines.drop_last());
        match lines.last().value {
            Some(text) => before.push(lrc_tag(start_of(lines.last())) + text@),
            None => before,
        }
    }
}

/// The text of the lines that have one.
pub open spec fn unsynced_lines(lines: Seq<LyricLine>) -> Seq<Seq<char>>
    decreases lines.len(),
{
    if lines.len() == 0 {
        Seq::empty()
    } else {
        let before = unsynced_lines(lines.drop_last());
        match lines.last().value {
            Some(text) => before.push(text@),
            None => before,
        }
    }
}

/// What one set of lyrics renders to, with or without time tags; nothing
/// for a set without lines, and, where time tags are asked for, for a set
/// that is not marked as synchronised.
pub open spec fn rendered(set: StructuredLyrics, with_tags: bool) -> Seq<char> {
    match set.line {
        Some(lines) => if with_tags {
            if set.synced == Some(true) {
                joined_lines(synced_lines(lines@))
            } else {
                Seq::empty()
            }
        } else {
            joined_lines(unsynced_lines(lines@))
        },
        None => Seq::empty(),
    }
}

/// The first set, in order, that renders to a text.
pub open spec fn first_rendered(sets: Seq<StructuredLyrics>, with_tags: bool) -> Option<Seq<char>>
    decreases sets.len(),
{
    if sets.len() == 0 {
        None
    } else if rendered(sets[0], with_tags).len() > 0 {
        Some(rendered(sets[0], with_tags))
    } else {
        first_rendered(sets.drop_first(), with_tags)
    }
}

/// The lyrics of a song as one text: the first synchronised set in LRC,
/// else the first set as plain text, else nothing.
pub open spec fn structured_lyrics_of(sets: Seq<StructuredLyrics>) -> Option<Seq<char>> {
    if first_rendered(sets, true).is_some() {
        first_rendered(sets, true)
    } else {
        first_rendered(sets, false)
    }
}

/// Renders the lines of one set.
fn render_lines(lines: &Vec<LyricLine>, with_tags: bool) -> (text: String)
    ensures
        text@ == if with_tags {
            joined_lines(synced_lines(lines@))
        } else {
            joined_lines(unsynced_lines(lines@))
        },
{
    let n = lines.len();
    let mut text = String::new();
    let mut count: usize = 0;
    let mut i: usize = 0;
    while i < n
        invariant
            i <= n,
            n == lines@.len(),
            count <= i,
            with_tags ==> count == synced_lines(lines@.subrange(0, i as int)).len() && text@
                == joined_lines(synced_lines(lines@.subrange(0, i as int))),
            !with_tags ==> count == unsynced_lines(lines@.subrange(0, i as int)).len() && text@
                == joined_lines(unsynced_lines(lines@.subrange(0, i as int))),
        decreases n - i,
    {
        let line = &lines[i];
        proof {
            let so_far = lines@.subrange(0, i as int);
            let next = lines@.subrange(0, i + 1);
            assert(next.drop_last() =~= so_far);
            assert(next.last() == lines@[i as int]);
            reveal_strlit("\n");
            if let Some(value) = lines@[i as int].value {
                lemma_join_push(synced_lines(so_far), lrc_tag(start_of(lines@[i as int])) + value@);
                lemma_join_push(unsynced_lines(so_far), value@);
            }
        }
        match &line.value {
            Some(value) => {
                let ghost before = text@;
                if count > 0 {
                    text.append("\n");
                }
                if with_tags {
                    let start = match line.start {
                        Some(ms) => ms,
                        None => 0,
                    };
                    push_lrc_tag(&mut text, start);
                }
                text.append(value.as_str());
                count += 1;
                proof {
                    let entry = if with_tags {
                        lrc_tag(start_of(*line)) + value@
                    } else {
                        value@
                    };
                    assert(text@ =~= if count == 1 {
                        entry
                    } else {
                        before + "\n"@ + entry
                    });
                }
            },
            None => {},
        }
        i += 1;
    }
    proof {
        assert(lines@.subrange(0, n as int) =~= lines@);
    }
    text
}

/// Renders one set of lyrics.
fn render_set(set: &StructuredLyrics, with_tags: bool) -> (text: String)
    ensures
        text@ == rendered(*set, with_tags),
{
    let synced = match set.synced {
        Some(synced) => synced,
        None => false,
    };
    match &set.line {
        Some(lines) => {
            if with_tags && !synced {
                String::new()
            } else {
                render_lines(lines, with_tags)
            }
        },
        None => String::new(),
    }
}

/// Finds the first set that renders to a text.
fn first_text(sets: &Vec<StructuredLyrics>, with_tags: bool) -> (text: Option<String>)
    ensures
        match text {
            Some(t) => first_rendered(sets@, with_tags) == Some(t@),
            None => first_rendered(sets@, with_tags).is_none(),
        },
{
    let n = sets.len();
    let mut i: usize = 0;
    proof {
        assert(sets@.subrange(0, n as int) =~= sets@);
    }
    while i < n
        invariant
            i <= n,
            n == sets@.len(),
            first_rendered(sets@, with_tags) == first_rendered(
                sets@.subrange(i as int, n as int),
                with_tags,
            ),
        decreases n - i,
    {
        let text = render_set(&sets[i], with_tags);
        proof {
            let rest = sets@.subrange(i as int, n as int);
            assert(rest[0] == sets@[i as int]);
            assert(rest.drop_first() =~= sets@.subrange(i + 1, n as int));
        }
        if text.as_str().unicode_len() > 0 {
            return Some(text);
        }
        i += 1;
    }
    None
}

/// Renders the structured lyrics of a song as one text.
pub fn structured_lyrics_text(sets: &Vec<StructuredLyrics>) -> (text: Option<String>)
    ensures
        match text {
            Some(t) => structured_lyrics_of(sets@) == Some(t@),
            None => structured_lyrics_of(sets@).is_none(),
        },
{
    match first_text(sets, true) {
        Some(text) => Some(text),
        None => first_text(sets, false),
    }
}

} // verus!
