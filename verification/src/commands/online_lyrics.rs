//! Records of the online lyrics search, and the arithmetic that ranks its
//! candidates and stamps their lines.

use vstd::prelude::*;
use crate::text::{lrc_tag, push_lrc_tag};
use crate::utils::cover::str_equal;

verus! {

/// A request for the lyrics of one candidate.
#[derive(Debug, Clone)]
pub struct OnlineLyricFetchRequest {
    pub source: String,
    pub qq_song_id: Option<i64>,
    pub netease_song_id: Option<String>,
    pub kugou_song_hash: Option<String>,
}

/// The lyrics of a candidate.
#[derive(Debug, Clone)]
pub struct OnlineLyricFetchResult {
    pub lyric: String,
    pub format: String,
    pub provider: String,
    pub raw: Option<String>,
}

/// The distance that stands for a candidate of unknown duration.
pub const UNKNOWN_DURATION_DIFF: i64 = 0x0fff_ffff_ffff_ffff;

/// A time in milliseconds, not below zero.
pub open spec fn clamped_ms(start_ms: i64) -> nat {
    if start_ms < 0 {
        0
    } else {
        start_ms as nat
    }
}

/// The LRC time tag of a line; a start below zero counts as zero.
pub open spec fn lrc_timestamp(start_ms: i64) -> Seq<char> {
    lrc_tag(clamped_ms(start_ms))
}

/// Places, among the first `n` of both texts, at which they hold the same
/// character.
pub open spec fn matches_within(left: Seq<char>, right: Seq<char>, n: int) -> int
    decreases n,
{
    if n <= 0 {
        0
    } else {
        matches_within(left, right, n - 1) + if left[n - 1] == right[n - 1] {
            1int
        } else {
            0int
        }
    }
}

/// The shorter of two lengths.
pub open spec fn shorter(a: int, b: int) -> int {
    if a <= b {
        a
    } else {
        b
    }
}

/// How far a candidate's duration lies from the target: zero without a
/// target, a large constant for a candidate of unknown duration.
pub open spec fn duration_distance(duration_ms: Option<i64>, target_ms: Option<i64>) -> int {
    match (target_ms, duration_ms) {
        (None, _) => 0,
        (Some(_), None) => UNKNOWN_DURATION_DIFF as int,
        (Some(target), Some(duration)) => if duration >= target {
            duration - target
        } else {
            target - duration
        },
    }
}

/// Renders the LRC time tag of a line that starts at `start_ms`.
pub fn format_lrc_timestamp(start_ms: i64) -> (tag: String)
    ensures
        tag@ == lrc_timestamp(start_ms),
{
    let total: u64 = if start_ms < 0 {
        0
    } else {
        start_ms as u64
    };
    let mut tag = String::new();
    push_lrc_tag(&mut tag, total);
    proof {
        assert(tag@ =~= lrc_timestamp(start_ms));
    }
    tag
}

/// Counts the places at which two texts hold the same character, as far as
/// the shorter one reaches.
pub fn prefix_match_count(left: &str, right: &str) -> (score: usize)
    ensures
        score == matches_within(left@, right@, shorter(left@.len() as int, right@.len() as int)),
{
    let left_len = left.unicode_len();
    let right_len = right.unicode_len();
    let min_length = if left_len <= right_len {
        left_len
    } else {
        right_len
    };
    let mut score: usize = 0;
    let mut index: usize = 0;
    while index < min_length
        invariant
            index <= min_length,
            min_length <= left@.len(),
            min_length <= right@.len(),
            score <= index,
            score == matches_within(left@, right@, index as int),
        decreases min_length - index,
    {
        if left.get_char(index) == right.get_char(index) {
            score += 1;
        }
        index += 1;
    }
    score
}

/// Measures how far a candidate's duration lies from the target; a
/// distance that exceeds the signed range counts as the largest number.
pub fn duration_diff(duration_ms: Option<i64>, target_duration_ms: Option<i64>) -> (diff: i64)
    ensures
        diff == if duration_distance(duration_ms, target_duration_ms) > i64::MAX {
            i64::MAX as int
        } else {
            duration_distance(duration_ms, target_duration_ms)
        },
{
    let target = match target_duration_ms {
        Some(target) => target,
        None => { return 0; },
    };
    let duration = match duration_ms {
        Some(duration) => duration,
        None => { return UNKNOWN_DURATION_DIFF; },
    };
    let wide: i128 = if duration >= target {
        duration as i128 - target as i128
    } else {
        target as i128 - duration as i128
    };
    if wide > i64::MAX as i128 {
        i64::MAX
    } else {
        wide as i64
    }
}

/// The text without the white space at its two ends, where white space is
/// what Unicode's property `White_Space` names.
pub uninterp spec fn trimmed_of(text: Seq<char>) -> Seq<char>;

/// The text in lower case, by Unicode's mapping.
pub uninterp spec fn lowercase_of(text: Seq<char>) -> Seq<char>;

/// `str::trim`: the slice without leading and trailing white space.
#[verifier::external_body]
fn trim(text: &str) -> (trimmed: &str)
    ensures
        trimmed@ == trimmed_of(text@),
{
    text.trim()
}

/// `str::to_lowercase`: the lower-case equivalent of the text, as a new
/// string.
#[verifier::external_body]
fn to_lowercase(text: &str) -> (lower: String)
    ensures
        lower@ == lowercase_of(text@),
{
    text.to_lowercase()
}

/// The name by which a provider is known: trimmed and in lower case.
pub open spec fn provider_key(provider: Seq<char>) -> Seq<char> {
    lowercase_of(trimmed_of(provider))
}

/// Some of the first `n` providers is known by `key`.
pub open spec fn names_provider(providers: Seq<String>, n: int, key: Seq<char>) -> bool {
    exists|i: int| 0 <= i < n && provider_key(#[trigger] providers[i]@) == key
}

/// The providers asked when none is chosen, in the order in which they are
/// asked.
pub open spec fn default_providers() -> Seq<Seq<char>> {
    seq!["qq"@, "kugou"@, "netease"@]
}

/// `key`, if some provider is known by it.
pub open spec fn if_named(providers: Seq<String>, key: Seq<char>) -> Seq<Seq<char>> {
    if names_provider(providers, providers.len() as int, key) {
        seq![key]
    } else {
        Seq::empty()
    }
}

/// The providers to ask: of those chosen, the ones that are known, each
/// once and in alphabetical order; all three where none is chosen or none
/// of the chosen is known.
pub open spec fn normalized_providers(providers: Option<Seq<String>>) -> Seq<Seq<char>> {
    match providers {
        None => default_providers(),
        Some(chosen) => {
            let known = if_named(chosen, "kugou"@) + if_named(chosen, "netease"@) + if_named(
                chosen,
                "qq"@,
            );
            if known.len() == 0 {
                default_providers()
            } else {
                known
            }
        },
    }
}

/// The texts of a list of strings.
pub open spec fn texts(list: Seq<String>) -> Seq<Seq<char>> {
    list.map_values(|s: String| s@)
}

fn default_list() -> (list: Vec<String>)
    ensures
        texts(list@) == default_providers(),
{
    let mut list: Vec<String> = Vec::new();
    list.push(String::from_str("qq"));
    list.push(String::from_str("kugou"));
    list.push(String::from_str("netease"));
    proof {
        assert(texts(list@) =~= default_providers());
    }
    list
}

/// Brings a choice of lyrics providers into its normal form.
pub fn normalize_providers(providers: Option<Vec<String>>) -> (list: Vec<String>)
    ensures
        texts(list@) == normalized_providers(
            match providers {
                Some(chosen) => Some(chosen@),
                None => None,
            },
        ),
{
    let chosen = match providers {
        Some(chosen) => chosen,
        None => { return default_list(); },
    };
    let n = chosen.len();
    let mut kugou = false;
    let mut netease = false;
    let mut qq = false;
    let mut i: usize = 0;
    while i < n
        invariant
            i <= n,
            n == chosen@.len(),
            kugou == names_provider(chosen@, i as int, "kugou"@),
            netease == names_provider(chosen@, i as int, "netease"@),
            qq == names_provider(chosen@, i as int, "qq"@),
        decreases n - i,
    {
        let key = to_lowercase(trim(chosen[i].as_str()));
        proof {
            assert(key@ == provider_key(chosen@[i as int]@));
        }
        if str_equal(key.as_str(), "kugou") {
            kugou = true;
        }
        if str_equal(key.as_str(), "netease") {
            netease = true;
        }
        if str_equal(key.as_str(), "qq") {
            qq = true;
        }
        i += 1;
    }
    let mut list: Vec<String> = Vec::new();
    if kugou {
        list.push(String::from_str("kugou"));
    }
    if netease {
        list.push(String::from_str("netease"));
    }
    if qq {
        list.push(String::from_str("qq"));
    }
    if list.len() == 0 {
        return default_list();
    }
    proof {
        assert(texts(list@) =~= if_named(chosen@, "kugou"@) + if_named(chosen@, "netease"@)
            + if_named(chosen@, "qq"@));
    }
    list
}

} // verus!
