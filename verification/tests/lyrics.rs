use bayin::commands::online_lyrics::{
    duration_diff, format_lrc_timestamp, normalize_providers, prefix_match_count,
    UNKNOWN_DURATION_DIFF,
};

#[test]
fn lrc_time_tags() {
    assert_eq!(format_lrc_timestamp(0), "[00:00.00]");
    assert_eq!(format_lrc_timestamp(9), "[00:00.00]");
    assert_eq!(format_lrc_timestamp(10), "[00:00.01]");
    assert_eq!(format_lrc_timestamp(61_230), "[01:01.23]");
    assert_eq!(format_lrc_timestamp(599_999), "[09:59.99]");
    assert_eq!(format_lrc_timestamp(6_000_000), "[100:00.00]");
    assert_eq!(format_lrc_timestamp(-5), "[00:00.00]");
    assert_eq!(format_lrc_timestamp(i64::MIN), "[00:00.00]");
    assert_eq!(format_lrc_timestamp(i64::MAX), "[153722867280912:55.80]");
}

#[test]
fn matching_places() {
    assert_eq!(prefix_match_count("hello", "hello world"), 5);
    assert_eq!(prefix_match_count("hello", "help"), 3);
    assert_eq!(prefix_match_count("abc", "xbc"), 2);
    assert_eq!(prefix_match_count("abc", ""), 0);
    assert_eq!(prefix_match_count("", ""), 0);
    assert_eq!(prefix_match_count("\u{97f3}\u{4e50}", "\u{97f3}x"), 1);
}

#[test]
fn duration_distance() {
    assert_eq!(duration_diff(Some(200_000), Some(180_000)), 20_000);
    assert_eq!(duration_diff(Some(180_000), Some(200_000)), 20_000);
    assert_eq!(duration_diff(Some(5), Some(5)), 0);
    assert_eq!(duration_diff(Some(5), None), 0);
    assert_eq!(duration_diff(None, None), 0);
    assert_eq!(duration_diff(None, Some(5)), i64::MAX / 8);
    assert_eq!(UNKNOWN_DURATION_DIFF, i64::MAX / 8);
    assert_eq!(duration_diff(Some(i64::MIN), Some(i64::MAX)), i64::MAX);
    assert_eq!(duration_diff(Some(i64::MAX), Some(0)), i64::MAX);
    assert_eq!(duration_diff(Some(-1), Some(i64::MAX)), i64::MAX);
}

fn jelly(start: Option<u64>, text: &str) -> bayin::models::streaming::JellyfinLyricLine {
    bayin::models::streaming::JellyfinLyricLine { start, text: text.to_string() }
}

fn line(start: Option<u64>, value: Option<&str>) -> bayin::utils::subsonic::LyricLine {
    bayin::utils::subsonic::LyricLine { start, value: value.map(str::to_string) }
}

fn set(
    synced: Option<bool>,
    lines: Option<Vec<bayin::utils::subsonic::LyricLine>>,
) -> bayin::utils::subsonic::StructuredLyrics {
    bayin::utils::subsonic::StructuredLyrics { synced, line: lines }
}

#[test]
fn jellyfin_timed_lyrics_become_lrc() {
    let lines = vec![
        jelly(Some(0), "first"),
        jelly(None, "no time"),
        jelly(Some(612_300_000), "second"),
        jelly(Some(9_999), ""),
    ];
    assert_eq!(
        bayin::utils::jellyfin::lyrics_text(&lines),
        Some("[00:00.00]first\n[01:01.23]second\n[00:00.00]".to_string())
    );
}

#[test]
fn jellyfin_untimed_lyrics_stay_plain() {
    let lines = vec![jelly(None, "one"), jelly(None, ""), jelly(None, "three")];
    assert_eq!(bayin::utils::jellyfin::lyrics_text(&lines), Some("one\n\nthree".to_string()));
    assert_eq!(bayin::utils::jellyfin::lyrics_text(&vec![jelly(None, "")]), None);
    assert_eq!(
        bayin::utils::jellyfin::lyrics_text(&vec![jelly(None, ""), jelly(None, "")]),
        Some("\n".to_string())
    );
    assert_eq!(bayin::utils::jellyfin::lyrics_text(&Vec::new()), None);
}

#[test]
fn subsonic_prefers_the_first_synced_set() {
    let sets = vec![
        set(Some(false), Some(vec![line(Some(5), Some("plain a"))])),
        set(Some(true), None),
        set(Some(true), Some(vec![line(None, None)])),
        set(
            Some(true),
            Some(vec![
                line(Some(61_230), Some("synced a")),
                line(Some(70_000), None),
                line(None, Some("synced b")),
            ]),
        ),
        set(Some(true), Some(vec![line(Some(1), Some("later"))])),
    ];
    assert_eq!(
        bayin::utils::subsonic::structured_lyrics_text(&sets),
        Some("[01:01.23]synced a\n[00:00.00]synced b".to_string())
    );
}

#[test]
fn subsonic_falls_back_to_the_first_set_with_text() {
    let sets = vec![
        set(None, None),
        set(Some(false), Some(vec![line(Some(5), None)])),
        set(None, Some(vec![line(Some(5), Some("one")), line(None, Some("two"))])),
        set(Some(false), Some(vec![line(None, Some("other"))])),
    ];
    assert_eq!(
        bayin::utils::subsonic::structured_lyrics_text(&sets),
        Some("one\ntwo".to_string())
    );
    let synced_but_empty = vec![
        set(Some(true), Some(vec![line(Some(5), None)])),
        set(Some(true), Some(vec![line(Some(5), Some(""))])),
    ];
    assert_eq!(
        bayin::utils::subsonic::structured_lyrics_text(&synced_but_empty),
        Some("[00:00.00]".to_string())
    );
    assert_eq!(bayin::utils::subsonic::structured_lyrics_text(&Vec::new()), None);
    assert_eq!(bayin::utils::subsonic::structured_lyrics_text(&vec![set(Some(true), None)]), None);
}

fn providers(names: &[&str]) -> Option<Vec<String>> {
    Some(names.iter().map(|name| name.to_string()).collect())
}

#[test]
fn providers_default_to_all_three() {
    assert_eq!(normalize_providers(None), vec!["qq", "kugou", "netease"]);
    assert_eq!(normalize_providers(providers(&[])), vec!["qq", "kugou", "netease"]);
    assert_eq!(
        normalize_providers(providers(&["spotify", "", "q q", "kugou2"])),
        vec!["qq", "kugou", "netease"]
    );
}

#[test]
fn providers_are_trimmed_lowered_sorted_and_deduplicated() {
    assert_eq!(normalize_providers(providers(&["qq"])), vec!["qq"]);
    assert_eq!(
        normalize_providers(providers(&["qq", "netease", "kugou"])),
        vec!["kugou", "netease", "qq"]
    );
    assert_eq!(
        normalize_providers(providers(&["  QQ \t", "NetEase", "qq", "other", "\u{3000}qq\n"])),
        vec!["netease", "qq"]
    );
    assert_eq!(normalize_providers(providers(&["\u{212a}ugou"])), vec!["kugou"]);
    assert_eq!(normalize_providers(providers(&["Kugou", "KUGOU", " kugou"])), vec!["kugou"]);
}
