use video_downloader::downloader::DownloaderError;
use video_downloader::progress::Progress;
use video_downloader::text::{
    chars_of, join_text, contains_chars, is_whitespace, occurs_at_index, parse_i32, push_decimal, str_contains,
    str_contains_char, str_ends_with, str_eq, str_is_blank, str_last_word, str_replace, str_starts_with, string_of,
    string_of_range,
};
use video_downloader::{add_to_history, delete_history_item, AppSettings, HistoryItem, VideoInfoResponse};
use video_downloader::downloader::{VideoInfo, VideoSource};
use video_downloader::host::{source_count, VideoSourceResponse};

#[test]
fn chars_round_trip() {
    let text = "aé😀\u{0}z";
    let chars = chars_of(text);
    assert_eq!(chars, text.chars().collect::<Vec<char>>());
    assert_eq!(string_of(&chars), text);
    assert_eq!(string_of_range(&chars, 1, 3), "é😀");
    assert_eq!(string_of_range(&chars, 2, 2), "");
    assert!(chars_of("").is_empty());
}

#[test]
fn search_agrees_with_std() {
    let hays = ["", "a", "abcabc", "aaab", "http://x", "über.m3u8", "ab"];
    let needles = ["", "a", "ab", "bc", "aab", "abcabcd", ".m3u8", "http", "ü"];
    for hay in hays {
        for needle in needles {
            assert_eq!(str_contains(hay, needle), hay.contains(needle), "{:?} in {:?}", needle, hay);
            assert_eq!(str_starts_with(hay, needle), hay.starts_with(needle), "{:?} at {:?}", needle, hay);
            assert_eq!(str_ends_with(hay, needle), hay.ends_with(needle), "{:?} ends {:?}", needle, hay);
        }
        assert_eq!(str_contains_char(hay, 'b'), hay.contains('b'));
    }
    let hay = chars_of("abcabc");
    assert!(occurs_at_index(&hay, &chars_of("bc"), 4));
    assert!(!occurs_at_index(&hay, &chars_of("bc"), 5));
    assert!(!occurs_at_index(&hay, &chars_of("bc"), 700));
    assert!(occurs_at_index(&hay, &chars_of(""), 6));
    assert!(!occurs_at_index(&hay, &chars_of(""), 7));
    assert!(contains_chars(&hay, &chars_of("cab")));
}

#[test]
fn equality_and_concat() {
    assert!(str_eq("abc", "abc"));
    assert!(!str_eq("abc", "abd"));
    assert!(!str_eq("abc", "ab"));
    assert_eq!(join_text("ab", "cd"), "abcd");
    assert_eq!(join_text("", ""), "");
}

#[test]
fn replace_agrees_with_std() {
    let cases = [
        ("a..b", "..", ""),
        ("....", "..", ""),
        ("...", "..", "x"),
        ("aaa", "aa", "b"),
        ("1080p", "p", ""),
        ("auto", "auto", "0"),
        ("", "x", "y"),
        ("xyz", "xyzz", "q"),
        ("abab", "ab", "abab"),
        ("ééé", "é", "e"),
    ];
    for (s, from, to) in cases {
        assert_eq!(str_replace(s, from, to), s.replace(from, to), "{:?} {:?} {:?}", s, from, to);
    }
}

#[test]
fn whitespace_agrees_with_std() {
    for c in 0u32..=0x10ffff {
        if let Some(ch) = char::from_u32(c) {
            assert_eq!(is_whitespace(ch), ch.is_whitespace(), "U+{:04X}", c);
        }
    }
    assert!(str_is_blank(""));
    assert!(str_is_blank(" \t\r\n"));
    assert!(!str_is_blank(" a "));
}

#[test]
fn last_word_agrees_with_std() {
    for s in ["", " ", "a", " a ", "a b", "a  b  ", "speed: 1.5 MB/s", "\tx\u{3000}y\n", "one"] {
        assert_eq!(str_last_word(s), s.split_whitespace().last().unwrap_or(""), "{:?}", s);
    }
}

#[test]
fn parse_agrees_with_std() {
    for s in [
        "", "0", "7", "-7", "+7", "007", "--7", "+-7", "7 ", " 7", "12a", "2147483647", "2147483648",
        "-2147483648", "-2147483649", "99999999999999999999999", "-", "+", "1_000", "١٢",
    ] {
        assert_eq!(parse_i32(s), s.parse::<i32>().ok(), "{:?}", s);
    }
}

#[test]
fn decimal_agrees_with_std() {
    for n in [0u64, 1, 9, 10, 11, 99, 100, 12345, 1 << 32, u64::MAX] {
        let mut s = String::from("n=");
        push_decimal(&mut s, n);
        assert_eq!(s, format!("n={}", n));
    }
}

#[test]
fn error_messages_name_the_kind() {
    assert_eq!(DownloaderError::Browser("no chrome".into()).message(), "Browser error: no chrome");
    assert_eq!(DownloaderError::Network("reset".into()).message(), "Network error: reset");
    assert_eq!(DownloaderError::Parse("bad".into()).message(), "Parse error: bad");
    assert_eq!(DownloaderError::Io("denied".into()).message(), "IO error: denied");
    assert_eq!(DownloaderError::NoSources.message(), "No video sources found");
    assert_eq!(DownloaderError::DownloadFailed("x".into()).message(), "Download failed: x");
    let e = DownloaderError::Io("denied".into());
    assert_eq!(e.clone().message(), e.message());
}

#[test]
fn progress_is_an_exact_fraction() {
    assert_eq!(Progress::new(3, 4), Progress { done: 3, total: 4 });
    assert_eq!(Progress::new(5, 4), Progress { done: 4, total: 4 });
    assert_eq!(Progress::new(0, 0), Progress { done: 0, total: 1 });
    assert_eq!(Progress::new(9, 0), Progress { done: 1, total: 1 });
    assert_eq!(Progress::zero().percent(), 0);
    assert_eq!(Progress::full().percent(), 100);
    assert_eq!(Progress::new(1, 3).percent(), 33);
    assert_eq!(Progress::new(2, 3).percent(), 66);
    assert_eq!(Progress::new(u64::MAX - 1, u64::MAX).percent(), 99);
    assert_eq!(Progress::new(u64::MAX, u64::MAX).percent(), 100);
    assert!(Progress::full().is_complete());
    assert!(Progress::new(7, 7).is_complete());
    assert!(!Progress::new(6, 7).is_complete());
}

#[test]
fn progress_orders_as_fractions_do() {
    let half = Progress::new(1, 2);
    let two_quarters = Progress::new(2, 4);
    let third = Progress::new(1, 3);
    assert!(third.no_further_than(&half));
    assert!(!half.no_further_than(&third));
    assert!(half.no_further_than(&two_quarters));
    assert!(two_quarters.no_further_than(&half));
    assert!(half.no_further_than(&half));
    let big = Progress::new(u64::MAX - 1, u64::MAX);
    assert!(big.no_further_than(&Progress::full()));
    assert!(!Progress::full().no_further_than(&big));
}

fn entry(id: &str) -> HistoryItem {
    HistoryItem {
        id: id.to_string(),
        url: format!("https://example.com/{}", id),
        title: id.to_string(),
        thumbnail: String::new(),
        filename: format!("{}.mp4", id),
        quality: "720p".to_string(),
        downloaded_at: "2024-01-01T00:00:00Z".to_string(),
        file_path: format!("/tmp/{}.mp4", id),
        file_size: Some(42),
    }
}

fn history_ids(history: &[HistoryItem]) -> Vec<&str> {
    history.iter().map(|h| h.id.as_str()).collect()
}

#[test]
fn history_puts_the_newest_first() {
    let mut history = Vec::new();
    add_to_history(&mut history, entry("a"));
    add_to_history(&mut history, entry("b"));
    add_to_history(&mut history, entry("c"));
    assert_eq!(history_ids(&history), vec!["c", "b", "a"]);
    assert_eq!(history[0].file_size, Some(42));
}

#[test]
fn history_keeps_a_hundred_entries() {
    let mut history = Vec::new();
    for i in 0..100 {
        add_to_history(&mut history, entry(&i.to_string()));
    }
    assert_eq!(history.len(), 100);
    add_to_history(&mut history, entry("new"));
    assert_eq!(history.len(), 100);
    assert_eq!(history[0].id, "new");
    assert_eq!(history[1].id, "99");
    assert_eq!(history[99].id, "1");
    let mut long: Vec<HistoryItem> = (0..150).map(|i| entry(&i.to_string())).collect();
    add_to_history(&mut long, entry("new"));
    assert_eq!(long.len(), 100);
    assert_eq!(long[99].id, "98");
}

#[test]
fn history_entries_are_deleted_by_id() {
    let mut history = vec![entry("a"), entry("b"), entry("a"), entry("c")];
    delete_history_item(&mut history, "a");
    assert_eq!(history_ids(&history), vec!["b", "c"]);
    delete_history_item(&mut history, "nope");
    assert_eq!(history_ids(&history), vec!["b", "c"]);
    delete_history_item(&mut history, "c");
    delete_history_item(&mut history, "b");
    assert!(history.is_empty());
}

#[test]
fn settings_start_with_defaults() {
    let settings = AppSettings::with_download_dir("/home/me/Downloads".to_string());
    assert_eq!(settings.default_download_dir, "/home/me/Downloads");
    assert_eq!(settings.default_quality, "auto");
    assert_eq!(settings.max_concurrent_downloads, 2);
    assert!(settings.auto_start_queue);
    assert!(settings.show_notifications);
    assert!(!settings.minimize_to_tray);
    assert_eq!(settings.theme, "dark");
    let copy = settings.clone();
    assert_eq!(copy.default_download_dir, settings.default_download_dir);
    assert_eq!(copy.theme, "dark");
}

#[test]
fn response_carries_the_info() {
    let mut info = VideoInfo::default();
    info.url = "https://site.example/w".to_string();
    info.title = "T".to_string();
    info.thumbnail = "thumb".to_string();
    info.duration = "1:00".to_string();
    info.qualities = vec!["720p".to_string(), "auto".to_string()];
    info.sources = vec![
        VideoSource { url: "https://a/1.m3u8".into(), quality: "720p".into(), source_type: "hls".into() },
        VideoSource { url: "https://a/2.mp4".into(), quality: "auto".into(), source_type: "direct".into() },
    ];
    assert_eq!(source_count(&info), 2);
    let one = VideoSourceResponse::from_source(&info.sources[1]);
    assert_eq!((one.url.as_str(), one.quality.as_str(), one.source_type.as_str()), ("https://a/2.mp4", "auto", "direct"));
    let response = VideoInfoResponse::from_info(info);
    assert_eq!(response.url, "https://site.example/w");
    assert_eq!(response.title, "T");
    assert_eq!(response.thumbnail, "thumb");
    assert_eq!(response.duration, "1:00");
    assert_eq!(response.qualities, vec!["720p", "auto"]);
    assert_eq!(response.sources.len(), 2);
    assert_eq!(response.sources[0].url, "https://a/1.m3u8");
    assert_eq!(response.sources[0].quality, "720p");
    assert_eq!(response.sources[0].source_type, "hls");
    assert_eq!(response.sources[1].source_type, "direct");
}
