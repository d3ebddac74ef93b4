use video_downloader::downloader::browser::{
    add_matches, add_page_sources, add_source, collect_info, contains_url, list_qualities, player_source,
    rank_of, response_source, select_usable, BrowserAutomation,
};
use video_downloader::downloader::VideoSource;

fn source(url: &str, quality: &str, kind: &str) -> VideoSource {
    VideoSource { url: url.to_string(), quality: quality.to_string(), source_type: kind.to_string() }
}

fn triple(s: &VideoSource) -> (&str, &str, &str) {
    (s.url.as_str(), s.quality.as_str(), s.source_type.as_str())
}

#[test]
fn browser_keeps_its_setting() {
    assert!(BrowserAutomation::new(true).headless);
    assert!(!BrowserAutomation::new(false).headless);
}

#[test]
fn manifest_response_is_an_hls_source() {
    let s = response_source("https://cdn.example/720/index.m3u8?x=1", "text/plain").unwrap();
    assert_eq!(triple(&s), ("https://cdn.example/720/index.m3u8?x=1", "720p", "hls"));
    let s = response_source("https://cdn.example/stream", "application/vnd.apple.mpegurl").unwrap();
    assert_eq!(triple(&s), ("https://cdn.example/stream", "auto", "hls"));
}

#[test]
fn file_response_is_a_direct_source() {
    let s = response_source("https://cdn.example/1080.mp4", "application/octet-stream").unwrap();
    assert_eq!(triple(&s), ("https://cdn.example/1080.mp4", "1080p", "direct"));
    let s = response_source("https://cdn.example/clip.webm", "").unwrap();
    assert_eq!(triple(&s), ("https://cdn.example/clip.webm", "auto", "direct"));
    let s = response_source("https://cdn.example/get?id=4", "video/mp4").unwrap();
    assert_eq!(s.source_type, "direct");
}

#[test]
fn other_responses_and_ads_are_no_source() {
    assert!(response_source("https://cdn.example/page.html", "text/html").is_none());
    assert!(response_source("https://cdn.example/clip.webm.txt", "video/webm").is_some());
    assert!(response_source("https://cdn.example/x", "video/webm").is_none());
    assert!(response_source("https://cdn.example/ad/clip.mp4", "video/mp4").is_none());
    assert!(response_source("https://cdn.example/Advertisement.m3u8", "").is_none());
}

#[test]
fn player_sources_are_taken_unless_empty_or_ads() {
    let s = player_source("https://cdn.example/480/list.m3u8").unwrap();
    assert_eq!(triple(&s), ("https://cdn.example/480/list.m3u8", "480p", "hls"));
    let s = player_source("blob:whatever").unwrap();
    assert_eq!(triple(&s), ("blob:whatever", "auto", "direct"));
    assert!(player_source("").is_none());
    assert!(player_source("https://cdn.example/?adSrc=x").is_none());
}

#[test]
fn sources_are_added_once_per_address() {
    let mut found = Vec::new();
    add_source(&mut found, source("https://a/1.mp4", "auto", "direct"));
    add_source(&mut found, source("https://a/2.mp4", "auto", "direct"));
    add_source(&mut found, source("https://a/1.mp4", "720p", "hls"));
    assert_eq!(found.len(), 2);
    assert_eq!(triple(&found[0]), ("https://a/1.mp4", "auto", "direct"));
    assert!(contains_url(&found, "https://a/2.mp4"));
    assert!(!contains_url(&found, "https://a/3.mp4"));
}

#[test]
fn matches_are_added_in_order_without_ads() {
    let mut found = vec![source("https://a/360.mp4", "360p", "direct")];
    let urls = vec![
        "https://a/720.m3u8".to_string(),
        "https://a/ad/x.m3u8".to_string(),
        "https://a/360.mp4".to_string(),
        "https://a/720.m3u8".to_string(),
        "https://a/x.m3u8".to_string(),
    ];
    add_matches(&mut found, &urls, "hls");
    let got: Vec<_> = found.iter().map(triple).collect();
    assert_eq!(
        got,
        vec![
            ("https://a/360.mp4", "360p", "direct"),
            ("https://a/720.m3u8", "720p", "hls"),
            ("https://a/x.m3u8", "auto", "hls"),
        ]
    );
}

#[test]
fn page_text_is_searched_for_manifests_then_files() {
    let page = r#"<html><video src="https://cdn.example/v/1080/clip.mp4?sig=a b"></video>
<script>var s = {"file":"https://cdn.example/hls/720/index.m3u8?token=abc","ad":"http://ads.example/ad/1.mp4"};
load('https://cdn.example/hls/720/index.m3u8?token=abc'); x(https://cdn.example/p/seg.mp4) </script>
ftp://cdn.example/no.mp4 https://cdn.example/back\slash.m3u8</html>"#;
    let mut found = Vec::new();
    add_page_sources(&mut found, page);
    let got: Vec<_> = found.iter().map(triple).collect();
    assert_eq!(
        got,
        vec![
            ("https://cdn.example/hls/720/index.m3u8?token=abc", "720p", "hls"),
            ("https://cdn.example/v/1080/clip.mp4?sig=a", "1080p", "direct"),
            ("https://cdn.example/p/seg.mp4", "auto", "direct"),
        ]
    );
}

#[test]
fn page_without_addresses_adds_nothing() {
    let mut found = vec![source("https://a/1.mp4", "auto", "direct")];
    add_page_sources(&mut found, "<html>nothing</html>");
    assert_eq!(found.len(), 1);
}

#[test]
fn rank_reads_the_number_of_a_quality() {
    assert_eq!(rank_of("1080p"), 1080);
    assert_eq!(rank_of("720p"), 720);
    assert_eq!(rank_of("auto"), 0);
    assert_eq!(rank_of("best"), 0);
    assert_eq!(rank_of(""), 0);
    assert_eq!(rank_of("p4p8p0p"), 480);
    assert_eq!(rank_of("-5"), -5);
    assert_eq!(rank_of("+7p"), 7);
    assert_eq!(rank_of("1auto"), 10);
    assert_eq!(rank_of("aputo"), 0);
    assert_eq!(rank_of("99999999999p"), 0);
}

#[test]
fn rank_agrees_with_std_on_samples() {
    for q in ["1080p", "auto", "autop", "pauto", "2147483647", "2147483648", "-2147483648", "-2147483649", "+", "-", "0012p", "4k", "٣٦٠", "autoauto", "pp"] {
        let expected: i32 = q.replace("p", "").replace("auto", "0").parse().unwrap_or(0);
        assert_eq!(rank_of(q), expected, "for {:?}", q);
    }
}

#[test]
fn qualities_run_from_highest_to_lowest() {
    let sources = vec![
        source("https://a/1", "480p", "direct"),
        source("https://a/2", "auto", "direct"),
        source("https://a/3", "1080p", "hls"),
        source("https://a/4", "480p", "hls"),
        source("https://a/5", "720p", "hls"),
        source("https://a/6", "360p", "hls"),
    ];
    assert_eq!(list_qualities(&sources), vec!["1080p", "720p", "480p", "360p", "auto"]);
    assert!(list_qualities(&Vec::new()).is_empty());
}

#[test]
fn qualities_of_one_rank_keep_their_first_order() {
    let sources = vec![
        source("https://a/1", "auto", "direct"),
        source("https://a/2", "best", "direct"),
        source("https://a/3", "720", "direct"),
        source("https://a/4", "720p", "direct"),
    ];
    assert_eq!(list_qualities(&sources), vec!["720", "720p", "auto", "best"]);
}

#[test]
fn segments_and_ads_are_not_usable() {
    let found = vec![
        source("https://a/seg1.ts", "auto", "direct"),
        source("https://a/list.m3u8?next=seg1.ts", "auto", "hls"),
        source("https://a/ad/1.mp4", "auto", "direct"),
        source("https://a/clip.mp4", "720p", "direct"),
        source("https://a/clip.mp4", "1080p", "direct"),
        source("https://a/tools.tsx.mp4", "auto", "direct"),
    ];
    let usable = select_usable(&found);
    let got: Vec<_> = usable.iter().map(triple).collect();
    assert_eq!(
        got,
        vec![("https://a/list.m3u8?next=seg1.ts", "auto", "hls"), ("https://a/clip.mp4", "720p", "direct")]
    );
}

#[test]
fn info_is_put_together() {
    let found = vec![
        source("https://a/360.mp4", "360p", "direct"),
        source("https://a/seg.ts", "auto", "direct"),
        source("https://a/1080/index.m3u8", "1080p", "hls"),
    ];
    let info = collect_info("https://site.example/w", "Title".to_string(), "https://t/x.jpg".to_string(), &found);
    assert_eq!(info.url, "https://site.example/w");
    assert_eq!(info.title, "Title");
    assert_eq!(info.thumbnail, "https://t/x.jpg");
    assert_eq!(info.duration, "");
    assert_eq!(info.qualities, vec!["1080p", "360p"]);
    assert_eq!(info.sources.len(), 2);
    assert_eq!(info.sources[0].url, "https://a/360.mp4");
}

#[test]
fn info_without_sources_offers_auto() {
    let found = vec![source("https://a/seg.ts", "720p", "direct")];
    let info = collect_info("https://site.example/w", String::new(), String::new(), &found);
    assert!(info.sources.is_empty());
    assert_eq!(info.qualities, vec!["auto"]);
}
