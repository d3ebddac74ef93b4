use video_downloader::downloader::video::{
    media_file_name, media_file_path, new_scratch_names, output_filename, scratch_names, source_kind, SourceKind,
    VideoDownloader,
};
use video_downloader::downloader::{DownloaderError, VideoInfo, VideoSource};

fn source(url: &str, quality: &str, kind: &str) -> VideoSource {
    VideoSource { url: url.to_string(), quality: quality.to_string(), source_type: kind.to_string() }
}

fn two_sources() -> Vec<VideoSource> {
    vec![
        source("https://cdn.example.com/full.mp4", "1080p", "direct"),
        source("https://cdn.example.com/mid/index.m3u8", "720p", "hls"),
    ]
}

#[test]
fn requested_quality_selects_its_source() {
    let downloader = VideoDownloader::new(true);
    let sources = two_sources();
    let picked = downloader.select_source(&sources, Some("720p"));
    assert_eq!(picked.quality, "720p");
    assert_eq!(picked.source_type, "hls");
    assert_eq!(picked.url, "https://cdn.example.com/mid/index.m3u8");
    assert_eq!(downloader.select_index(&sources, Some("720p")), 1);
}

#[test]
fn best_selects_the_first_source() {
    let downloader = VideoDownloader::new(true);
    let sources = vec![
        source("https://cdn.example.com/low.mp4", "360p", "direct"),
        source("https://cdn.example.com/best.mp4", "best", "direct"),
    ];
    assert_eq!(downloader.select_source(&sources, Some("best")).quality, "360p");
    assert_eq!(downloader.select_source(&sources, Some("auto")).quality, "360p");
    assert_eq!(downloader.select_source(&sources, None).quality, "360p");
}

#[test]
fn missing_quality_falls_back_to_the_first_source() {
    let downloader = VideoDownloader::new(false);
    let sources = two_sources();
    assert_eq!(downloader.select_source(&sources, Some("480p")).quality, "1080p");
}

#[test]
fn first_of_equal_qualities_is_selected() {
    let downloader = VideoDownloader::new(true);
    let sources = vec![
        source("https://a/1.mp4", "1080p", "direct"),
        source("https://a/2.mp4", "720p", "direct"),
        source("https://a/3.mp4", "720p", "direct"),
    ];
    assert_eq!(downloader.select_index(&sources, Some("720p")), 2 - 1);
    assert_eq!(downloader.select_source(&sources, Some("720p")).url, "https://a/2.mp4");
}

#[test]
fn downloader_keeps_its_setting() {
    assert!(VideoDownloader::new(true).headless);
    assert!(!VideoDownloader::new(false).headless);
}

#[test]
fn kind_goes_by_type_or_address() {
    assert_eq!(source_kind(&source("https://a/x", "auto", "hls")), SourceKind::Hls);
    assert_eq!(source_kind(&source("https://a/x.m3u8", "auto", "direct")), SourceKind::Hls);
    assert_eq!(source_kind(&source("https://a/x.m3u8?t=1", "auto", "hls")), SourceKind::Hls);
    assert_eq!(source_kind(&source("https://a/x.m3u8?t=1", "auto", "direct")), SourceKind::Direct);
    assert_eq!(source_kind(&source("https://a/x.mp4", "auto", "direct")), SourceKind::Direct);
    assert_eq!(source_kind(&source("https://a/x.mp4", "auto", "HLS")), SourceKind::Direct);
}

#[test]
fn output_name_defaults_to_video() {
    assert_eq!(output_filename(None), "video");
    assert_eq!(output_filename(Some("")), "video");
    assert_eq!(output_filename(Some("...")), "video");
    assert_eq!(output_filename(Some("../../")), "video");
    assert_eq!(output_filename(Some("my clip")), "my clip");
    assert_eq!(output_filename(Some("a/b:c")), "ab_c");
}

#[test]
fn plan_picks_source_engine_and_name() {
    let downloader = VideoDownloader::new(true);
    let mut info = VideoInfo::default();
    info.sources = two_sources();
    let plan = downloader
        .plan("https://site.example/watch/1", &info, "/downloads".to_string(), Some("clip?"), Some("720p"))
        .unwrap();
    assert_eq!(plan.source_url, "https://cdn.example.com/mid/index.m3u8");
    assert_eq!(plan.kind, SourceKind::Hls);
    assert_eq!(plan.referer, "https://site.example/watch/1");
    assert_eq!(plan.directory, "/downloads");
    assert_eq!(plan.file_name, "clip_.mp4");
    let plan = downloader
        .plan("https://site.example/watch/1", &info, "/downloads".to_string(), None, Some("best"))
        .unwrap();
    assert_eq!(plan.source_url, "https://cdn.example.com/full.mp4");
    assert_eq!(plan.kind, SourceKind::Direct);
    assert_eq!(plan.file_name, "video.mp4");
}

#[test]
fn plan_without_sources_has_no_sources() {
    let downloader = VideoDownloader::new(true);
    let info = VideoInfo::default();
    let err = downloader.plan("https://site.example/", &info, "/d".to_string(), None, None).err().unwrap();
    assert!(matches!(err, DownloaderError::NoSources));
    assert_eq!(err.message(), "No video sources found");
}

#[test]
fn scratch_names_carry_the_id() {
    let (segments, remuxed) = scratch_names("abc");
    assert_eq!(segments, "video_abc.ts");
    assert_eq!(remuxed, "video_abc.mp4");
}

#[test]
fn new_scratch_names_differ_between_downloads() {
    let (ts_a, mp4_a) = new_scratch_names();
    let (ts_b, _) = new_scratch_names();
    assert_ne!(ts_a, ts_b);
    assert_eq!(ts_a.len(), "video_".len() + 36 + ".ts".len());
    assert!(ts_a.starts_with("video_") && ts_a.ends_with(".ts"));
    assert_eq!(mp4_a, format!("{}.mp4", &ts_a[..ts_a.len() - 3]));
}

#[test]
fn finished_file_always_ends_in_mp4() {
    assert_eq!(media_file_name("clip"), "clip.mp4");
    assert_eq!(media_file_name("clip.mkv"), "clip.mp4");
    assert_eq!(media_file_name("clip.mp4"), "clip.mp4");
    assert_eq!(media_file_name("my.clip.v2"), "my.clip.mp4");
    assert_eq!(media_file_name(".hidden"), ".hidden.mp4");
    assert_eq!(media_file_name("a."), "a.mp4");
    assert_eq!(media_file_name(""), ".mp4");
}

#[test]
fn finished_file_name_agrees_with_std_paths() {
    for name in ["clip", "clip.mkv", "a.b.c", ".hidden", ".hidden.x", "a.", "x y.z", "noext", "วิดีโอ.ts"] {
        let expected = std::path::Path::new(name).with_extension("mp4");
        assert_eq!(media_file_name(name), expected.to_string_lossy(), "for {:?}", name);
    }
}

#[test]
fn names_std_leaves_alone_get_the_extension_too() {
    assert_eq!(media_file_name(""), ".mp4");
    assert_eq!(media_file_name("."), "..mp4");
    assert_eq!(media_file_name(".."), "..mp4");
    assert_eq!(media_file_name("..a"), "..mp4");
}

#[test]
fn naming_twice_changes_nothing() {
    for name in ["clip", "clip.mkv", "a.b.c", ".hidden", "a.", ".", "..", "x"] {
        let once = media_file_name(name);
        assert_eq!(media_file_name(&once), once, "for {:?}", name);
        let path = format!("/out/dir.x/{}", name);
        let once = media_file_path(&path);
        assert_eq!(media_file_path(&once), once, "for {:?}", path);
    }
}

#[test]
fn finished_path_keeps_the_folder() {
    assert_eq!(media_file_path("/out/clip.avi"), "/out/clip.mp4");
    assert_eq!(media_file_path("/out.d/clip"), "/out.d/clip.mp4");
    assert_eq!(media_file_path("/out.d/.clip"), "/out.d/.clip.mp4");
    assert_eq!(media_file_path("C:\\Users\\me.x\\clip.mkv"), "C:\\Users\\me.x\\clip.mp4");
    assert_eq!(media_file_path("rel/a.b.c"), "rel/a.b.mp4");
    assert_eq!(media_file_path("clip.ts"), "clip.mp4");
    assert_eq!(media_file_path("/out/"), "/out/.mp4");
    assert_eq!(media_file_path(""), ".mp4");
    assert_eq!(media_file_path("/out/.."), "/out/..mp4");
    assert_eq!(media_file_path("/out/..b"), "/out/..mp4");
    assert_eq!(media_file_path("a.b\\c"), "a.b\\c.mp4");
}

#[test]
fn finished_path_agrees_with_std_paths() {
    for path in [
        "/out/clip.avi", "/out/clip", "/out.dir/clip", "/out.dir/my.clip.webm", "clip.mkv", "rel/x/.hidden",
        "rel/x/.hidden.y", "/a/b.", "/tmp/วิดีโอ.ts", "x/y z.w",
    ] {
        let expected = std::path::Path::new(path).with_extension("mp4");
        assert_eq!(media_file_path(path), expected.to_string_lossy(), "for {:?}", path);
    }
}

#[test]
fn planned_name_passes_through_the_path_rule_unchanged() {
    for asked in [Some("clip"), Some("my.clip.v2"), Some("..."), None, Some("a/b:c.x")] {
        let name = media_file_name(&output_filename(asked));
        let path = format!("/downloads/{}", name);
        assert_eq!(media_file_path(&path), path);
    }
}
