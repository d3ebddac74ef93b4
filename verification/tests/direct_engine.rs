use video_downloader::downloader::direct::{byte_report, DirectDownloader};
use video_downloader::downloader::engine::{Action, Event};
use video_downloader::downloader::hls;
use video_downloader::progress::Progress;

fn started(length: Option<u64>) -> DirectDownloader {
    let mut engine = DirectDownloader::new(Some("https://site.example/page".to_string()));
    match engine.begin("https://cdn.example/file.mp4", "/out/file.mp4".to_string()) {
        Action::OpenStream { url, referer } => {
            assert_eq!(url, "https://cdn.example/file.mp4");
            assert_eq!(referer.as_deref(), Some("https://site.example/page"));
        }
        other => panic!("unexpected {:?}", other),
    }
    match engine.step(Event::Opened { content_length: length }) {
        Action::CreateFile { path } => assert_eq!(path, "/out/file.mp4"),
        other => panic!("unexpected {:?}", other),
    }
    assert!(matches!(engine.step(Event::Done), Action::NextChunk));
    engine
}

fn failure_message(action: Action) -> String {
    match action {
        Action::Finish(Err(e)) => e.message(),
        other => panic!("unexpected {:?}", other),
    }
}

#[test]
fn known_length_reports_after_each_chunk() {
    let mut engine = started(Some(10));
    let mut written: Vec<u8> = Vec::new();
    let mut reports = Vec::new();
    for chunk in [vec![1u8, 2, 3, 4], vec![5, 6], vec![7, 8, 9, 10]] {
        match engine.step(Event::Chunk(chunk)) {
            Action::Append { data } => written.extend_from_slice(&data),
            other => panic!("unexpected {:?}", other),
        }
        match engine.step(Event::Done) {
            Action::Report { progress, message } => reports.push((progress, message)),
            other => panic!("unexpected {:?}", other),
        }
        assert!(matches!(engine.step(Event::Done), Action::NextChunk));
    }
    assert_eq!(written, vec![1, 2, 3, 4, 5, 6, 7, 8, 9, 10]);
    assert_eq!(
        reports,
        vec![
            (Progress { done: 4, total: 10 }, "Downloaded 4 / 10 bytes".to_string()),
            (Progress { done: 6, total: 10 }, "Downloaded 6 / 10 bytes".to_string()),
            (Progress { done: 10, total: 10 }, "Downloaded 10 / 10 bytes".to_string()),
        ]
    );
    assert!(matches!(engine.step(Event::EndOfStream), Action::Flush));
    match engine.step(Event::Done) {
        Action::Finish(Ok(path)) => assert_eq!(path, "/out/file.mp4"),
        other => panic!("unexpected {:?}", other),
    }
    assert!(engine.is_finished());
}

#[test]
fn unknown_length_makes_no_report() {
    for length in [None, Some(0)] {
        let mut engine = started(length);
        assert!(matches!(engine.step(Event::Chunk(vec![1, 2, 3])), Action::Append { .. }));
        assert!(matches!(engine.step(Event::Done), Action::NextChunk));
        assert!(matches!(engine.step(Event::Chunk(vec![4])), Action::Append { .. }));
        assert!(matches!(engine.step(Event::Done), Action::NextChunk));
        assert!(matches!(engine.step(Event::EndOfStream), Action::Flush));
    }
}

#[test]
fn bytes_beyond_the_named_length_do_not_count() {
    let mut engine = started(Some(3));
    engine.step(Event::Chunk(vec![0; 5]));
    match engine.step(Event::Done) {
        Action::Report { progress, message } => {
            assert_eq!(progress, Progress { done: 3, total: 3 });
            assert_eq!(message, "Downloaded 5 / 3 bytes");
        }
        other => panic!("unexpected {:?}", other),
    }
}

#[test]
fn failures_end_the_transfer() {
    let mut engine = DirectDownloader::new(None);
    engine.begin("https://cdn.example/file.mp4", "/out/file.mp4".to_string());
    assert_eq!(failure_message(engine.step(Event::Failed("dns".to_string()))), "Network error: dns");
    assert!(engine.is_finished());

    let mut engine = DirectDownloader::new(None);
    engine.begin("https://cdn.example/file.mp4", "/out/file.mp4".to_string());
    engine.step(Event::Opened { content_length: Some(4) });
    assert_eq!(failure_message(engine.step(Event::Failed("denied".to_string()))), "IO error: denied");

    let mut engine = started(Some(4));
    assert_eq!(failure_message(engine.step(Event::Failed("reset".to_string()))), "Network error: reset");

    let mut engine = started(Some(4));
    engine.step(Event::Chunk(vec![1]));
    assert_eq!(failure_message(engine.step(Event::Failed("full".to_string()))), "IO error: full");

    let mut engine = started(Some(4));
    engine.step(Event::EndOfStream);
    assert_eq!(failure_message(engine.step(Event::Failed("sync".to_string()))), "IO error: sync");
}

#[test]
fn protocol_errors_end_the_transfer() {
    let mut engine = DirectDownloader::new(None);
    assert_eq!(failure_message(engine.step(Event::Done)), "Download failed: no download in progress");
    let mut engine = DirectDownloader::new(None);
    engine.begin("https://a/f", "/o".to_string());
    assert_eq!(
        failure_message(engine.begin("https://a/f", "/o".to_string())),
        "Download failed: download already started"
    );
    let mut engine = started(None);
    assert_eq!(failure_message(engine.step(Event::Done)), "Network error: unexpected event");
}

#[test]
fn no_referer_is_passed_on() {
    let mut engine = DirectDownloader::new(None);
    match engine.begin("https://a/f", "/o".to_string()) {
        Action::OpenStream { referer, .. } => assert!(referer.is_none()),
        other => panic!("unexpected {:?}", other),
    }
}

#[test]
fn byte_report_formats_counts() {
    match byte_report(1234567, 18446744073709551615) {
        Action::Report { progress, message } => {
            assert_eq!(progress.done, 1234567);
            assert_eq!(message, "Downloaded 1234567 / 18446744073709551615 bytes");
        }
        other => panic!("unexpected {:?}", other),
    }
}

#[test]
fn direct_engine_is_reachable_beside_the_manifest_engine() {
    let engine = hls::DirectDownloader::new(None);
    assert!(!engine.is_finished());
}

#[test]
fn output_file_gets_the_fixed_extension() {
    for (asked, fixed) in [
        ("/out/clip.avi", "/out/clip.mp4"),
        ("/out/clip", "/out/clip.mp4"),
        ("/out/clip.mp4", "/out/clip.mp4"),
        ("/out.dir/my.clip.webm", "/out.dir/my.clip.mp4"),
        ("clip.mkv", "clip.mp4"),
    ] {
        let mut engine = DirectDownloader::new(None);
        engine.begin("https://cdn.example/file.webm?x=1", asked.to_string());
        match engine.step(Event::Opened { content_length: None }) {
            Action::CreateFile { path } => assert_eq!(path, fixed),
            other => panic!("unexpected {:?}", other),
        }
        engine.step(Event::Done);
        engine.step(Event::Chunk(vec![1, 2]));
        assert!(matches!(engine.step(Event::Done), Action::NextChunk));
        engine.step(Event::EndOfStream);
        match engine.step(Event::Done) {
            Action::Finish(Ok(path)) => assert_eq!(path, fixed),
            other => panic!("unexpected {:?}", other),
        }
    }
}
