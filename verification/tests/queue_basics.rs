use tokio::sync::oneshot::error::TryRecvError;
use video_downloader::downloader::DownloaderError;
use video_downloader::progress::Progress;
use video_downloader::queue::{speed_of, DownloadQueue, QueueItemStatus, QueueProgress, StartError};

fn sample(queue: &mut DownloadQueue, name: &str) -> String {
    queue.add_item(
        format!("https://example.com/{}", name),
        name.to_string(),
        String::new(),
        "720p".to_string(),
        "/tmp".to_string(),
        name.to_string(),
    )
}

fn status_of(queue: &DownloadQueue, id: &str) -> QueueItemStatus {
    queue.get_item(id).unwrap().status
}

fn ids(queue: &DownloadQueue) -> Vec<String> {
    queue.get_items().into_iter().map(|i| i.id).collect()
}

#[test]
fn new_queue_is_empty() {
    let queue = DownloadQueue::new();
    assert!(queue.get_items().is_empty());
    assert_eq!(queue.get_active_count(), 0);
    assert_eq!(queue.get_max_concurrent(), 2);
}

#[test]
fn default_queue_is_a_new_queue() {
    let queue = DownloadQueue::default();
    assert!(queue.get_items().is_empty());
    assert_eq!(queue.get_max_concurrent(), 2);
}

#[test]
fn added_item_is_pending() {
    let mut queue = DownloadQueue::new();
    let id = sample(&mut queue, "a");
    assert_eq!(id.len(), 36);
    let item = queue.get_item(&id).unwrap();
    assert_eq!(item.url, "https://example.com/a");
    assert_eq!(item.title, "a");
    assert_eq!(item.quality, "720p");
    assert_eq!(item.output_dir, "/tmp");
    assert_eq!(item.output_filename, "a");
    assert_eq!(item.status, QueueItemStatus::Pending);
    assert_eq!(item.progress, Progress { done: 0, total: 1 });
    assert_eq!(item.speed, "");
    assert_eq!(item.eta, "");
    assert!(item.error.is_none());
    assert!(item.file_path.is_none());
    assert!(chrono::DateTime::parse_from_rfc3339(&item.added_at).is_ok());
    assert_eq!(queue.get_active_count(), 0);
}

#[test]
fn ids_are_fresh() {
    let mut queue = DownloadQueue::new();
    let a = sample(&mut queue, "a");
    let b = sample(&mut queue, "b");
    assert_ne!(a, b);
    assert_eq!(ids(&queue), vec![a, b]);
}

#[test]
fn enqueue_keeps_a_free_id() {
    let mut queue = DownloadQueue::new();
    let id = queue.enqueue(
        "job-1".to_string(),
        "2024-01-01T00:00:00+00:00".to_string(),
        "u".to_string(),
        "t".to_string(),
        "th".to_string(),
        "best".to_string(),
        "d".to_string(),
        "f".to_string(),
    );
    assert_eq!(id, "job-1");
    let item = queue.get_item("job-1").unwrap();
    assert_eq!(item.added_at, "2024-01-01T00:00:00+00:00");
    assert_eq!(item.thumbnail, "th");
}

#[test]
fn enqueue_pads_a_taken_id() {
    let mut queue = DownloadQueue::new();
    let meta = || "x".to_string();
    let long = queue.enqueue("a-much-longer-id".to_string(), meta(), meta(), meta(), meta(), meta(), meta(), meta());
    let first = queue.enqueue("job".to_string(), meta(), meta(), meta(), meta(), meta(), meta(), meta());
    let second = queue.enqueue("job".to_string(), meta(), meta(), meta(), meta(), meta(), meta(), meta());
    assert_eq!(long, "a-much-longer-id");
    assert_eq!(first, "job");
    assert_eq!(second, format!("job{}", "-".repeat(14)));
    assert_eq!(second.chars().count(), "a-much-longer-id".len() + 1);
    assert_eq!(queue.get_items().len(), 3);
    let third = queue.enqueue("job".to_string(), meta(), meta(), meta(), meta(), meta(), meta(), meta());
    assert_eq!(third.chars().count(), second.chars().count() + 1);
}

#[test]
fn get_item_of_unknown_id_is_none() {
    let mut queue = DownloadQueue::new();
    sample(&mut queue, "a");
    assert!(queue.get_item("nope").is_none());
}

#[test]
fn get_items_is_a_copy() {
    let mut queue = DownloadQueue::new();
    let id = sample(&mut queue, "a");
    let mut items = queue.get_items();
    items[0].status = QueueItemStatus::Failed;
    items.clear();
    assert_eq!(queue.get_items().len(), 1);
    assert_eq!(status_of(&queue, &id), QueueItemStatus::Pending);
}

#[test]
fn start_makes_the_item_run() {
    let mut queue = DownloadQueue::new();
    let id = sample(&mut queue, "a");
    let (item, mut cancelled) = queue.start_download(&id).unwrap();
    assert_eq!(item.id, id);
    assert_eq!(item.status, QueueItemStatus::Downloading);
    assert_eq!(status_of(&queue, &id), QueueItemStatus::Downloading);
    assert_eq!(queue.get_active_count(), 1);
    assert_eq!(cancelled.try_recv(), Err(TryRecvError::Empty));
}

#[test]
fn start_of_unknown_id_fails() {
    let mut queue = DownloadQueue::new();
    sample(&mut queue, "a");
    let err = queue.start_download("nope").err().unwrap();
    assert_eq!(err, StartError::NotFound);
    assert_eq!(err.message(), "Item not found");
    assert_eq!(queue.get_active_count(), 0);
}

#[test]
fn start_of_running_item_fails() {
    let mut queue = DownloadQueue::new();
    let id = sample(&mut queue, "a");
    let _running = queue.start_download(&id).unwrap();
    let err = queue.start_download(&id).err().unwrap();
    assert_eq!(err, StartError::NotStartable);
    assert_eq!(err.message(), "Item is not in a downloadable state");
    assert_eq!(queue.get_active_count(), 1);
}

#[test]
fn start_of_cancelled_item_fails() {
    let mut queue = DownloadQueue::new();
    let id = sample(&mut queue, "a");
    queue.cancel_download(&id);
    assert_eq!(queue.start_download(&id).err(), Some(StartError::NotStartable));
    assert_eq!(status_of(&queue, &id), QueueItemStatus::Cancelled);
}

#[test]
fn pause_on_running_job_fires_and_pauses() {
    let mut queue = DownloadQueue::new();
    let id = sample(&mut queue, "a");
    let (_, mut cancelled) = queue.start_download(&id).unwrap();
    assert!(queue.pause_download(&id));
    assert_eq!(status_of(&queue, &id), QueueItemStatus::Paused);
    assert_eq!(queue.get_active_count(), 0);
    assert_eq!(cancelled.try_recv(), Ok(()));
}

#[test]
fn pause_on_idle_job_changes_nothing() {
    let mut queue = DownloadQueue::new();
    let id = sample(&mut queue, "a");
    assert!(!queue.pause_download(&id));
    assert_eq!(status_of(&queue, &id), QueueItemStatus::Pending);
    assert!(!queue.pause_download("nope"));
}

#[test]
fn resume_only_from_paused() {
    let mut queue = DownloadQueue::new();
    let id = sample(&mut queue, "a");
    assert!(!queue.resume_download(&id));
    assert_eq!(status_of(&queue, &id), QueueItemStatus::Pending);
    let _run = queue.start_download(&id).unwrap();
    assert!(!queue.resume_download(&id));
    assert_eq!(status_of(&queue, &id), QueueItemStatus::Downloading);
    assert!(queue.pause_download(&id));
    assert!(queue.resume_download(&id));
    assert_eq!(status_of(&queue, &id), QueueItemStatus::Pending);
    assert_eq!(queue.get_active_count(), 0);
    assert!(!queue.resume_download("nope"));
}

#[test]
fn paused_item_can_start_again() {
    let mut queue = DownloadQueue::new();
    let id = sample(&mut queue, "a");
    let _first = queue.start_download(&id).unwrap();
    queue.pause_download(&id);
    let (item, _second) = queue.start_download(&id).unwrap();
    assert_eq!(item.status, QueueItemStatus::Downloading);
    assert_eq!(queue.get_active_count(), 1);
}

#[test]
fn cancel_always_cancels() {
    let mut queue = DownloadQueue::new();
    let idle = sample(&mut queue, "idle");
    let running = sample(&mut queue, "running");
    let (_, mut cancelled) = queue.start_download(&running).unwrap();
    assert!(queue.cancel_download(&idle));
    assert!(queue.cancel_download(&running));
    assert!(queue.cancel_download("nope"));
    assert_eq!(status_of(&queue, &idle), QueueItemStatus::Cancelled);
    assert_eq!(status_of(&queue, &running), QueueItemStatus::Cancelled);
    assert_eq!(queue.get_active_count(), 0);
    assert_eq!(cancelled.try_recv(), Ok(()));
}

#[test]
fn cancel_of_completed_item_drops_the_file_path() {
    let mut queue = DownloadQueue::new();
    let id = sample(&mut queue, "a");
    queue.update_item_completed(&id, "/tmp/a.mp4".to_string());
    assert!(queue.cancel_download(&id));
    let item = queue.get_item(&id).unwrap();
    assert_eq!(item.status, QueueItemStatus::Cancelled);
    assert!(item.file_path.is_none());
}

#[test]
fn round_trip_completes() {
    let mut queue = DownloadQueue::new();
    let id = sample(&mut queue, "a");
    let _run = queue.start_download(&id).unwrap();
    let report = queue.finish_download(&id, Ok("/tmp/a.mp4".to_string())).unwrap();
    let item = queue.get_item(&id).unwrap();
    assert_eq!(item.status, QueueItemStatus::Completed);
    assert_eq!(item.file_path.as_deref(), Some("/tmp/a.mp4"));
    assert!(item.error.is_none());
    assert_eq!(item.progress, Progress { done: 1, total: 1 });
    assert_eq!(queue.get_active_count(), 0);
    assert_eq!(report.id, id);
    assert_eq!(report.status, QueueItemStatus::Completed);
    assert_eq!(report.progress.percent(), 100);
    assert_eq!(report.message, "ดาวน์โหลดเสร็จสมบูรณ์");
    assert_eq!(report.file_path.as_deref(), Some("/tmp/a.mp4"));
    assert_eq!(report.speed, "");
    assert_eq!(report.eta, "");
}

#[test]
fn failed_transfer_keeps_the_message() {
    let mut queue = DownloadQueue::new();
    let id = sample(&mut queue, "a");
    let _run = queue.start_download(&id).unwrap();
    let failure = DownloaderError::DownloadFailed("ffmpeg failed: boom".to_string());
    let report = queue.finish_download(&id, Err(failure)).unwrap();
    let item = queue.get_item(&id).unwrap();
    assert_eq!(item.status, QueueItemStatus::Failed);
    assert_eq!(item.error.as_deref(), Some("Download failed: ffmpeg failed: boom"));
    assert!(item.file_path.is_none());
    assert_eq!(queue.get_active_count(), 0);
    assert_eq!(report.status, QueueItemStatus::Failed);
    assert_eq!(report.progress, Progress { done: 0, total: 1 });
    assert_eq!(report.message, "ดาวน์โหลดล้มเหลว: Download failed: ffmpeg failed: boom");
    assert!(report.file_path.is_none());
}

#[test]
fn outcome_after_pause_is_dropped() {
    let mut queue = DownloadQueue::new();
    let id = sample(&mut queue, "a");
    let _run = queue.start_download(&id).unwrap();
    queue.pause_download(&id);
    assert!(queue.finish_download(&id, Ok("/tmp/a.mp4".to_string())).is_none());
    let item = queue.get_item(&id).unwrap();
    assert_eq!(item.status, QueueItemStatus::Paused);
    assert!(item.file_path.is_none());
}

#[test]
fn outcome_after_cancel_is_dropped() {
    let mut queue = DownloadQueue::new();
    let id = sample(&mut queue, "a");
    let _run = queue.start_download(&id).unwrap();
    queue.cancel_download(&id);
    assert!(queue.finish_download(&id, Err(DownloaderError::NoSources)).is_none());
    let item = queue.get_item(&id).unwrap();
    assert_eq!(item.status, QueueItemStatus::Cancelled);
    assert!(item.error.is_none());
}

#[test]
fn clear_all_with_two_active_and_three_pending() {
    let mut queue = DownloadQueue::new();
    let a = sample(&mut queue, "a");
    let b = sample(&mut queue, "b");
    sample(&mut queue, "c");
    sample(&mut queue, "d");
    sample(&mut queue, "e");
    let (_, mut first) = queue.start_download(&a).unwrap();
    let (_, mut second) = queue.start_download(&b).unwrap();
    assert_eq!(queue.get_active_count(), 2);
    assert_eq!(queue.get_pending_items().len(), 3);
    queue.clear_all();
    assert_eq!(first.try_recv(), Ok(()));
    assert_eq!(second.try_recv(), Ok(()));
    assert!(queue.get_items().is_empty());
    assert_eq!(queue.get_active_count(), 0);
    assert_eq!(queue.get_max_concurrent(), 2);
}

#[test]
fn remove_cancels_and_deletes() {
    let mut queue = DownloadQueue::new();
    let a = sample(&mut queue, "a");
    let b = sample(&mut queue, "b");
    let c = sample(&mut queue, "c");
    let (_, mut cancelled) = queue.start_download(&b).unwrap();
    queue.remove_item(&b);
    assert_eq!(cancelled.try_recv(), Ok(()));
    assert_eq!(ids(&queue), vec![a.clone(), c.clone()]);
    assert_eq!(queue.get_active_count(), 0);
    queue.remove_item("nope");
    assert_eq!(ids(&queue), vec![a, c]);
}

#[test]
fn clear_completed_removes_completed_and_failed() {
    let mut queue = DownloadQueue::new();
    let a = sample(&mut queue, "a");
    let b = sample(&mut queue, "b");
    let c = sample(&mut queue, "c");
    let d = sample(&mut queue, "d");
    let e = sample(&mut queue, "e");
    queue.update_item_completed(&a, "/tmp/a.mp4".to_string());
    queue.update_item_error(&c, "broken".to_string());
    queue.cancel_download(&d);
    queue.update_item_completed(&e, "/tmp/e.mp4".to_string());
    queue.clear_completed();
    assert_eq!(ids(&queue), vec![b.clone(), d.clone()]);
    assert_eq!(status_of(&queue, &b), QueueItemStatus::Pending);
    assert_eq!(status_of(&queue, &d), QueueItemStatus::Cancelled);
    queue.clear_completed();
    assert_eq!(ids(&queue), vec![b, d]);
}

#[test]
fn pending_items_keep_their_order() {
    let mut queue = DownloadQueue::new();
    let a = sample(&mut queue, "a");
    let b = sample(&mut queue, "b");
    let c = sample(&mut queue, "c");
    let _run = queue.start_download(&b).unwrap();
    let pending: Vec<String> = queue.get_pending_items().into_iter().map(|i| i.id).collect();
    assert_eq!(pending, vec![a, c]);
}

#[test]
fn move_item_swaps_neighbours() {
    let mut queue = DownloadQueue::new();
    let a = sample(&mut queue, "a");
    let b = sample(&mut queue, "b");
    let c = sample(&mut queue, "c");
    queue.move_item(&a, 1);
    assert_eq!(ids(&queue), vec![b.clone(), a.clone(), c.clone()]);
    queue.move_item(&a, 5);
    assert_eq!(ids(&queue), vec![b.clone(), c.clone(), a.clone()]);
    queue.move_item(&a, 1);
    assert_eq!(ids(&queue), vec![b.clone(), c.clone(), a.clone()]);
    queue.move_item(&c, -1);
    assert_eq!(ids(&queue), vec![c.clone(), b.clone(), a.clone()]);
    queue.move_item(&c, 0);
    assert_eq!(ids(&queue), vec![c.clone(), b.clone(), a.clone()]);
    queue.move_item("nope", 1);
    assert_eq!(ids(&queue), vec![c, b, a]);
}

#[test]
fn max_concurrent_is_clamped() {
    let mut queue = DownloadQueue::new();
    queue.set_max_concurrent(0);
    assert_eq!(queue.get_max_concurrent(), 1);
    queue.set_max_concurrent(3);
    assert_eq!(queue.get_max_concurrent(), 3);
    queue.set_max_concurrent(5);
    assert_eq!(queue.get_max_concurrent(), 5);
    queue.set_max_concurrent(6);
    assert_eq!(queue.get_max_concurrent(), 5);
    queue.set_max_concurrent(usize::MAX);
    assert_eq!(queue.get_max_concurrent(), 5);
}

#[test]
fn register_replaces_a_registration() {
    let mut queue = DownloadQueue::new();
    let id = sample(&mut queue, "a");
    let mut first = queue.register_active_download(&id);
    let mut second = queue.register_active_download(&id);
    assert_eq!(queue.get_active_count(), 1);
    assert_eq!(first.try_recv(), Err(TryRecvError::Closed));
    assert_eq!(second.try_recv(), Err(TryRecvError::Empty));
    queue.unregister_active_download(&id);
    assert_eq!(queue.get_active_count(), 0);
    assert_eq!(second.try_recv(), Err(TryRecvError::Closed));
    queue.unregister_active_download(&id);
    assert_eq!(queue.get_active_count(), 0);
}

#[test]
fn update_status_cannot_enter_completed_or_failed() {
    let mut queue = DownloadQueue::new();
    let id = sample(&mut queue, "a");
    queue.update_item_status(&id, QueueItemStatus::Completed);
    assert_eq!(status_of(&queue, &id), QueueItemStatus::Pending);
    queue.update_item_status(&id, QueueItemStatus::Failed);
    assert_eq!(status_of(&queue, &id), QueueItemStatus::Pending);
    queue.update_item_status(&id, QueueItemStatus::Downloading);
    assert_eq!(status_of(&queue, &id), QueueItemStatus::Downloading);
    queue.update_item_status("nope", QueueItemStatus::Paused);
    assert_eq!(queue.get_items().len(), 1);
}

#[test]
fn update_status_drops_error_and_path() {
    let mut queue = DownloadQueue::new();
    let id = sample(&mut queue, "a");
    queue.update_item_error(&id, "broken".to_string());
    assert_eq!(queue.get_item(&id).unwrap().error.as_deref(), Some("broken"));
    queue.update_item_status(&id, QueueItemStatus::Pending);
    let item = queue.get_item(&id).unwrap();
    assert_eq!(item.status, QueueItemStatus::Pending);
    assert!(item.error.is_none());
}

#[test]
fn error_and_completion_exclude_each_other() {
    let mut queue = DownloadQueue::new();
    let id = sample(&mut queue, "a");
    queue.update_item_completed(&id, "/tmp/a.mp4".to_string());
    queue.update_item_error(&id, "late failure".to_string());
    let item = queue.get_item(&id).unwrap();
    assert_eq!(item.status, QueueItemStatus::Failed);
    assert!(item.file_path.is_none());
    assert_eq!(item.error.as_deref(), Some("late failure"));
    queue.update_item_completed(&id, "/tmp/b.mp4".to_string());
    let item = queue.get_item(&id).unwrap();
    assert_eq!(item.status, QueueItemStatus::Completed);
    assert_eq!(item.file_path.as_deref(), Some("/tmp/b.mp4"));
    assert!(item.error.is_none());
}

#[test]
fn progress_does_not_go_back_while_downloading() {
    let mut queue = DownloadQueue::new();
    let id = sample(&mut queue, "a");
    let _run = queue.start_download(&id).unwrap();
    queue.update_item_progress(&id, Progress::new(3, 10), "1 MB/s".to_string(), "5s".to_string());
    queue.update_item_progress(&id, Progress::new(1, 4), "2 MB/s".to_string(), "4s".to_string());
    let item = queue.get_item(&id).unwrap();
    assert_eq!(item.progress, Progress { done: 3, total: 10 });
    assert_eq!(item.speed, "2 MB/s");
    assert_eq!(item.eta, "4s");
    queue.update_item_progress(&id, Progress::new(1, 2), String::new(), String::new());
    assert_eq!(queue.get_item(&id).unwrap().progress, Progress { done: 1, total: 2 });
}

#[test]
fn progress_is_set_as_given_when_not_downloading() {
    let mut queue = DownloadQueue::new();
    let id = sample(&mut queue, "a");
    queue.update_item_progress(&id, Progress::new(3, 10), String::new(), String::new());
    queue.update_item_progress(&id, Progress::new(1, 10), String::new(), String::new());
    assert_eq!(queue.get_item(&id).unwrap().progress, Progress { done: 1, total: 10 });
}

#[test]
fn report_progress_updates_and_reports() {
    let mut queue = DownloadQueue::new();
    let id = sample(&mut queue, "a");
    let _run = queue.start_download(&id).unwrap();
    let report = queue.report_progress(&id, Progress::new(2, 8), "Downloading segment 2/8".to_string());
    assert_eq!(report.id, id);
    assert_eq!(report.status, QueueItemStatus::Downloading);
    assert_eq!(report.progress.percent(), 25);
    assert_eq!(report.speed, "");
    assert_eq!(report.eta, "");
    assert_eq!(report.message, "Downloading segment 2/8");
    assert!(report.file_path.is_none());
    let report = queue.report_progress(&id, Progress::new(4, 8), "fetching at 512 KB/s".to_string());
    assert_eq!(report.speed, "KB/s");
    let item = queue.get_item(&id).unwrap();
    assert_eq!(item.progress, Progress { done: 4, total: 8 });
    assert_eq!(item.speed, "KB/s");
}

#[test]
fn speed_is_the_last_word_of_a_rate_message() {
    assert_eq!(speed_of("Downloading at 1.5MB/s"), "1.5MB/s");
    assert_eq!(speed_of("speed 300KB/s  \t"), "300KB/s");
    assert_eq!(speed_of("MB/s"), "MB/s");
    assert_eq!(speed_of("10 MB/s left"), "left");
    assert_eq!(speed_of("Downloading segment 1/2"), "");
    assert_eq!(speed_of(""), "");
}

#[test]
fn dispatch_report_shows_the_item() {
    let mut queue = DownloadQueue::new();
    let id = sample(&mut queue, "a");
    let (item, _cancelled) = queue.start_download(&id).unwrap();
    let report = QueueProgress::of_item(&item, "starting".to_string());
    assert_eq!(report.id, id);
    assert_eq!(report.status, QueueItemStatus::Downloading);
    assert_eq!(report.progress, Progress { done: 0, total: 1 });
    assert_eq!(report.message, "starting");
    assert!(report.file_path.is_none());
    let copy = report.clone();
    assert_eq!(copy.id, report.id);
    assert_eq!(copy.message, "starting");
}
