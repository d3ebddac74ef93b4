//! One queued download and the events reported about it.

use vstd::prelude::*;
use crate::progress::Progress;
use crate::text::opt_text;

verus! {

/// Where a queued download stands in its life.
#[derive(Clone, Copy, Debug, PartialEq, Eq, Structural)]
pub enum QueueItemStatus {
    Pending,
    Downloading,
    Paused,
    Completed,
    Failed,
    Cancelled,
}

/// One queued download.
#[derive(Debug)]
pub struct QueueItem {
    pub id: String,
    pub url: String,
    pub title: String,
    pub thumbnail: String,
    pub quality: String,
    pub output_dir: String,
    pub output_filename: String,
    pub status: QueueItemStatus,
    pub progress: Progress,
    pub speed: String,
    pub eta: String,
    pub error: Option<String>,
    pub file_path: Option<String>,
    pub added_at: String,
}

/// A queued download with its texts taken as character sequences.
pub struct QueueItemView {
    pub id: Seq<char>,
    pub url: Seq<char>,
    pub title: Seq<char>,
    pub thumbnail: Seq<char>,
    pub quality: Seq<char>,
    pub output_dir: Seq<char>,
    pub output_filename: Seq<char>,
    pub status: QueueItemStatus,
    pub progress: Progress,
    pub speed: Seq<char>,
    pub eta: Seq<char>,
    pub error: Option<Seq<char>>,
    pub file_path: Option<Seq<char>>,
    pub added_at: Seq<char>,
}

impl View for QueueItem {
    type V = QueueItemView;

    open spec fn view(&self) -> QueueItemView {
        QueueItemView {
            id: self.id@,
            url: self.url@,
            title: self.title@,
            thumbnail: self.thumbnail@,
            quality: self.quality@,
            output_dir: self.output_dir@,
            output_filename: self.output_filename@,
            status: self.status,
            progress: self.progress,
            speed: self.speed@,
            eta: self.eta@,
            error: opt_text(self.error),
            file_path: opt_text(self.file_path),
            added_at: self.added_at@,
        }
    }
}

impl Clone for QueueItem {
    fn clone(&self) -> (copy: Self)
        ensures
            copy@ == self@,
    {
        QueueItem {
            id: self.id.clone(),
            url: self.url.clone(),
            title: self.title.clone(),
            thumbnail: self.thumbnail.clone(),
            quality: self.quality.clone(),
            output_dir: self.output_dir.clone(),
            output_filename: self.output_filename.clone(),
            status: self.status,
            progress: self.progress,
            speed: self.speed.clone(),
            eta: self.eta.clone(),
            error: self.error.clone(),
            file_path: self.file_path.clone(),
            added_at: self.added_at.clone(),
        }
    }
}

impl QueueItemView {
    /// What the queue keeps true of every item: the file path is there exactly
    /// when the download is completed, the error exactly when it has failed,
    /// and the progress lies between 0% and 100%.
    pub open spec fn valid(self) -> bool {
        &&& self.file_path is Some <==> self.status == QueueItemStatus::Completed
        &&& self.error is Some <==> self.status == QueueItemStatus::Failed
        &&& self.progress.wf()
    }

    /// The item as it is when it enters the queue.
    pub open spec fn pending(
        id: Seq<char>,
        url: Seq<char>,
        title: Seq<char>,
        thumbnail: Seq<char>,
        quality: Seq<char>,
        output_dir: Seq<char>,
        output_filename: Seq<char>,
        added_at: Seq<char>,
    ) -> QueueItemView {
        QueueItemView {
            id,
            url,
            title,
            thumbnail,
            quality,
            output_dir,
            output_filename,
            status: QueueItemStatus::Pending,
            progress: Progress { done: 0, total: 1 },
            speed: Seq::empty(),
            eta: Seq::empty(),
            error: None,
            file_path: None,
            added_at,
        }
    }

    /// The item moved to `status`. `Completed` and `Failed` are entered only
    /// together with the file path or the error (see `completed` and
    /// `failed`), so asking for one of them here changes nothing. Any other
    /// status drops a file path and an error that the item held.
    pub open spec fn with_status(self, status: QueueItemStatus) -> QueueItemView {
        if status == QueueItemStatus::Completed || status == QueueItemStatus::Failed {
            self
        } else {
            QueueItemView { status, error: None, file_path: None, ..self }
        }
    }

    /// The item after a progress report. While it is downloading its progress
    /// never goes back: a report that is behind the progress already recorded
    /// leaves the recorded progress in place.
    pub open spec fn with_progress(
        self,
        progress: Progress,
        speed: Seq<char>,
        eta: Seq<char>,
    ) -> QueueItemView {
        let kept = self.status == QueueItemStatus::Downloading && !self.progress.at_most(progress);
        QueueItemView { progress: if kept { self.progress } else { progress }, speed, eta, ..self }
    }

    /// The item after its download failed with `error`.
    pub open spec fn failed(self, error: Seq<char>) -> QueueItemView {
        QueueItemView {
            status: QueueItemStatus::Failed,
            error: Some(error),
            file_path: None,
            ..self
        }
    }

    /// The item after its download ended with the file at `file_path`.
    pub open spec fn completed(self, file_path: Seq<char>) -> QueueItemView {
        QueueItemView {
            status: QueueItemStatus::Completed,
            progress: Progress { done: 1, total: 1 },
            error: None,
            file_path: Some(file_path),
            ..self
        }
    }
}

/// What the host is told about one download when something changes.
#[derive(Debug)]
pub struct QueueProgress {
    pub id: String,
    pub status: QueueItemStatus,
    pub progress: Progress,
    pub speed: String,
    pub eta: String,
    pub message: String,
    pub file_path: Option<String>,
}

/// A report to the host with its texts taken as character sequences.
pub struct QueueProgressView {
    pub id: Seq<char>,
    pub status: QueueItemStatus,
    pub progress: Progress,
    pub speed: Seq<char>,
    pub eta: Seq<char>,
    pub message: Seq<char>,
    pub file_path: Option<Seq<char>>,
}

impl View for QueueProgress {
    type V = QueueProgressView;

    open spec fn view(&self) -> QueueProgressView {
        QueueProgressView {
            id: self.id@,
            status: self.status,
            progress: self.progress,
            speed: self.speed@,
            eta: self.eta@,
            message: self.message@,
            file_path: opt_text(self.file_path),
        }
    }
}

impl QueueProgress {
    /// The report that says where `item` stands, with `message` for the
    /// user: it is sent when the item is dispatched.
    pub fn of_item(item: &QueueItem, message: String) -> (report: QueueProgress)
        ensures
            report@ == (QueueProgressView {
                id: item@.id,
                status: item@.status,
                progress: item@.progress,
                speed: item@.speed,
                eta: item@.eta,
                message: message@,
                file_path: item@.file_path,
            }),
    {
        QueueProgress {
            id: item.id.clone(),
            status: item.status,
            progress: item.progress,
            speed: item.speed.clone(),
            eta: item.eta.clone(),
            message,
            file_path: item.file_path.clone(),
        }
    }
}

impl Clone for QueueProgress {
    fn clone(&self) -> (copy: Self)
        ensures
            copy@ == self@,
    {
        QueueProgress {
            id: self.id.clone(),
            status: self.status,
            progress: self.progress,
            speed: self.speed.clone(),
            eta: self.eta.clone(),
            message: self.message.clone(),
            file_path: self.file_path.clone(),
        }
    }
}

} // verus!
