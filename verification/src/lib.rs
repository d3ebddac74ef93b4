//! Download queue and transfer engines for a video downloader.
//!
//! The crate holds the decisions of the downloader: the queue of jobs with its
//! pause / resume / cancel rules, the two transfer engines as step machines
//! that say which operation comes next, and the checks on names, paths and
//! addresses. Network, disk and process work is left to the caller, who
//! performs each operation an engine asks for and reports how it ended.

pub mod address;
pub mod downloader;
pub mod error;
pub mod host;
pub mod playlist;
pub mod progress;
pub mod text;
pub mod queue;

pub use crate::host::{
    AppSettings, HistoryItem, PathFacts, VideoInfoResponse, VideoSourceResponse, add_to_history,
    delete_history_item, sanitize_path, validate_path,
};
