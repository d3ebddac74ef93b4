//! The kinds of failure a download can end with.

use vstd::prelude::*;
use crate::text::join_text;

verus! {

/// Why resolving or downloading a video failed.
///
/// Every variant but `NoSources` carries the text that describes the
/// failure; it is kept as it was given and shown to the user unchanged.
#[derive(Debug)]
pub enum DownloaderError {
    /// Discovering the media on the page failed.
    Browser(String),
    /// An HTTP request failed.
    Network(String),
    /// A manifest or an address could not be parsed.
    Parse(String),
    /// Reading or writing a file failed.
    Io(String),
    /// The page gave no usable media source.
    NoSources,
    /// Repackaging failed, or another failure that ends the job.
    DownloadFailed(String),
}

/// A failure with the texts it carries taken as character sequences.
pub enum DownloaderErrorView {
    Browser(Seq<char>),
    Network(Seq<char>),
    Parse(Seq<char>),
    Io(Seq<char>),
    NoSources,
    DownloadFailed(Seq<char>),
}

impl View for DownloaderError {
    type V = DownloaderErrorView;

    open spec fn view(&self) -> DownloaderErrorView {
        match self {
            DownloaderError::Browser(m) => DownloaderErrorView::Browser(m@),
            DownloaderError::Network(m) => DownloaderErrorView::Network(m@),
            DownloaderError::Parse(m) => DownloaderErrorView::Parse(m@),
            DownloaderError::Io(m) => DownloaderErrorView::Io(m@),
            DownloaderError::NoSources => DownloaderErrorView::NoSources,
            DownloaderError::DownloadFailed(m) => DownloaderErrorView::DownloadFailed(m@),
        }
    }
}

impl DownloaderErrorView {
    /// The line shown to the user for this failure: a prefix that names the
    /// kind, then the text carried.
    pub open spec fn message(self) -> Seq<char> {
        match self {
            DownloaderErrorView::Browser(m) => "Browser error: "@ + m,
            DownloaderErrorView::Network(m) => "Network error: "@ + m,
            DownloaderErrorView::Parse(m) => "Parse error: "@ + m,
            DownloaderErrorView::Io(m) => "IO error: "@ + m,
            DownloaderErrorView::NoSources => "No video sources found"@,
            DownloaderErrorView::DownloadFailed(m) => "Download failed: "@ + m,
        }
    }
}

impl DownloaderError {
    /// The line shown to the user for this failure.
    pub fn message(&self) -> (text: String)
        ensures
            text@ == self@.message(),
    {
        match self {
            DownloaderError::Browser(m) => join_text("Browser error: ", m.as_str()),
            DownloaderError::Network(m) => join_text("Network error: ", m.as_str()),
            DownloaderError::Parse(m) => join_text("Parse error: ", m.as_str()),
            DownloaderError::Io(m) => join_text("IO error: ", m.as_str()),
            DownloaderError::NoSources => "No video sources found".to_owned(),
            DownloaderError::DownloadFailed(m) => join_text("Download failed: ", m.as_str()),
        }
    }
}

impl Clone for DownloaderError {
    fn clone(&self) -> (copy: Self)
        ensures
            copy@ == self@,
    {
        match self {
            DownloaderError::Browser(m) => DownloaderError::Browser(m.clone()),
            DownloaderError::Network(m) => DownloaderError::Network(m.clone()),
            DownloaderError::Parse(m) => DownloaderError::Parse(m.clone()),
            DownloaderError::Io(m) => DownloaderError::Io(m.clone()),
            DownloaderError::NoSources => DownloaderError::NoSources,
            DownloaderError::DownloadFailed(m) => DownloaderError::DownloadFailed(m.clone()),
        }
    }
}

} // verus!
