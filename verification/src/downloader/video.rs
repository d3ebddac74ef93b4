//! Choosing what to download from what a page offers.

use vstd::prelude::*;
use vstd::string::*;
use crate::downloader::{
    DownloaderError, VideoInfo, VideoSource, VideoSourceView, sanitize_filename, sanitized,
    source_views,
};
use crate::error::DownloaderErrorView;
use crate::queue::signal::random_id;

pub use crate::downloader::naming::{
    last_dot, media_file_name, media_file_path, media_name, media_path, stem_end,
};
use crate::text::{ends_with_text, str_ends_with, str_eq};

verus! {

/// The entry point for downloads of one configuration.
#[derive(Clone, Copy, Debug)]
pub struct VideoDownloader {
    pub headless: bool,
}

/// The request names a quality of its own: it is there and is neither
/// "auto" nor "best".
pub open spec fn names_quality(quality: Option<Seq<char>>) -> bool {
    quality matches Some(q) && q != "auto"@ && q != "best"@
}

/// `at` is the first source with the quality `q`.
pub open spec fn is_first_with(sources: Seq<VideoSourceView>, q: Seq<char>, at: int) -> bool {
    &&& 0 <= at < sources.len()
    &&& sources[at].quality == q
    &&& forall|j: int| 0 <= j < at ==> sources[j].quality != q
}

/// The position of the source to download: the first with the quality that
/// the request names, and the first of all where the request names none or
/// no source has it.
pub open spec fn selected(sources: Seq<VideoSourceView>, quality: Option<Seq<char>>) -> int {
    if names_quality(quality) && exists|at: int| is_first_with(sources, quality->0, at) {
        choose|at: int| is_first_with(sources, quality->0, at)
    } else {
        0
    }
}

/// The characters of an optional text.
pub open spec fn opt_str(s: Option<&str>) -> Option<Seq<char>> {
    match s {
        Some(s) => Some(s@),
        None => None,
    }
}

impl VideoDownloader {
    /// A downloader whose browser runs without a window if `headless` is
    /// set.
    pub fn new(headless: bool) -> (downloader: VideoDownloader)
        ensures
            downloader.headless == headless,
    {
        VideoDownloader { headless }
    }

    /// The position of the source to download.
    pub fn select_index(&self, sources: &[VideoSource], quality: Option<&str>) -> (at: usize)
        requires
            sources@.len() > 0,
        ensures
            at < sources@.len(),
            at == selected(source_views(sources@), opt_str(quality)),
    {
        let ghost views = source_views(sources@);
        match quality {
            Some(q) => {
                if !str_eq(q, "auto") && !str_eq(q, "best") {
                    let mut at: usize = 0;
                    while at < sources.len()
                        invariant
                            at <= sources@.len(),
                            views == source_views(sources@),
                            opt_str(quality) == Some(q@),
                            q@ != "auto"@,
                            q@ != "best"@,
                            forall|j: int| 0 <= j < at ==> views[j].quality != q@,
                        decreases sources@.len() - at,
                    {
                        assert(views[at as int] == sources@[at as int]@);
                        if str_eq(sources[at].quality.as_str(), q) {
                            proof {
                                assert(is_first_with(views, q@, at as int));
                                assert(opt_str(quality)->0 == q@);
                                assert(names_quality(opt_str(quality)));
                                let other = selected(views, opt_str(quality));
                                assert(is_first_with(views, q@, other));
                                if other < at {
                                    assert(views[other].quality != q@);
                                } else if at < other {
                                    assert(views[at as int].quality != q@);
                                }
                            }
                            return at;
                        }
                        at = at + 1;
                    }
                    assert(forall|o: int| !is_first_with(views, q@, o));
                }
                0
            },
            None => 0,
        }
    }

    /// The source to download.
    pub fn select_source<'a>(&self, sources: &'a [VideoSource], quality: Option<&str>) -> (source:
        &'a VideoSource)
        requires
            sources@.len() > 0,
        ensures
            source@ == source_views(sources@)[selected(source_views(sources@), opt_str(quality))],
    {
        let at = self.select_index(sources, quality);
        assert(source_views(sources@)[at as int] == sources@[at as int]@);
        &sources[at]
    }
}

/// Which engine downloads a source.
#[derive(Clone, Copy, Debug, PartialEq, Eq, Structural)]
pub enum SourceKind {
    /// The manifest engine.
    Hls,
    /// The direct engine.
    Direct,
}

/// A source is a stream with a manifest: it is declared as "hls", or its
/// address ends in ".m3u8".
pub open spec fn is_manifest(source: VideoSourceView) -> bool {
    source.source_type == "hls"@ || ends_with_text(source.url, ".m3u8"@)
}

/// The engine for a source.
pub open spec fn kind_of(source: VideoSourceView) -> SourceKind {
    if is_manifest(source) {
        SourceKind::Hls
    } else {
        SourceKind::Direct
    }
}

/// The engine for a source.
pub fn source_kind(source: &VideoSource) -> (kind: SourceKind)
    ensures
        kind == kind_of(source@),
{
    if str_eq(source.source_type.as_str(), "hls") || str_ends_with(source.url.as_str(), ".m3u8") {
        SourceKind::Hls
    } else {
        SourceKind::Direct
    }
}

/// The name under which a download is stored, before its extension: the
/// requested name made safe, and "video" where none is requested or nothing
/// but a dot is left of it.
pub open spec fn output_name(filename: Option<Seq<char>>) -> Seq<char> {
    match filename {
        None => "video"@,
        Some(f) => if sanitized(f).len() == 0 || sanitized(f) == "."@ {
            "video"@
        } else {
            sanitized(f)
        },
    }
}

/// The name under which a download is stored, before its extension.
pub fn output_filename(filename: Option<&str>) -> (name: String)
    ensures
        name@ == output_name(opt_str(filename)),
{
    match filename {
        None => "video".to_owned(),
        Some(f) => {
            let name = sanitize_filename(f);
            if name.as_str().is_empty() || str_eq(name.as_str(), ".") {
                "video".to_owned()
            } else {
                name
            }
        },
    }
}

/// What is decided before a transfer starts.
#[derive(Debug)]
pub struct DownloadPlan {
    /// The address to download from.
    pub source_url: String,
    /// The engine that downloads it.
    pub kind: SourceKind,
    /// The page that led to the source, sent along with every request.
    pub referer: String,
    /// The folder of the finished file.
    pub directory: String,
    /// The name of the finished file, with its extension.
    pub file_name: String,
}

/// A plan as a mathematical value.
pub struct DownloadPlanView {
    pub source_url: Seq<char>,
    pub kind: SourceKind,
    pub referer: Seq<char>,
    pub directory: Seq<char>,
    pub file_name: Seq<char>,
}

impl View for DownloadPlan {
    type V = DownloadPlanView;

    open spec fn view(&self) -> DownloadPlanView {
        DownloadPlanView {
            source_url: self.source_url@,
            kind: self.kind,
            referer: self.referer@,
            directory: self.directory@,
            file_name: self.file_name@,
        }
    }
}

/// The plan for a download of the page `page_url` from `sources`: the
/// source is the one selected for the requested quality, the engine the one
/// for that source, and the page is the referer. Without a source there is
/// no plan.
pub open spec fn planned(
    page_url: Seq<char>,
    sources: Seq<VideoSourceView>,
    directory: Seq<char>,
    filename: Option<Seq<char>>,
    quality: Option<Seq<char>>,
) -> Result<DownloadPlanView, DownloaderErrorView> {
    if sources.len() == 0 {
        Err(DownloaderErrorView::NoSources)
    } else {
        let source = sources[selected(sources, quality)];
        Ok(
            DownloadPlanView {
                source_url: source.url,
                kind: kind_of(source),
                referer: page_url,
                directory,
                file_name: media_name(output_name(filename)),
            },
        )
    }
}

/// A plan or a failure, as a mathematical value.
pub open spec fn plan_outcome(r: Result<DownloadPlan, DownloaderError>) -> Result<
    DownloadPlanView,
    DownloaderErrorView,
> {
    match r {
        Ok(p) => Ok(p@),
        Err(e) => Err(e@),
    }
}

impl VideoDownloader {
    /// Decides how the page `page_url` is downloaded once it is resolved to
    /// `info` and the folder `directory` has passed its check.
    pub fn plan(
        &self,
        page_url: &str,
        info: &VideoInfo,
        directory: String,
        filename: Option<&str>,
        quality: Option<&str>,
    ) -> (plan: Result<DownloadPlan, DownloaderError>)
        ensures
            plan_outcome(plan) == planned(
                page_url@,
                info@.sources,
                directory@,
                opt_str(filename),
                opt_str(quality),
            ),
    {
        if info.sources.len() == 0 {
            assert(info@.sources.len() == 0);
            return Err(DownloaderError::NoSources);
        }
        assert(info@.sources.len() == info.sources@.len());
        let source = self.select_source(info.sources.as_slice(), quality);
        Ok(
            DownloadPlan {
                source_url: source.url.clone(),
                kind: source_kind(source),
                referer: page_url.to_owned(),
                directory,
                file_name: media_file_name(output_filename(filename).as_str()),
            },
        )
    }
}

/// The names of the two scratch files of a manifest download that carries
/// the identifier `id`: the file of segments and the repackaged file.
pub open spec fn scratch_names_for(id: Seq<char>) -> (Seq<char>, Seq<char>) {
    ("video_"@ + id + ".ts"@, "video_"@ + id + ".mp4"@)
}

/// The names of the two scratch files of a manifest download that carries
/// the identifier `id`.
pub fn scratch_names(id: &str) -> (names: (String, String))
    ensures
        (names.0@, names.1@) == scratch_names_for(id@),
{
    let mut segments = "video_".to_owned();
    segments.append(id);
    segments.append(".ts");
    let mut remuxed = "video_".to_owned();
    remuxed.append(id);
    remuxed.append(".mp4");
    (segments, remuxed)
}

/// The names of the two scratch files of a new manifest download. Each
/// download gets a random identifier of its own, so that no two downloads
/// write to the same file.
pub fn new_scratch_names() -> (names: (String, String))
    ensures
        exists|id: Seq<char>| id.len() == 36 && (names.0@, names.1@) == scratch_names_for(id),
{
    let id = random_id();
    let names = scratch_names(id.as_str());
    assert(id@.len() == 36 && (names.0@, names.1@) == scratch_names_for(id@));
    names
}

} // verus!
