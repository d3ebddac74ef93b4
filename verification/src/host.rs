//! What the host application keeps and exchanges: settings, the download
//! history, the answer to a resolve request, and the checks on paths that
//! the user hands in.

use vstd::prelude::*;
use vstd::string::*;
use crate::downloader::{VideoInfo, VideoSource, backslash_separates, source_views};
use crate::text::{is_blank, str_contains_char, str_is_blank};

verus! {

/// The settings of the application.
#[derive(Debug)]
pub struct AppSettings {
    pub default_download_dir: String,
    pub default_quality: String,
    pub max_concurrent_downloads: usize,
    pub auto_start_queue: bool,
    pub show_notifications: bool,
    pub minimize_to_tray: bool,
    pub theme: String,
}

impl AppSettings {
    /// The settings of a fresh installation that downloads to
    /// `download_dir`: quality "auto", two concurrent downloads, the queue
    /// started by itself, notifications shown, no tray, the dark theme.
    pub fn with_download_dir(download_dir: String) -> (settings: AppSettings)
        ensures
            settings.default_download_dir == download_dir,
            settings.default_quality@ == "auto"@,
            settings.max_concurrent_downloads == 2,
            settings.auto_start_queue,
            settings.show_notifications,
            !settings.minimize_to_tray,
            settings.theme@ == "dark"@,
    {
        AppSettings {
            default_download_dir: download_dir,
            default_quality: "auto".to_owned(),
            max_concurrent_downloads: 2,
            auto_start_queue: true,
            show_notifications: true,
            minimize_to_tray: false,
            theme: "dark".to_owned(),
        }
    }
}

impl Clone for AppSettings {
    fn clone(&self) -> (copy: Self)
        ensures
            copy.default_download_dir@ == self.default_download_dir@,
            copy.default_quality@ == self.default_quality@,
            copy.max_concurrent_downloads == self.max_concurrent_downloads,
            copy.auto_start_queue == self.auto_start_queue,
            copy.show_notifications == self.show_notifications,
            copy.minimize_to_tray == self.minimize_to_tray,
            copy.theme@ == self.theme@,
    {
        AppSettings {
            default_download_dir: self.default_download_dir.clone(),
            default_quality: self.default_quality.clone(),
            max_concurrent_downloads: self.max_concurrent_downloads,
            auto_start_queue: self.auto_start_queue,
            show_notifications: self.show_notifications,
            minimize_to_tray: self.minimize_to_tray,
            theme: self.theme.clone(),
        }
    }
}

/// One source in the answer to a resolve request.
#[derive(Debug)]
pub struct VideoSourceResponse {
    pub url: String,
    pub quality: String,
    pub source_type: String,
}

/// The answer to a resolve request.
#[derive(Debug)]
pub struct VideoInfoResponse {
    pub url: String,
    pub title: String,
    pub thumbnail: String,
    pub duration: String,
    pub qualities: Vec<String>,
    pub sources: Vec<VideoSourceResponse>,
}

impl VideoSourceResponse {
    /// The source as it is sent to the host.
    pub fn from_source(source: &VideoSource) -> (response: VideoSourceResponse)
        ensures
            response.url@ == source.url@,
            response.quality@ == source.quality@,
            response.source_type@ == source.source_type@,
    {
        VideoSourceResponse {
            url: source.url.clone(),
            quality: source.quality.clone(),
            source_type: source.source_type.clone(),
        }
    }
}

impl VideoInfoResponse {
    /// What resolving gave, as it is sent to the host: the same texts and
    /// qualities, and the same sources in the same order.
    pub fn from_info(info: VideoInfo) -> (response: VideoInfoResponse)
        ensures
            response.url == info.url,
            response.title == info.title,
            response.thumbnail == info.thumbnail,
            response.duration == info.duration,
            response.qualities == info.qualities,
            response.sources@.len() == info.sources@.len(),
            forall|i: int|
                0 <= i < info.sources@.len() ==> {
                    &&& (#[trigger] response.sources@[i]).url@ == info.sources@[i].url@
                    &&& response.sources@[i].quality@ == info.sources@[i].quality@
                    &&& response.sources@[i].source_type@ == info.sources@[i].source_type@
                },
    {
        let mut sources: Vec<VideoSourceResponse> = Vec::new();
        let mut i: usize = 0;
        while i < info.sources.len()
            invariant
                i <= info.sources@.len(),
                sources@.len() == i,
                forall|k: int|
                    0 <= k < i ==> {
                        &&& (#[trigger] sources@[k]).url@ == info.sources@[k].url@
                        &&& sources@[k].quality@ == info.sources@[k].quality@
                        &&& sources@[k].source_type@ == info.sources@[k].source_type@
                    },
            decreases info.sources@.len() - i,
        {
            sources.push(VideoSourceResponse::from_source(&info.sources[i]));
            i = i + 1;
        }
        VideoInfoResponse {
            url: info.url,
            title: info.title,
            thumbnail: info.thumbnail,
            duration: info.duration,
            qualities: info.qualities,
            sources,
        }
    }
}

/// How many sources were found, for the message shown after resolving.
pub fn source_count(info: &VideoInfo) -> (count: usize)
    ensures
        count == info@.sources.len(),
{
    assert(source_views(info.sources@).len() == info.sources@.len());
    info.sources.len()
}

/// One finished download in the history.
#[derive(Debug)]
pub struct HistoryItem {
    pub id: String,
    pub url: String,
    pub title: String,
    pub thumbnail: String,
    pub filename: String,
    pub quality: String,
    pub downloaded_at: String,
    pub file_path: String,
    pub file_size: Option<u64>,
}

/// How many entries the history keeps.
pub const HISTORY_LIMIT: usize = 100;

/// The history after `item` was added: the item first, then the entries
/// there were, and no more than the limit in all.
pub open spec fn history_with(history: Seq<HistoryItem>, item: HistoryItem) -> Seq<HistoryItem> {
    let all = seq![item] + history;
    if all.len() > HISTORY_LIMIT {
        all.take(HISTORY_LIMIT as int)
    } else {
        all
    }
}

/// Puts `item` at the head of the history and drops what is beyond the
/// limit.
pub fn add_to_history(history: &mut Vec<HistoryItem>, item: HistoryItem)
    ensures
        final(history)@ == history_with(old(history)@, item),
{
    history.insert(0, item);
    history.truncate(HISTORY_LIMIT);
    assert(old(history)@.insert(0, item) =~= seq![item] + old(history)@);
}

/// Takes the entries with the id `id` out of the history; the others keep
/// their order.
pub fn delete_history_item(history: &mut Vec<HistoryItem>, id: &str)
    ensures
        final(history)@ == old(history)@.filter(|h: HistoryItem| h.id@ != id@),
{
    let ghost before = history@;
    let ghost keep = |h: HistoryItem| h.id@ != id@;
    let ghost mut seen: int = 0;
    let mut pos: usize = 0;
    proof {
        assert(before.take(0).filter(keep) =~= Seq::<HistoryItem>::empty());
        assert(history@.take(0) =~= Seq::<HistoryItem>::empty());
        assert(before.skip(0) =~= before);
    }
    while pos < history.len()
        invariant
            pos <= history.len(),
            0 <= seen <= before.len(),
            history.len() - pos == before.len() - seen,
            history@.take(pos as int) == before.take(seen).filter(keep),
            history@.skip(pos as int) == before.skip(seen),
            keep == |h: HistoryItem| h.id@ != id@,
        decreases history.len() - pos,
    {
        let ghost here = history@;
        proof {
            assert(here.skip(pos as int)[0] == before.skip(seen)[0]);
            assert(here[pos as int] == before[seen]);
            assert(before.take(seen + 1) =~= before.take(seen).push(before[seen]));
            before.take(seen).lemma_filter_push(before[seen], keep);
            assert(before.skip(seen + 1) =~= before.skip(seen).skip(1));
        }
        if history[pos].id.as_str().eq(id) {
            history.remove(pos);
            proof {
                assert(history@ =~= here.remove(pos as int));
                assert(history@.take(pos as int) =~= here.take(pos as int));
                assert(history@.skip(pos as int) =~= here.skip(pos as int).skip(1));
            }
        } else {
            proof {
                assert(here.take(pos + 1) =~= here.take(pos as int).push(here[pos as int]));
                assert(here.skip(pos + 1) =~= here.skip(pos as int).skip(1));
            }
            pos = pos + 1;
        }
        proof {
            seen = seen + 1;
        }
    }
    proof {
        assert(history@.take(pos as int) =~= history@);
        assert(before.take(seen) =~= before);
    }
}

/// Why a path is refused, if it is: it is blank, or holds a NUL, a line
/// feed, a carriage return or a tab (named in the message as Rust escapes
/// it), or, where `windows` says that the platform is Windows, one of `&`,
/// `|` and `;`.
pub open spec fn path_refusal(path: Seq<char>, windows: bool) -> Option<Seq<char>> {
    if is_blank(path) {
        Some("Path cannot be empty"@)
    } else if path.contains('\0') {
        Some("Path contains invalid character: \\u{0}"@)
    } else if path.contains('\n') {
        Some("Path contains invalid character: \\n"@)
    } else if path.contains('\r') {
        Some("Path contains invalid character: \\r"@)
    } else if path.contains('\t') {
        Some("Path contains invalid character: \\t"@)
    } else if windows && (path.contains('&') || path.contains('|') || path.contains(';')) {
        Some("Path contains invalid characters"@)
    } else {
        None
    }
}

/// The outcome of checking a path: the path itself, or the reason for which
/// it is refused.
pub open spec fn checked_path(path: Seq<char>, windows: bool) -> Result<Seq<char>, Seq<char>> {
    match path_refusal(path, windows) {
        Some(reason) => Err(reason),
        None => Ok(path),
    }
}

/// A text or a reason, as character sequences.
pub open spec fn path_outcome(r: Result<String, String>) -> Result<Seq<char>, Seq<char>> {
    match r {
        Ok(p) => Ok(p@),
        Err(e) => Err(e@),
    }
}

/// Checks a path that the user handed in, under the rule of the platform
/// that `windows` names, and hands it back unchanged if it passes.
pub fn sanitize_path_on(path: &str, windows: bool) -> (checked: Result<String, String>)
    ensures
        path_outcome(checked) == checked_path(path@, windows),
{
    if str_is_blank(path) {
        return Err("Path cannot be empty".to_owned());
    }
    if str_contains_char(path, '\0') {
        return Err("Path contains invalid character: \\u{0}".to_owned());
    }
    if str_contains_char(path, '\n') {
        return Err("Path contains invalid character: \\n".to_owned());
    }
    if str_contains_char(path, '\r') {
        return Err("Path contains invalid character: \\r".to_owned());
    }
    if str_contains_char(path, '\t') {
        return Err("Path contains invalid character: \\t".to_owned());
    }
    if windows && (str_contains_char(path, '&') || str_contains_char(path, '|')
        || str_contains_char(path, ';')) {
        return Err("Path contains invalid characters".to_owned());
    }
    Ok(path.to_owned())
}

/// Checks a path that the user handed in, under the rule of the platform
/// the program runs on, and hands it back unchanged if it passes.
pub fn sanitize_path(path: &str) -> (checked: Result<String, String>)
    ensures
        path_outcome(checked) == checked_path(path@, true) || path_outcome(checked)
            == checked_path(path@, false),
        path_refusal(path@, false) is Some ==> path_outcome(checked) == checked_path(path@, false),
        path_refusal(path@, true) is None ==> path_outcome(checked) == Ok::<Seq<char>, Seq<char>>(
            path@,
        ),
{
    sanitize_path_on(path, backslash_separates())
}

/// What the file system says of a path.
#[derive(Clone, Copy, Debug, PartialEq, Eq, Structural)]
pub struct PathFacts {
    pub exists: bool,
    pub is_dir: bool,
    pub is_file: bool,
}

/// Why a path with these facts is refused, if it is.
pub open spec fn facts_refusal(facts: PathFacts, must_exist: bool, require_directory: bool) -> Option<
    Seq<char>,
> {
    if must_exist && !facts.exists {
        Some("Path does not exist"@)
    } else if require_directory && facts.exists && !facts.is_dir {
        Some("Path must be a directory"@)
    } else if !require_directory && facts.exists && !facts.is_file {
        Some("Path must be a file"@)
    } else {
        None
    }
}

/// The reason of a refusal, as a character sequence.
pub open spec fn refusal_of(r: Result<bool, String>) -> Option<Seq<char>> {
    match r {
        Ok(_) => None,
        Err(e) => Some(e@),
    }
}

/// Decides on a path from what the file system says of it: whether it may
/// be used, and, if so, whether it is to be resolved to its canonical form,
/// which is the case exactly when it exists.
pub fn validate_path(facts: PathFacts, must_exist: bool, require_directory: bool) -> (decision:
    Result<bool, String>)
    ensures
        refusal_of(decision) == facts_refusal(facts, must_exist, require_directory),
        decision matches Ok(canonical) ==> canonical == facts.exists,
{
    if must_exist && !facts.exists {
        return Err("Path does not exist".to_owned());
    }
    if require_directory && facts.exists && !facts.is_dir {
        return Err("Path must be a directory".to_owned());
    }
    if !require_directory && facts.exists && !facts.is_file {
        return Err("Path must be a file".to_owned());
    }
    Ok(facts.exists)
}

} // verus!
