//! What a page offers for download, and the checks on the names, folders
//! and addresses that a download is given.

pub mod browser;
pub mod direct;
pub mod engine;
pub mod hls;
pub mod naming;
pub mod video;

use vstd::prelude::*;
use vstd::string::*;
use crate::address::{UrlPartsView, parse_url, parsed_url};
use crate::error::DownloaderErrorView;
use crate::text::{
    chars_of, contains_text, lowercase, replace_chars, replaced, starts_with_text, str_contains,
    str_contains_char, str_starts_with, string_of_range, to_lowercase,
};

pub use crate::error::DownloaderError;

verus! {

/// One place where the media of a page can be fetched.
#[derive(Debug)]
pub struct VideoSource {
    pub url: String,
    /// "1080p", "720p", "480p", "360p" or "auto".
    pub quality: String,
    /// "hls" for a manifest, "direct" for a file.
    pub source_type: String,
}

/// A source with its texts as character sequences.
pub struct VideoSourceView {
    pub url: Seq<char>,
    pub quality: Seq<char>,
    pub source_type: Seq<char>,
}

impl View for VideoSource {
    type V = VideoSourceView;

    open spec fn view(&self) -> VideoSourceView {
        VideoSourceView { url: self.url@, quality: self.quality@, source_type: self.source_type@ }
    }
}

impl Clone for VideoSource {
    fn clone(&self) -> (copy: Self)
        ensures
            copy@ == self@,
    {
        VideoSource {
            url: self.url.clone(),
            quality: self.quality.clone(),
            source_type: self.source_type.clone(),
        }
    }
}

/// The sources of a list, each as its view.
pub open spec fn source_views(sources: Seq<VideoSource>) -> Seq<VideoSourceView> {
    sources.map_values(|s: VideoSource| s@)
}

/// The texts of a list, each as its characters.
pub open spec fn quality_views(qualities: Seq<String>) -> Seq<Seq<char>> {
    qualities.map_values(|q: String| q@)
}

/// What resolving a page gave.
#[derive(Debug)]
pub struct VideoInfo {
    pub url: String,
    pub title: String,
    pub thumbnail: String,
    pub duration: String,
    pub qualities: Vec<String>,
    pub sources: Vec<VideoSource>,
}

/// The result of resolving a page as a mathematical value.
pub struct VideoInfoView {
    pub url: Seq<char>,
    pub title: Seq<char>,
    pub thumbnail: Seq<char>,
    pub duration: Seq<char>,
    pub qualities: Seq<Seq<char>>,
    pub sources: Seq<VideoSourceView>,
}

impl View for VideoInfo {
    type V = VideoInfoView;

    open spec fn view(&self) -> VideoInfoView {
        VideoInfoView {
            url: self.url@,
            title: self.title@,
            thumbnail: self.thumbnail@,
            duration: self.duration@,
            qualities: quality_views(self.qualities@),
            sources: source_views(self.sources@),
        }
    }
}

impl Default for VideoInfo {
    /// Nothing known: empty texts, no source, and "auto" as the only quality.
    fn default() -> (info: VideoInfo)
        ensures
            info@ == (VideoInfoView {
                url: Seq::empty(),
                title: Seq::empty(),
                thumbnail: Seq::empty(),
                duration: Seq::empty(),
                qualities: seq!["auto"@],
                sources: Seq::empty(),
            }),
    {
        let mut qualities: Vec<String> = Vec::new();
        qualities.push("auto".to_owned());
        let info = VideoInfo {
            url: String::new(),
            title: String::new(),
            thumbnail: String::new(),
            duration: String::new(),
            qualities,
            sources: Vec::new(),
        };
        assert(info@.qualities =~= seq!["auto"@]);
        assert(info@.sources =~= Seq::empty());
        info
    }
}

/// The marks of an advertisement in an address.
pub open spec fn ad_patterns() -> Seq<Seq<char>> {
    seq![
        "adSrc"@,
        "/ad/"@,
        "advertisement"@,
        "b7e06ea0-c18b-4b1e-9cba-2f7a9891f52f"@,
        "01dd0f98-3b37-40a5-ad47-20935908b632"@,
        "cf953e68-8e67-4135-9b39-746fe7557c10"@,
    ]
}

/// The address carries a mark of an advertisement: its lowercase form
/// contains the lowercase form of one of the patterns.
pub open spec fn is_ad(url: Seq<char>) -> bool {
    exists|k: int|
        0 <= k < ad_patterns().len() && contains_text(
            lowercase(url),
            lowercase(#[trigger] ad_patterns()[k]),
        )
}

fn has_pattern(lower: &str, pattern: &str) -> (found: bool)
    ensures
        found == contains_text(lower@, lowercase(pattern@)),
{
    let p = to_lowercase(pattern);
    str_contains(lower, p.as_str())
}

/// Whether the address carries a mark of an advertisement.
pub fn is_ad_url(url: &str) -> (ad: bool)
    ensures
        ad == is_ad(url@),
{
    let lower = to_lowercase(url);
    let l = lower.as_str();
    let ad = has_pattern(l, "adSrc") || has_pattern(l, "/ad/") || has_pattern(l, "advertisement")
        || has_pattern(l, "b7e06ea0-c18b-4b1e-9cba-2f7a9891f52f") || has_pattern(
        l,
        "01dd0f98-3b37-40a5-ad47-20935908b632",
    ) || has_pattern(l, "cf953e68-8e67-4135-9b39-746fe7557c10");
    proof {
        let pats = ad_patterns();
        assert(pats[0] == "adSrc"@ && pats[1] == "/ad/"@ && pats[2] == "advertisement"@);
        assert(pats[3] == "b7e06ea0-c18b-4b1e-9cba-2f7a9891f52f"@);
        assert(pats[4] == "01dd0f98-3b37-40a5-ad47-20935908b632"@);
        assert(pats[5] == "cf953e68-8e67-4135-9b39-746fe7557c10"@);
        assert(pats.len() == 6);
    }
    ad
}

/// The quality that an address names: the first of 1080, 720, 480 and 360
/// that it contains, as "1080p" and so on, and "auto" if it holds none.
pub open spec fn quality_in(url: Seq<char>) -> Seq<char> {
    if contains_text(url, "1080"@) {
        "1080p"@
    } else if contains_text(url, "720"@) {
        "720p"@
    } else if contains_text(url, "480"@) {
        "480p"@
    } else if contains_text(url, "360"@) {
        "360p"@
    } else {
        "auto"@
    }
}

/// The quality that an address names.
pub fn extract_quality_from_url(url: &str) -> (quality: String)
    ensures
        quality@ == quality_in(url@),
{
    if str_contains(url, "1080") {
        "1080p".to_owned()
    } else if str_contains(url, "720") {
        "720p".to_owned()
    } else if str_contains(url, "480") {
        "480p".to_owned()
    } else if str_contains(url, "360") {
        "360p".to_owned()
    } else {
        "auto".to_owned()
    }
}

/// A character that a file name must not hold at all.
pub open spec fn is_dropped(c: char) -> bool {
    c == '/' || c == '\\' || c == '\0'
}

/// A character that a file name holds as an underscore.
pub open spec fn is_masked(c: char) -> bool {
    c == '<' || c == '>' || c == ':' || c == '"' || c == '|' || c == '?' || c == '*'
}

/// `s` without the characters that are dropped and with an underscore for
/// each that is masked.
pub open spec fn scrubbed(s: Seq<char>) -> Seq<char>
    decreases s.len(),
{
    if s.len() == 0 {
        s
    } else if is_dropped(s[0]) {
        scrubbed(s.skip(1))
    } else if is_masked(s[0]) {
        seq!['_'] + scrubbed(s.skip(1))
    } else {
        seq![s[0]] + scrubbed(s.skip(1))
    }
}

/// A character that is cut from both ends of a file name.
pub open spec fn is_edge(c: char) -> bool {
    c == '.' || c == ' '
}

/// How many characters at the start of `s` are cut.
pub open spec fn edge_start(s: Seq<char>) -> int
    decreases s.len(),
{
    if s.len() > 0 && is_edge(s[0]) {
        1 + edge_start(s.skip(1))
    } else {
        0
    }
}

/// Where `s` ends once the characters at its end are cut.
pub open spec fn edge_end(s: Seq<char>) -> int
    decreases s.len(),
{
    if s.len() > 0 && is_edge(s.last()) {
        edge_end(s.drop_last())
    } else {
        s.len() as int
    }
}

/// `s` without the dots and spaces at its two ends.
pub open spec fn trimmed(s: Seq<char>) -> Seq<char> {
    if edge_start(s) >= edge_end(s) {
        Seq::empty()
    } else {
        s.subrange(edge_start(s), edge_end(s))
    }
}

/// The file name that is safe to use for `filename`: separators and NUL
/// dropped, the other characters that file systems refuse masked, every
/// ".." taken out, and dots and spaces cut from both ends.
pub open spec fn sanitized(filename: Seq<char>) -> Seq<char> {
    trimmed(replaced(scrubbed(filename), ".."@, Seq::empty()))
}

fn scrub(s: &Vec<char>) -> (out: Vec<char>)
    ensures
        out@ == scrubbed(s@),
{
    let mut out: Vec<char> = Vec::new();
    let mut i: usize = 0;
    assert(s@.skip(0) == s@);
    while i < s.len()
        invariant
            i <= s.len(),
            out@ + scrubbed(s@.skip(i as int)) == scrubbed(s@),
        decreases s.len() - i,
    {
        let ghost rest = s@.skip(i as int);
        let ghost before = out@;
        let c = s[i];
        assert(rest[0] == c);
        assert(rest.skip(1) == s@.skip(i + 1));
        if c == '/' || c == '\\' || c == '\0' {
        } else if c == '<' || c == '>' || c == ':' || c == '"' || c == '|' || c == '?' || c == '*' {
            out.push('_');
            assert(before.push('_') + scrubbed(rest.skip(1)) == before + (seq!['_'] + scrubbed(
                rest.skip(1),
            )));
        } else {
            out.push(c);
            assert(before.push(c) + scrubbed(rest.skip(1)) == before + (seq![c] + scrubbed(
                rest.skip(1),
            )));
        }
        i = i + 1;
    }
    assert(s@.skip(s.len() as int) == Seq::<char>::empty());
    assert(out@ + Seq::<char>::empty() == out@);
    out
}

fn trim_edges(s: &Vec<char>) -> (out: String)
    ensures
        out@ == trimmed(s@),
{
    let mut start: usize = 0;
    assert(s@.skip(0) == s@);
    while start < s.len() && (s[start] == '.' || s[start] == ' ')
        invariant
            start <= s.len(),
            edge_start(s@) == start + edge_start(s@.skip(start as int)),
        decreases s.len() - start,
    {
        assert(s@.skip(start as int).skip(1) == s@.skip(start + 1));
        start = start + 1;
    }
    assert(edge_start(s@) == start) by {
        if start < s.len() {
            assert(s@.skip(start as int)[0] == s@[start as int]);
        }
    }
    let mut end: usize = s.len();
    assert(s@.take(end as int) == s@);
    while end > start && (s[end - 1] == '.' || s[end - 1] == ' ')
        invariant
            start <= end <= s.len(),
            edge_end(s@) == edge_end(s@.take(end as int)),
        decreases end,
    {
        assert(s@.take(end as int).drop_last() == s@.take(end - 1));
        end = end - 1;
    }
    proof {
        if end > start {
            assert(s@.take(end as int).last() == s@[end - 1]);
            assert(edge_end(s@) == end);
        } else {
            edge_end_at_most(s@.take(end as int));
        }
    }
    if start >= end {
        String::new()
    } else {
        string_of_range(s, start, end)
    }
}

/// The cut at the end never leaves more than there is.
proof fn edge_end_at_most(s: Seq<char>)
    ensures
        0 <= edge_end(s) <= s.len(),
    decreases s.len(),
{
    if s.len() > 0 && is_edge(s.last()) {
        edge_end_at_most(s.drop_last());
    }
}

/// The file name that is safe to use for `filename`.
pub fn sanitize_filename(filename: &str) -> (name: String)
    ensures
        name@ == sanitized(filename@),
{
    let chars = chars_of(filename);
    let kept = scrub(&chars);
    let dots = chars_of("..");
    let none: Vec<char> = Vec::new();
    proof {
        reveal_strlit("..");
    }
    let cleaned = replace_chars(&kept, &dots, &none);
    trim_edges(&cleaned)
}

/// The folder is refused: it holds a NUL, a line feed or a carriage return,
/// or, where `windows` says that the platform is Windows, one of `&`, `|`
/// and `;`.
pub open spec fn dir_refused(dir: Seq<char>, windows: bool) -> bool {
    ||| dir.contains('\0')
    ||| dir.contains('\n')
    ||| dir.contains('\r')
    ||| (windows && (dir.contains('&') || dir.contains('|') || dir.contains(';')))
}

/// The outcome of checking a folder as a mathematical value.
pub open spec fn checked_dir(dir: Seq<char>, windows: bool) -> Result<
    Seq<char>,
    DownloaderErrorView,
> {
    if dir_refused(dir, windows) {
        Err(DownloaderErrorView::DownloadFailed("Invalid directory path"@))
    } else {
        Ok(dir)
    }
}

/// A text or a failure, as character sequences.
pub open spec fn checked_view(r: Result<String, DownloaderError>) -> Result<
    Seq<char>,
    DownloaderErrorView,
> {
    match r {
        Ok(t) => Ok(t@),
        Err(e) => Err(e@),
    }
}

/// Checks an output folder under the rule of the platform that `windows`
/// names, and hands it back unchanged if it passes.
pub fn validate_output_dir_on(dir: &str, windows: bool) -> (checked: Result<String, DownloaderError>)
    ensures
        checked_view(checked) == checked_dir(dir@, windows),
{
    if str_contains_char(dir, '\0') || str_contains_char(dir, '\n') || str_contains_char(dir, '\r') {
        return Err(DownloaderError::DownloadFailed("Invalid directory path".to_owned()));
    }
    if windows && (str_contains_char(dir, '&') || str_contains_char(dir, '|') || str_contains_char(
        dir,
        ';',
    )) {
        return Err(DownloaderError::DownloadFailed("Invalid directory path".to_owned()));
    }
    Ok(dir.to_owned())
}

/// Calls `std::path::is_separator` on the backslash, which separates path
/// components on Windows and nowhere else. The answer depends on the
/// platform, so nothing is claimed of it.
#[verifier::external_body]
pub(crate) fn backslash_separates() -> (windows: bool) {
    std::path::is_separator('\\')
}

/// Checks an output folder under the rule of the platform the program runs
/// on, and hands it back unchanged if it passes.
pub fn validate_output_dir(dir: &str) -> (checked: Result<String, DownloaderError>)
    ensures
        checked_view(checked) == checked_dir(dir@, true) || checked_view(checked) == checked_dir(
            dir@,
            false,
        ),
        dir_refused(dir@, false) ==> checked_view(checked) == checked_dir(dir@, false),
        !dir_refused(dir@, true) ==> checked_view(checked) == Ok::<
            Seq<char>,
            DownloaderErrorView,
        >(dir@),
{
    validate_output_dir_on(dir, backslash_separates())
}

/// The host names the machine itself.
pub open spec fn is_loopback_host(host: Seq<char>) -> bool {
    ||| lowercase(host) == "localhost"@
    ||| host == "127.0.0.1"@
    ||| host == "::1"@
    ||| host == "0.0.0.0"@
}

/// The host, in lowercase, begins like an address of a private network.
pub open spec fn is_private_host(lower: Seq<char>) -> bool {
    ||| starts_with_text(lower, "127."@)
    ||| starts_with_text(lower, "10."@)
    ||| starts_with_text(lower, "192.168."@)
    ||| starts_with_text(lower, "172.16."@)
    ||| starts_with_text(lower, "169.254."@)
    ||| starts_with_text(lower, "fc00:"@)
    ||| starts_with_text(lower, "fe80:"@)
    ||| starts_with_text(lower, "::1"@)
    ||| starts_with_text(lower, "::ffff:"@)
}

/// The host, in lowercase, looks like a name of the local network.
pub open spec fn is_local_name(lower: Seq<char>) -> bool {
    contains_text(lower, "localhost"@) || contains_text(lower, ".local"@)
}

/// Why a host is refused, if it is.
pub open spec fn host_refusal(host: Seq<char>) -> Option<Seq<char>> {
    if is_loopback_host(host) {
        Some("Localhost addresses are not allowed"@)
    } else if is_private_host(lowercase(host)) {
        Some("Private network addresses are not allowed"@)
    } else if is_local_name(lowercase(host)) {
        Some("Local hostnames are not allowed"@)
    } else {
        None
    }
}

/// Why a scheme is refused, if it is: only "http" and "https" pass.
pub open spec fn scheme_refusal(scheme: Seq<char>) -> Option<Seq<char>> {
    if scheme == "http"@ || scheme == "https"@ {
        None
    } else if scheme == "file"@ || scheme == "data"@ || scheme == "javascript"@ || scheme
        == "vbscript"@ {
        Some("Dangerous URL scheme not allowed: "@ + scheme)
    } else {
        Some("Unsupported URL scheme: "@ + scheme)
    }
}

/// Why an address with these parts is refused, if it is: for its scheme
/// first, then for its host.
pub open spec fn parts_refusal(parts: UrlPartsView) -> Option<Seq<char>> {
    if scheme_refusal(parts.scheme) is Some {
        scheme_refusal(parts.scheme)
    } else {
        match parts.host {
            Some(host) => host_refusal(host),
            None => None,
        }
    }
}

/// The outcome of checking an address: the address itself, or the reason
/// for which it is refused.
pub open spec fn checked_url(url: Seq<char>) -> Result<Seq<char>, DownloaderErrorView> {
    match parsed_url(url) {
        Err(_) => Err(DownloaderErrorView::DownloadFailed("Invalid URL format"@)),
        Ok(parts) => match parts_refusal(parts) {
            Some(reason) => Err(DownloaderErrorView::DownloadFailed(reason)),
            None => Ok(url),
        },
    }
}

/// The characters of an optional text.
pub open spec fn refusal_view(r: Option<String>) -> Option<Seq<char>> {
    match r {
        Some(t) => Some(t@),
        None => None,
    }
}

/// Why a scheme is refused, if it is.
pub fn check_scheme(scheme: &str) -> (refusal: Option<String>)
    ensures
        refusal_view(refusal) == scheme_refusal(scheme@),
{
    if scheme.eq("http") || scheme.eq("https") {
        None
    } else if scheme.eq("file") || scheme.eq("data") || scheme.eq("javascript") || scheme.eq(
        "vbscript",
    ) {
        Some(crate::text::join_text("Dangerous URL scheme not allowed: ", scheme))
    } else {
        Some(crate::text::join_text("Unsupported URL scheme: ", scheme))
    }
}

/// Why a host is refused, if it is.
pub fn check_host(host: &str) -> (refusal: Option<String>)
    ensures
        refusal_view(refusal) == host_refusal(host@),
{
    let lower_text = to_lowercase(host);
    let lower = lower_text.as_str();
    if lower.eq("localhost") || host.eq("127.0.0.1") || host.eq("::1") || host.eq("0.0.0.0") {
        return Some("Localhost addresses are not allowed".to_owned());
    }
    if str_starts_with(lower, "127.") || str_starts_with(lower, "10.") || str_starts_with(
        lower,
        "192.168.",
    ) || str_starts_with(lower, "172.16.") || str_starts_with(lower, "169.254.")
        || str_starts_with(lower, "fc00:") || str_starts_with(lower, "fe80:") || str_starts_with(
        lower,
        "::1",
    ) || str_starts_with(lower, "::ffff:") {
        return Some("Private network addresses are not allowed".to_owned());
    }
    if str_contains(lower, "localhost") || str_contains(lower, ".local") {
        return Some("Local hostnames are not allowed".to_owned());
    }
    None
}

/// Checks an address before anything is fetched from it: it has to parse,
/// its scheme has to be "http" or "https", and its host must not point at
/// the machine itself or at a private or local network. An address that
/// passes is handed back unchanged.
pub fn validate_url(url: &str) -> (checked: Result<String, DownloaderError>)
    ensures
        checked_view(checked) == checked_url(url@),
{
    let parts = match parse_url(url) {
        Ok(parts) => parts,
        Err(_) => {
            return Err(DownloaderError::DownloadFailed("Invalid URL format".to_owned()));
        },
    };
    match check_scheme(parts.scheme.as_str()) {
        Some(reason) => {
            return Err(DownloaderError::DownloadFailed(reason));
        },
        None => {},
    }
    match &parts.host {
        Some(host) => match check_host(host.as_str()) {
            Some(reason) => Err(DownloaderError::DownloadFailed(reason)),
            None => Ok(url.to_owned()),
        },
        None => Ok(url.to_owned()),
    }
}

} // verus!
