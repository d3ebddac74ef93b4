//! Discovering the media of a page with a browser.
//!
//! Driving the browser is the caller's work. What is decided here is what
//! counts as a media source among the things the browser saw: the responses
//! on the network, the sources that the player names, and the addresses in
//! the text of the page.

use vstd::prelude::*;
use vstd::string::*;
use crate::downloader::{
    VideoInfo, VideoInfoView, VideoSource, VideoSourceView, extract_quality_from_url, is_ad,
    is_ad_url, quality_in, quality_views, source_views,
};
use crate::text::{contains_text, parse_i32, parsed_i32, replaced, str_contains, str_eq, str_replace};

verus! {

/// The settings of the browser that resolves a page.
#[derive(Clone, Copy, Debug)]
pub struct BrowserAutomation {
    pub headless: bool,
}

impl BrowserAutomation {
    /// A resolver whose browser runs without a window if `headless` is set.
    pub fn new(headless: bool) -> (browser: BrowserAutomation)
        ensures
            browser.headless == headless,
    {
        BrowserAutomation { headless }
    }
}

/// A response carries media: its address names a manifest, an MP4 or a WebM
/// file, or its type is one of a manifest or of MP4 video.
pub open spec fn is_media_response(url: Seq<char>, mime: Seq<char>) -> bool {
    ||| contains_text(url, ".m3u8"@)
    ||| contains_text(url, ".mp4"@)
    ||| contains_text(url, ".webm"@)
    ||| contains_text(mime, "mpegurl"@)
    ||| contains_text(mime, "video/mp4"@)
}

/// The source that a response on the network stands for, if it carries
/// media and is no advertisement.
pub open spec fn source_in_response(url: Seq<char>, mime: Seq<char>) -> Option<VideoSourceView> {
    if is_media_response(url, mime) && !is_ad(url) {
        Some(
            VideoSourceView {
                url,
                quality: quality_in(url),
                source_type: if contains_text(url, ".m3u8"@) || contains_text(mime, "mpegurl"@) {
                    "hls"@
                } else {
                    "direct"@
                },
            },
        )
    } else {
        None
    }
}

/// The view of an optional source.
pub open spec fn opt_source(s: Option<VideoSource>) -> Option<VideoSourceView> {
    match s {
        Some(s) => Some(s@),
        None => None,
    }
}

/// The source that a response on the network stands for.
pub fn response_source(url: &str, mime: &str) -> (source: Option<VideoSource>)
    ensures
        opt_source(source) == source_in_response(url@, mime@),
{
    let manifest = str_contains(url, ".m3u8") || str_contains(mime, "mpegurl");
    let media = manifest || str_contains(url, ".mp4") || str_contains(url, ".webm") || str_contains(
        mime,
        "video/mp4",
    );
    if media && !is_ad_url(url) {
        Some(
            VideoSource {
                url: url.to_owned(),
                quality: extract_quality_from_url(url),
                source_type: if manifest {
                    "hls".to_owned()
                } else {
                    "direct".to_owned()
                },
            },
        )
    } else {
        None
    }
}

/// The source that an address named by the player stands for, if the
/// address is not empty and is no advertisement.
pub open spec fn source_in_player(url: Seq<char>) -> Option<VideoSourceView> {
    if url.len() > 0 && !is_ad(url) {
        Some(
            VideoSourceView {
                url,
                quality: quality_in(url),
                source_type: if contains_text(url, ".m3u8"@) {
                    "hls"@
                } else {
                    "direct"@
                },
            },
        )
    } else {
        None
    }
}

/// The source that an address named by the player stands for.
pub fn player_source(url: &str) -> (source: Option<VideoSource>)
    ensures
        opt_source(source) == source_in_player(url@),
{
    if !url.is_empty() && !is_ad_url(url) {
        Some(
            VideoSource {
                url: url.to_owned(),
                quality: extract_quality_from_url(url),
                source_type: if str_contains(url, ".m3u8") {
                    "hls".to_owned()
                } else {
                    "direct".to_owned()
                },
            },
        )
    } else {
        None
    }
}

/// Some source of `found` has the address `url`.
pub open spec fn has_url(found: Seq<VideoSourceView>, url: Seq<char>) -> bool {
    exists|i: int| 0 <= i < found.len() && (#[trigger] found[i]).url == url
}

/// `found` with `source` at its end, unless its address is there already.
pub open spec fn with_source(found: Seq<VideoSourceView>, source: VideoSourceView) -> Seq<
    VideoSourceView,
> {
    if has_url(found, source.url) {
        found
    } else {
        found.push(source)
    }
}

/// Whether some source of `found` has the address `url`.
pub fn contains_url(found: &Vec<VideoSource>, url: &str) -> (known: bool)
    ensures
        known == has_url(source_views(found@), url@),
{
    let ghost views = source_views(found@);
    let mut i: usize = 0;
    while i < found.len()
        invariant
            i <= found.len(),
            views == source_views(found@),
            forall|k: int| 0 <= k < i ==> (#[trigger] views[k]).url != url@,
        decreases found.len() - i,
    {
        assert(views[i as int] == found[i as int]@);
        if str_eq(found[i].url.as_str(), url) {
            return true;
        }
        i = i + 1;
    }
    false
}

/// Adds `source` to what was found, unless its address is there already.
pub fn add_source(found: &mut Vec<VideoSource>, source: VideoSource)
    ensures
        source_views(final(found)@) == with_source(source_views(old(found)@), source@),
{
    if !contains_url(found, source.url.as_str()) {
        found.push(source);
        assert(source_views(found@) =~= source_views(old(found)@).push(source@));
    }
}

/// What was found after the address `url` turned up in the text of the
/// page, as a source of the type `kind`: advertisements are passed over.
pub open spec fn with_match(found: Seq<VideoSourceView>, url: Seq<char>, kind: Seq<char>) -> Seq<
    VideoSourceView,
> {
    if is_ad(url) {
        found
    } else {
        with_source(found, VideoSourceView { url, quality: quality_in(url), source_type: kind })
    }
}

/// What was found after the addresses `urls` turned up, in their order.
pub open spec fn with_matches(
    found: Seq<VideoSourceView>,
    urls: Seq<Seq<char>>,
    kind: Seq<char>,
) -> Seq<VideoSourceView>
    decreases urls.len(),
{
    if urls.len() == 0 {
        found
    } else {
        with_matches(with_match(found, urls[0], kind), urls.skip(1), kind)
    }
}

/// Adds the addresses `urls`, which turned up in the text of the page, as
/// sources of the type `kind`.
pub fn add_matches(found: &mut Vec<VideoSource>, urls: &Vec<String>, kind: &str)
    ensures
        source_views(final(found)@) == with_matches(
            source_views(old(found)@),
            quality_views(urls@),
            kind@,
        ),
{
    let ghost all = quality_views(urls@);
    let mut i: usize = 0;
    assert(all.skip(0) == all);
    while i < urls.len()
        invariant
            i <= urls.len(),
            all == quality_views(urls@),
            with_matches(source_views(found@), all.skip(i as int), kind@) == with_matches(
                source_views(old(found)@),
                all,
                kind@,
            ),
        decreases urls.len() - i,
    {
        proof {
            assert(all.skip(i as int)[0] == urls[i as int]@);
            assert(all.skip(i as int).skip(1) == all.skip(i + 1));
        }
        let url = urls[i].as_str();
        if !is_ad_url(url) {
            add_source(
                found,
                VideoSource {
                    url: url.to_owned(),
                    quality: extract_quality_from_url(url),
                    source_type: kind.to_owned(),
                },
            );
        }
        i = i + 1;
    }
}

/// What `Regex::new(pattern)` and then `find_iter` on `text` give: the
/// texts of the matches, in their order, or nothing where the pattern does
/// not compile.
pub uninterp spec fn regex_matches(pattern: Seq<char>, text: Seq<char>) -> Option<Seq<Seq<char>>>;

/// The view of an optional list of texts.
pub open spec fn opt_texts(t: Option<Vec<String>>) -> Option<Seq<Seq<char>>> {
    match t {
        Some(t) => Some(quality_views(t@)),
        None => None,
    }
}

/// Calls `regex::Regex::new` on the pattern and `Regex::find_iter` on the
/// text, and keeps the text of each match in the order found. The result
/// depends on the two texts alone, and is what `regex_matches` names.
#[verifier::external_body]
pub(crate) fn find_matches(pattern: &str, text: &str) -> (found: Option<Vec<String>>)
    ensures
        opt_texts(found) == regex_matches(pattern@, text@),
{
    match regex::Regex::new(pattern) {
        Ok(re) => Some(re.find_iter(text).map(|m| m.as_str().to_string()).collect()),
        Err(_) => None,
    }
}

/// The pattern of the address of a manifest in the text of a page.
pub open spec fn manifest_pattern() -> Seq<char> {
    "(https?://[^\\s\u{22}\u{27}<>\\\\\u{29}]+\\.m3u8[^\\s\u{22}\u{27}<>\\\\\u{29}]*)"@
}

/// The pattern of the address of an MP4 file in the text of a page.
pub open spec fn file_pattern() -> Seq<char> {
    "(https?://[^\\s\u{22}\u{27}<>\\\\\u{29}]+\\.mp4[^\\s\u{22}\u{27}<>\\\\\u{29}]*)"@
}

/// The matches of a pattern, and none where there is no result.
pub open spec fn matches_or_none(m: Option<Seq<Seq<char>>>) -> Seq<Seq<char>> {
    match m {
        Some(m) => m,
        None => Seq::empty(),
    }
}

/// What was found after the text of the page was searched: first the
/// manifests in it, as "hls", then the MP4 files, as "direct".
pub open spec fn with_page(found: Seq<VideoSourceView>, content: Seq<char>) -> Seq<VideoSourceView> {
    with_matches(
        with_matches(
            found,
            matches_or_none(regex_matches(manifest_pattern(), content)),
            "hls"@,
        ),
        matches_or_none(regex_matches(file_pattern(), content)),
        "direct"@,
    )
}

/// Searches the text of the page for the addresses of manifests and of MP4
/// files and adds them to what was found.
pub fn add_page_sources(found: &mut Vec<VideoSource>, content: &str)
    ensures
        source_views(final(found)@) == with_page(source_views(old(found)@), content@),
{
    match find_matches("(https?://[^\\s\u{22}\u{27}<>\\\\\u{29}]+\\.m3u8[^\\s\u{22}\u{27}<>\\\\\u{29}]*)", content) {
        Some(urls) => {
            add_matches(found, &urls, "hls");
        },
        None => {},
    }
    match find_matches("(https?://[^\\s\u{22}\u{27}<>\\\\\u{29}]+\\.mp4[^\\s\u{22}\u{27}<>\\\\\u{29}]*)", content) {
        Some(urls) => {
            add_matches(found, &urls, "direct");
        },
        None => {},
    }
}

/// The address is that of a single segment of a stream: it holds ".ts" and
/// no ".m3u8".
pub open spec fn is_segment_file(url: Seq<char>) -> bool {
    contains_text(url, ".ts"@) && !contains_text(url, ".m3u8"@)
}

/// The source can be offered: it is neither a single segment nor an
/// advertisement.
pub open spec fn is_usable(source: VideoSourceView) -> bool {
    !is_segment_file(source.url) && !is_ad(source.url)
}

/// The sources that are offered of those found: the usable ones, each
/// address once, in the order found.
pub open spec fn usable_sources(found: Seq<VideoSourceView>) -> Seq<VideoSourceView>
    decreases found.len(),
{
    if found.len() == 0 {
        Seq::empty()
    } else {
        let before = usable_sources(found.drop_last());
        if is_usable(found.last()) {
            with_source(before, found.last())
        } else {
            before
        }
    }
}

/// The sources that are offered of those found.
pub fn select_usable(found: &Vec<VideoSource>) -> (usable: Vec<VideoSource>)
    ensures
        source_views(usable@) == usable_sources(source_views(found@)),
{
    let ghost all = source_views(found@);
    let mut usable: Vec<VideoSource> = Vec::new();
    let mut i: usize = 0;
    assert(all.take(0) == Seq::<VideoSourceView>::empty());
    assert(source_views(usable@) == Seq::<VideoSourceView>::empty());
    while i < found.len()
        invariant
            i <= found.len(),
            all == source_views(found@),
            source_views(usable@) == usable_sources(all.take(i as int)),
        decreases found.len() - i,
    {
        proof {
            assert(all.take(i + 1).drop_last() == all.take(i as int));
            assert(all.take(i + 1).last() == found[i as int]@);
        }
        let url = found[i].url.as_str();
        let segment = str_contains(url, ".ts") && !str_contains(url, ".m3u8");
        if !segment && !is_ad_url(url) {
            add_source(&mut usable, found[i].clone());
        }
        i = i + 1;
    }
    assert(all.take(i as int) == all);
    usable
}

/// The number by which a quality is ordered: the one it writes once every
/// "p" is taken out and "auto" is read as "0", and zero where that is no
/// number.
pub open spec fn quality_rank(quality: Seq<char>) -> int {
    match parsed_i32(replaced(replaced(quality, "p"@, Seq::empty()), "auto"@, "0"@)) {
        Some(n) => n as int,
        None => 0,
    }
}

/// The number by which a quality is ordered.
pub fn rank_of(quality: &str) -> (rank: i32)
    ensures
        rank == quality_rank(quality@),
{
    proof {
        reveal_strlit("p");
        reveal_strlit("auto");
        reveal_strlit("");
    }
    let bare = str_replace(quality, "p", "");
    assert(""@ == Seq::<char>::empty());
    let plain = str_replace(bare.as_str(), "auto", "0");
    match parse_i32(plain.as_str()) {
        Some(n) => n,
        None => 0,
    }
}

/// Some source of `sources` has the quality `quality`.
pub open spec fn has_quality(sources: Seq<VideoSourceView>, quality: Seq<char>) -> bool {
    exists|i: int| 0 <= i < sources.len() && (#[trigger] sources[i]).quality == quality
}

/// `qualities` lists the qualities of `sources`: each quality that a source
/// has stands in it once, nothing else stands in it, and it runs from the
/// highest rank to the lowest.
pub open spec fn lists_qualities(qualities: Seq<Seq<char>>, sources: Seq<VideoSourceView>) -> bool {
    &&& qualities.no_duplicates()
    &&& forall|q: Seq<char>| qualities.contains(q) <==> has_quality(sources, q)
    &&& forall|i: int, j: int|
        0 <= i < j < qualities.len() ==> quality_rank(#[trigger] qualities[i]) >= quality_rank(
            #[trigger] qualities[j],
        )
}

fn holds_quality(qualities: &Vec<String>, quality: &str) -> (known: bool)
    ensures
        known == quality_views(qualities@).contains(quality@),
{
    let ghost views = quality_views(qualities@);
    let mut i: usize = 0;
    while i < qualities.len()
        invariant
            i <= qualities.len(),
            views == quality_views(qualities@),
            forall|k: int| 0 <= k < i ==> views[k] != quality@,
        decreases qualities.len() - i,
    {
        assert(views[i as int] == qualities[i as int]@);
        if str_eq(qualities[i].as_str(), quality) {
            return true;
        }
        i = i + 1;
    }
    false
}

/// The qualities of the sources, each once, from the highest rank to the
/// lowest. Qualities of one rank stand in the order in which they first
/// occur.
pub fn list_qualities(sources: &Vec<VideoSource>) -> (qualities: Vec<String>)
    ensures
        lists_qualities(quality_views(qualities@), source_views(sources@)),
{
    let ghost all = source_views(sources@);
    let mut qualities: Vec<String> = Vec::new();
    let mut i: usize = 0;
    proof {
        assert(quality_views(qualities@) =~= Seq::<Seq<char>>::empty());
    }
    while i < sources.len()
        invariant
            i <= sources.len(),
            all == source_views(sources@),
            lists_qualities(quality_views(qualities@), all.take(i as int)),
        decreases sources.len() - i,
    {
        let ghost before = quality_views(qualities@);
        let ghost seen = all.take(i as int);
        let ghost now = all.take(i + 1);
        let quality = sources[i].quality.as_str();
        proof {
            assert(all[i as int] == sources[i as int]@);
            assert(now.len() == i + 1);
            assert(now[i as int].quality == quality@);
            assert forall|q: Seq<char>| has_quality(now, q) <==> (has_quality(seen, q) || q
                == quality@) by {
                if has_quality(seen, q) {
                    let k = choose|k: int| 0 <= k < seen.len() && (#[trigger] seen[k]).quality == q;
                    assert(now[k].quality == q);
                }
                if has_quality(now, q) {
                    let k = choose|k: int| 0 <= k < now.len() && (#[trigger] now[k]).quality == q;
                    if k < i {
                        assert(seen[k].quality == q);
                    }
                }
            }
        }
        if !holds_quality(&qualities, quality) {
            let rank = rank_of(quality);
            let mut at: usize = 0;
            while at < qualities.len() && rank_of(qualities[at].as_str()) >= rank
                invariant
                    at <= qualities.len(),
                    before == quality_views(qualities@),
                    forall|k: int| 0 <= k < at ==> quality_rank(#[trigger] before[k]) >= rank,
                decreases qualities.len() - at,
            {
                assert(before[at as int] == qualities[at as int]@);
                at = at + 1;
            }
            proof {
                if at < qualities.len() {
                    assert(before[at as int] == qualities[at as int]@);
                }
            }
            qualities.insert(at, quality.to_owned());
            proof {
                let after = quality_views(qualities@);
                assert(after =~= before.insert(at as int, quality@));
                assert forall|a: int, b: int| 0 <= a < b < after.len() implies after[a]
                    != after[b] && quality_rank(#[trigger] after[a]) >= quality_rank(
                    #[trigger] after[b],
                ) by {
                    let pa = if a < at { a } else { a - 1 };
                    let pb = if b < at { b } else { b - 1 };
                    if a != at && b != at {
                        assert(after[a] == before[pa] && after[b] == before[pb]);
                        assert(pa < pb);
                    } else if a == at {
                        assert(after[b] == before[pb]);
                        assert(before.contains(before[pb]));
                        assert(quality_rank(before[at as int]) < rank);
                        if pb > at {
                            assert(quality_rank(before[at as int]) >= quality_rank(before[pb]));
                        }
                    } else {
                        assert(after[a] == before[pa]);
                        assert(before.contains(before[pa]));
                    }
                }
                assert forall|q: Seq<char>| after.contains(q) <==> (before.contains(q) || q
                    == quality@) by {
                    if before.contains(q) {
                        let k = choose|k: int| 0 <= k < before.len() && before[k] == q;
                        let n = if k < at { k } else { k + 1 };
                        assert(after[n] == q);
                    }
                    if q == quality@ {
                        assert(after[at as int] == q);
                    }
                    if after.contains(q) {
                        let n = choose|n: int| 0 <= n < after.len() && after[n] == q;
                        if n != at {
                            let k = if n < at { n } else { n - 1 };
                            assert(before[k] == q);
                        }
                    }
                }
            }
        }
        i = i + 1;
    }
    assert(all.take(i as int) == all);
    qualities
}

/// What resolving the page `url` gives, from what the browser found on it:
/// the usable sources, each address once, and their qualities from the
/// highest to the lowest, or "auto" alone where there is no source.
pub open spec fn is_info_of(
    info: VideoInfoView,
    url: Seq<char>,
    title: Seq<char>,
    thumbnail: Seq<char>,
    found: Seq<VideoSourceView>,
) -> bool {
    &&& info.url == url
    &&& info.title == title
    &&& info.thumbnail == thumbnail
    &&& info.duration == Seq::<char>::empty()
    &&& info.sources == usable_sources(found)
    &&& if info.sources.len() == 0 {
        info.qualities == seq!["auto"@]
    } else {
        lists_qualities(info.qualities, info.sources)
    }
}

/// Puts together what resolving the page gives, from what the browser
/// found on it.
pub fn collect_info(url: &str, title: String, thumbnail: String, found: &Vec<VideoSource>) -> (info:
    VideoInfo)
    ensures
        is_info_of(info@, url@, title@, thumbnail@, source_views(found@)),
{
    let sources = select_usable(found);
    let mut qualities = list_qualities(&sources);
    if qualities.len() == 0 {
        proof {
            let listed = quality_views(qualities@);
            assert(listed.len() == 0);
            if sources.len() > 0 {
                let q = source_views(sources@)[0].quality;
                assert(has_quality(source_views(sources@), q));
                assert(listed.contains(q));
            }
        }
        qualities.push("auto".to_owned());
        assert(quality_views(qualities@) =~= seq!["auto"@]);
    } else {
        proof {
            let listed = quality_views(qualities@);
            if sources.len() == 0 {
                assert(listed.contains(listed[0]));
                assert(has_quality(source_views(sources@), listed[0]));
            }
        }
    }
    VideoInfo {
        url: url.to_owned(),
        title,
        thumbnail,
        duration: String::new(),
        qualities,
        sources,
    }
}

} // verus!
