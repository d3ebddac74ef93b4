//! HLS playlists: what the library reads from a parsed manifest, and the
//! choice of the variant to download.

use vstd::prelude::*;
use crate::address::{address_outcome, resolve, resolved};
use crate::error::{DownloaderError, DownloaderErrorView};

verus! {

/// One rendition that a master playlist offers.
#[derive(Debug)]
pub struct VariantStream {
    pub uri: String,
    pub bandwidth: u64,
}

/// A rendition with its URI as a character sequence.
pub struct VariantView {
    pub uri: Seq<char>,
    pub bandwidth: u64,
}

impl View for VariantStream {
    type V = VariantView;

    open spec fn view(&self) -> VariantView {
        VariantView { uri: self.uri@, bandwidth: self.bandwidth }
    }
}

/// What the library reads from a parsed manifest.
#[derive(Debug)]
pub enum Playlist {
    /// A master playlist: its variants, in the order listed.
    MasterPlaylist(Vec<VariantStream>),
    /// A media playlist: the URIs of its segments, in the order listed.
    MediaPlaylist(Vec<String>),
}

/// A parsed manifest as a mathematical value.
pub enum PlaylistView {
    Master(Seq<VariantView>),
    Media(Seq<Seq<char>>),
}

/// The variants of a list, each as its view.
pub open spec fn variant_views(variants: Seq<VariantStream>) -> Seq<VariantView> {
    variants.map_values(|v: VariantStream| v@)
}

/// The texts of a list, each as its characters.
pub open spec fn text_views(texts: Seq<String>) -> Seq<Seq<char>> {
    texts.map_values(|t: String| t@)
}

impl View for Playlist {
    type V = PlaylistView;

    open spec fn view(&self) -> PlaylistView {
        match self {
            Playlist::MasterPlaylist(v) => PlaylistView::Master(variant_views(v@)),
            Playlist::MediaPlaylist(s) => PlaylistView::Media(text_views(s@)),
        }
    }
}

/// What `m3u8_rs::parse_playlist_res` makes of a manifest body: the variants
/// with URI and bandwidth of a master playlist or the segment URIs of a
/// media playlist, or the `Debug` text of the parse error.
pub uninterp spec fn parsed_playlist(body: Seq<u8>) -> Result<PlaylistView, Seq<char>>;

/// What `m3u8_rs::parse_media_playlist_res` makes of a manifest body: the
/// segment URIs, or the `Debug` text of the parse error.
pub uninterp spec fn parsed_media_playlist(body: Seq<u8>) -> Result<Seq<Seq<char>>, Seq<char>>;

/// The outcome of parsing a manifest, as a mathematical value.
pub open spec fn playlist_outcome(r: Result<Playlist, String>) -> Result<PlaylistView, Seq<char>> {
    match r {
        Ok(p) => Ok(p@),
        Err(e) => Err(e@),
    }
}

/// The outcome of parsing a media playlist, as a mathematical value.
pub open spec fn segments_outcome(r: Result<Vec<String>, String>) -> Result<
    Seq<Seq<char>>,
    Seq<char>,
> {
    match r {
        Ok(s) => Ok(text_views(s@)),
        Err(e) => Err(e@),
    }
}

/// Calls `m3u8_rs::parse_playlist_res` and keeps, of a master playlist, the
/// URI and the bandwidth of each variant, and of a media playlist the URI of
/// each segment, in the order parsed; an error is given by its `Debug` text.
/// The result depends on the bytes alone, and is what `parsed_playlist`
/// names.
#[verifier::external_body]
pub(crate) fn parse_playlist(body: &[u8]) -> (parsed: Result<Playlist, String>)
    ensures
        playlist_outcome(parsed) == parsed_playlist(body@),
{
    match m3u8_rs::parse_playlist_res(body) {
        Ok(m3u8_rs::Playlist::MasterPlaylist(m)) => Ok(
            Playlist::MasterPlaylist(
                m.variants.into_iter().map(
                    |v| VariantStream { uri: v.uri, bandwidth: v.bandwidth },
                ).collect(),
            ),
        ),
        Ok(m3u8_rs::Playlist::MediaPlaylist(m)) => Ok(
            Playlist::MediaPlaylist(m.segments.into_iter().map(|s| s.uri).collect()),
        ),
        Err(e) => Err(format!("{:?}", e)),
    }
}

/// Calls `m3u8_rs::parse_media_playlist_res` and keeps the URI of each
/// segment, in the order parsed; an error is given by its `Debug` text. The
/// result depends on the bytes alone, and is what `parsed_media_playlist`
/// names.
#[verifier::external_body]
pub(crate) fn parse_media_playlist(body: &[u8]) -> (parsed: Result<Vec<String>, String>)
    ensures
        segments_outcome(parsed) == parsed_media_playlist(body@),
{
    match m3u8_rs::parse_media_playlist_res(body) {
        Ok(m) => Ok(m.segments.into_iter().map(|s| s.uri).collect()),
        Err(e) => Err(format!("{:?}", e)),
    }
}

/// `at` is the variant to download: none has a larger bandwidth, and every
/// variant listed before it has a smaller one.
pub open spec fn is_best(variants: Seq<VariantView>, at: int) -> bool {
    &&& 0 <= at < variants.len()
    &&& forall|j: int| 0 <= j < variants.len() ==> variants[j].bandwidth <= variants[at].bandwidth
    &&& forall|j: int| 0 <= j < at ==> variants[j].bandwidth < variants[at].bandwidth
}

/// The variant to download: the first of those with the largest bandwidth.
pub open spec fn best_variant(variants: Seq<VariantView>) -> int {
    choose|at: int| is_best(variants, at)
}

/// A list of variants has at most one best variant.
pub proof fn best_is_unique(variants: Seq<VariantView>, a: int, b: int)
    requires
        is_best(variants, a),
        is_best(variants, b),
    ensures
        a == b,
        best_variant(variants) == a,
{
    let c = best_variant(variants);
    if c < a {
        assert(variants[c].bandwidth < variants[a].bandwidth);
    } else if a < c {
        assert(variants[a].bandwidth < variants[c].bandwidth);
    }
    if b < a {
        assert(variants[b].bandwidth < variants[a].bandwidth);
    } else if a < b {
        assert(variants[a].bandwidth < variants[b].bandwidth);
    }
}

/// The position of the variant to download, if the list has a variant.
pub fn select_variant(variants: &Vec<VariantStream>) -> (best: Option<usize>)
    ensures
        best is None == (variants.len() == 0),
        best matches Some(at) ==> is_best(variant_views(variants@), at as int)
            && at == best_variant(variant_views(variants@)),
{
    if variants.len() == 0 {
        return None;
    }
    let ghost views = variant_views(variants@);
    let mut at: usize = 0;
    let mut pos: usize = 1;
    while pos < variants.len()
        invariant
            1 <= pos <= variants.len(),
            at < pos,
            views == variant_views(variants@),
            forall|j: int| 0 <= j < pos ==> views[j].bandwidth <= views[at as int].bandwidth,
            forall|j: int| 0 <= j < at ==> views[j].bandwidth < views[at as int].bandwidth,
        decreases variants.len() - pos,
    {
        assert(views[pos as int] == variants[pos as int]@);
        assert(views[at as int] == variants[at as int]@);
        if variants[pos].bandwidth > variants[at].bandwidth {
            at = pos;
        }
        pos = pos + 1;
    }
    proof {
        best_is_unique(views, at as int, at as int);
    }
    Some(at)
}

/// The address of the stream to download from a master playlist: the best
/// variant's URI, resolved against the playlist's own address; without a
/// variant there is no source.
pub open spec fn best_stream(variants: Seq<VariantView>, base_url: Seq<char>) -> Result<
    Seq<char>,
    DownloaderErrorView,
> {
    if variants.len() == 0 {
        Err(DownloaderErrorView::NoSources)
    } else {
        resolved(variants[best_variant(variants)].uri, base_url)
    }
}

/// The address of the stream to download from a master playlist.
pub fn get_best_stream(variants: &Vec<VariantStream>, base_url: &str) -> (stream: Result<
    String,
    DownloaderError,
>)
    ensures
        address_outcome(stream) == best_stream(variant_views(variants@), base_url@),
{
    match select_variant(variants) {
        Some(at) => {
            assert(variant_views(variants@)[at as int] == variants[at as int]@);
            resolve(variants[at].uri.as_str(), base_url)
        },
        None => Err(DownloaderError::NoSources),
    }
}

} // verus!
