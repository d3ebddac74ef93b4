//! Addresses: what the library reads from a parsed URL, and how a reference
//! is resolved against a base.

use vstd::prelude::*;
use crate::error::{DownloaderError, DownloaderErrorView};
use crate::text::{opt_text, starts_with_text, str_starts_with};

verus! {

/// What the library reads from a parsed URL.
#[derive(Debug)]
pub struct UrlParts {
    /// The scheme, lower-cased, without the colon.
    pub scheme: String,
    /// The host as it stands in the serialized URL, if the URL has one.
    pub host: Option<String>,
}

/// The parts of a URL as character sequences.
pub struct UrlPartsView {
    pub scheme: Seq<char>,
    pub host: Option<Seq<char>>,
}

impl View for UrlParts {
    type V = UrlPartsView;

    open spec fn view(&self) -> UrlPartsView {
        UrlPartsView { scheme: self.scheme@, host: opt_text(self.host) }
    }
}

/// What `Url::parse` makes of a text: the scheme and the host of the URL, or
/// the message of the parse error.
pub uninterp spec fn parsed_url(text: Seq<char>) -> Result<UrlPartsView, Seq<char>>;

/// What `Url::join` makes of a reference, taken against the URL that
/// `Url::parse` makes of `base`: the serialized URL, or the message of the
/// parse error of either step.
pub uninterp spec fn joined_url(base: Seq<char>, reference: Seq<char>) -> Result<
    Seq<char>,
    Seq<char>,
>;

/// The outcome of parsing, with its texts as character sequences.
pub open spec fn parts_outcome(r: Result<UrlParts, String>) -> Result<UrlPartsView, Seq<char>> {
    match r {
        Ok(p) => Ok(p@),
        Err(e) => Err(e@),
    }
}

/// An outcome that is a text either way, as character sequences.
pub open spec fn text_outcome(r: Result<String, String>) -> Result<Seq<char>, Seq<char>> {
    match r {
        Ok(t) => Ok(t@),
        Err(e) => Err(e@),
    }
}

/// Calls `url::Url::parse` and reads `scheme()` and `host_str()` from the
/// URL; an error is given by its `Display` text. The result depends on the
/// text alone, and is what `parsed_url` names.
#[verifier::external_body]
pub(crate) fn parse_url(text: &str) -> (parts: Result<UrlParts, String>)
    ensures
        parts_outcome(parts) == parsed_url(text@),
{
    match url::Url::parse(text) {
        Ok(u) => Ok(
            UrlParts { scheme: u.scheme().to_string(), host: u.host_str().map(|h| h.to_string()) },
        ),
        Err(e) => Err(e.to_string()),
    }
}

/// Calls `url::Url::parse` on `base` and `Url::join` with `reference` on the
/// URL; the joined URL is given by its serialization and an error by its
/// `Display` text. The result depends on the two texts alone, and is what
/// `joined_url` names.
#[verifier::external_body]
pub(crate) fn join_url(base: &str, reference: &str) -> (joined: Result<String, String>)
    ensures
        text_outcome(joined) == joined_url(base@, reference@),
{
    match url::Url::parse(base) {
        Ok(b) => match b.join(reference) {
            Ok(u) => Ok(u.to_string()),
            Err(e) => Err(e.to_string()),
        },
        Err(e) => Err(e.to_string()),
    }
}

/// The address that a URI of a playlist stands for: the URI itself where it
/// begins with "http", else the URI joined to the playlist's own address; a
/// URI that cannot be joined is a parse error.
pub open spec fn resolved(uri: Seq<char>, base: Seq<char>) -> Result<Seq<char>, DownloaderErrorView> {
    if starts_with_text(uri, "http"@) {
        Ok(uri)
    } else {
        match joined_url(base, uri) {
            Ok(u) => Ok(u),
            Err(e) => Err(DownloaderErrorView::Parse(e)),
        }
    }
}

/// An address or a failure, as character sequences.
pub open spec fn address_outcome(r: Result<String, DownloaderError>) -> Result<
    Seq<char>,
    DownloaderErrorView,
> {
    match r {
        Ok(t) => Ok(t@),
        Err(e) => Err(e@),
    }
}

/// The address that a URI of a playlist stands for.
pub fn resolve(uri: &str, base: &str) -> (address: Result<String, DownloaderError>)
    ensures
        address_outcome(address) == resolved(uri@, base@),
{
    if str_starts_with(uri, "http") {
        Ok(uri.to_owned())
    } else {
        match join_url(base, uri) {
            Ok(u) => Ok(u),
            Err(e) => Err(DownloaderError::Parse(e)),
        }
    }
}

} // verus!
