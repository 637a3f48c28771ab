//! From a detected link to the canonical one: the Apple Music link itself,
//! or the Apple Music equivalent that the link service knows for a link of
//! another service.

use crate::detect::{DetectedLink, DetectedView, Provider};
use crate::models::songlink::SongLink;
use crate::text::{owned, split, split_on, strip_prefix, without_prefix};
use vstd::prelude::*;
use vstd::string::*;

verus! {

/// Why a link has no canonical form.
#[derive(Debug, Clone, Copy, PartialEq, Eq, Structural)]
pub enum NormalizeError {
    /// The link service could not be asked, or its answer could not be read.
    UpstreamUnavailable,
    /// The link service knows no Apple Music equivalent.
    NoEquivalentLink,
    /// The canonical URL names no storefront.
    MissingStorefront,
}

/// An Apple Music URL and the storefront that it names.
#[derive(Debug, Clone, PartialEq)]
pub struct CanonicalLink {
    pub url: String,
    pub storefront: String,
}

/// The mathematical content of a `CanonicalLink`.
pub struct CanonicalView {
    pub url: Seq<char>,
    pub storefront: Seq<char>,
}

impl View for CanonicalLink {
    type V = CanonicalView;

    open spec fn view(&self) -> CanonicalView {
        CanonicalView { url: self.url@, storefront: self.storefront@ }
    }
}

impl DeepView for CanonicalLink {
    type V = CanonicalView;

    open spec fn deep_view(&self) -> CanonicalView {
        self@
    }
}

/// What came of asking the link service about a link.
#[derive(Debug, Clone, PartialEq)]
pub enum LinkReply {
    /// The request could not be sent, or the answer could not be read.
    Unavailable,
    /// The service answered, with or without an Apple Music URL.
    Links { apple_music: Option<String> },
}

/// The mathematical content of a `LinkReply`.
pub enum LinkReplyView {
    Unavailable,
    Links { apple_music: Option<Seq<char>> },
}

impl View for LinkReply {
    type V = LinkReplyView;

    open spec fn view(&self) -> LinkReplyView {
        match self {
            LinkReply::Unavailable => LinkReplyView::Unavailable,
            LinkReply::Links { apple_music } => LinkReplyView::Links {
                apple_music: apple_music.deep_view(),
            },
        }
    }
}

/// What normalizing a detected link comes to before anything is asked.
#[derive(Debug, PartialEq)]
pub enum Normalization {
    /// The link needs no asking: this is its canonical form, or the reason
    /// why it has none.
    Settled { link: Result<CanonicalLink, NormalizeError> },
    /// The link service has to be asked, with a GET of this URL.
    Ask { request: String },
}

/// The mathematical content of a `Normalization`.
pub enum NormalizationView {
    Settled { link: Result<CanonicalView, NormalizeError> },
    Ask { request: Seq<char> },
}

/// The mathematical content of a canonical link or the reason for its absence.
pub open spec fn link_view(link: Result<CanonicalLink, NormalizeError>) -> Result<
    CanonicalView,
    NormalizeError,
> {
    match link {
        Ok(link) => Ok(link@),
        Err(error) => Err(error),
    }
}

impl View for Normalization {
    type V = NormalizationView;

    open spec fn view(&self) -> NormalizationView {
        match self {
            Normalization::Settled { link } => NormalizationView::Settled {
                link: link_view(*link),
            },
            Normalization::Ask { request } => NormalizationView::Ask { request: request@ },
        }
    }
}

/// A URL without its scheme: without the `https://`, `http://` or
/// `ftp://` that it starts with. A URL that starts with none of them is
/// left as it is.
pub open spec fn schemeless(url: Seq<char>) -> Seq<char> {
    match without_prefix(url, "https://"@) {
        Some(rest) => rest,
        None => match without_prefix(url, "http://"@) {
            Some(rest) => rest,
            None => match without_prefix(url, "ftp://"@) {
                Some(rest) => rest,
                None => url,
            },
        },
    }
}

/// The storefront that a URL names: the second of the pieces that its
/// slashes delimit once the scheme is taken off; `None` for a URL of a
/// single piece.
pub open spec fn storefront_of(url: Seq<char>) -> Option<Seq<char>> {
    let pieces = split_on(schemeless(url), '/');
    if pieces.len() > 1 {
        Some(pieces[1])
    } else {
        None
    }
}

/// The canonical link with this URL, which has to name a storefront.
pub open spec fn canonical(url: Seq<char>) -> Result<CanonicalView, NormalizeError> {
    match storefront_of(url) {
        Some(storefront) => Ok(CanonicalView { url, storefront }),
        None => Err(NormalizeError::MissingStorefront),
    }
}

/// The URL to GET to ask the link service about `link`.
pub open spec fn request_for(link: Seq<char>) -> Seq<char> {
    "https://api.song.link/v1-alpha.1/links?url="@ + link
}

/// The canonical link that an answer of the link service gives.
pub open spec fn resolved(reply: LinkReplyView) -> Result<CanonicalView, NormalizeError> {
    match reply {
        LinkReplyView::Unavailable => Err(NormalizeError::UpstreamUnavailable),
        LinkReplyView::Links { apple_music: None } => Err(NormalizeError::NoEquivalentLink),
        LinkReplyView::Links { apple_music: Some(url) } => canonical(url),
    }
}

/// What normalizing a detected link comes to before anything is asked:
/// only a Spotify link needs asking, any other is taken as it stands.
pub open spec fn normalization(link: DetectedView) -> NormalizationView {
    if link.provider == Provider::Spotify {
        NormalizationView::Ask { request: request_for(link.raw_text_span) }
    } else {
        NormalizationView::Settled { link: canonical(link.raw_text_span) }
    }
}

/// A URL without its scheme.
pub fn strip_scheme(url: &str) -> (rest: String)
    ensures
        rest@ == schemeless(url@),
{
    match strip_prefix(url, "https://") {
        Some(rest) => rest,
        None => match strip_prefix(url, "http://") {
            Some(rest) => rest,
            None => match strip_prefix(url, "ftp://") {
                Some(rest) => rest,
                None => owned(url),
            },
        },
    }
}

/// The storefront that a URL names.
pub fn storefront(url: &str) -> (name: Option<String>)
    ensures
        name.deep_view() == storefront_of(url@),
{
    let rest = strip_scheme(url);
    let pieces = split(rest.as_str(), '/');
    if pieces.len() > 1 {
        Some(pieces[1].clone())
    } else {
        None
    }
}

impl CanonicalLink {
    /// The canonical link with this URL, or `MissingStorefront` where the
    /// URL names none.
    pub fn new(url: String) -> (link: Result<CanonicalLink, NormalizeError>)
        ensures
            link_view(link) == canonical(url@),
    {
        match storefront(url.as_str()) {
            Some(storefront) => Ok(CanonicalLink { url, storefront }),
            None => Err(NormalizeError::MissingStorefront),
        }
    }
}

impl LinkReply {
    /// The answer that a fully read answer of the link service amounts to.
    pub fn from_song_link(answer: &SongLink) -> (reply: LinkReply)
        ensures
            reply@ == (LinkReplyView::Links {
                apple_music: Some(answer.links_by_platform.apple_music.url@),
            }),
    {
        LinkReply::Links { apple_music: Some(answer.links_by_platform.apple_music.url.clone()) }
    }
}

/// The URL to GET to ask the link service about `link`.
pub fn request(link: &str) -> (url: String)
    ensures
        url@ == request_for(link@),
{
    let mut url = owned("https://api.song.link/v1-alpha.1/links?url=");
    url.append(link);
    url
}

/// Normalizes a detected link as far as that goes without asking anyone.
///
/// An Apple Music link is its own canonical form. A Spotify link has to be
/// looked up: the result then names the request to make, and `resolve`
/// takes the answer.
pub fn normalize(link: &DetectedLink) -> (outcome: Normalization)
    ensures
        outcome@ == normalization(link@),
{
    match link.provider {
        Provider::Spotify => Normalization::Ask { request: request(link.raw_text_span.as_str()) },
        _ => Normalization::Settled { link: CanonicalLink::new(link.raw_text_span.clone()) },
    }
}

/// The canonical link that an answer of the link service gives.
pub fn resolve(reply: &LinkReply) -> (link: Result<CanonicalLink, NormalizeError>)
    ensures
        link_view(link) == resolved(reply@),
{
    match reply {
        LinkReply::Unavailable => Err(NormalizeError::UpstreamUnavailable),
        LinkReply::Links { apple_music: None } => Err(NormalizeError::NoEquivalentLink),
        LinkReply::Links { apple_music: Some(url) } => CanonicalLink::new(url.clone()),
    }
}

} // verus!
