//! Finds the first link in a chat message and tells which streaming
//! service it belongs to.

use regex::Regex;
use vstd::prelude::*;

verus! {

/// What counts as a link: an optional scheme, then two runs of URL
/// characters with a dot between them.
pub const URL_PATTERN: &'static str = r"(?:(?:https?|ftp)://)?[\w/\-?=%.]+\.[\w/\-&?=%.]+";

/// What marks a link as one of Apple Music.
pub const APPLE_PATTERN: &'static str = r"music.apple.com/(.+[a-z](/?)+)";

/// What marks a link as one of Spotify.
pub const SPOTIFY_PATTERN: &'static str = r"open.spotify.com/(.+[a-z](/?)+)";

/// The streaming service that a link belongs to.
#[derive(Debug, Clone, Copy, PartialEq, Eq, Structural)]
pub enum Provider {
    AppleMusic,
    Spotify,
    Unrecognized,
}

/// A link found in a message, with the service it belongs to.
#[derive(Debug, Clone, PartialEq)]
pub struct DetectedLink {
    pub raw_text_span: String,
    pub provider: Provider,
}

/// The mathematical content of a `DetectedLink`.
pub struct DetectedView {
    pub raw_text_span: Seq<char>,
    pub provider: Provider,
}

impl View for DetectedLink {
    type V = DetectedView;

    open spec fn view(&self) -> DetectedView {
        DetectedView { raw_text_span: self.raw_text_span@, provider: self.provider }
    }
}

impl DeepView for DetectedLink {
    type V = DetectedView;

    open spec fn deep_view(&self) -> DetectedView {
        self@
    }
}

/// The text of the leftmost match of the regular expression `pattern` in
/// `haystack`, as the `regex` crate finds it; `None` where there is no
/// match or where `pattern` is not a regular expression that the crate
/// accepts.
pub uninterp spec fn regex_first_match(pattern: Seq<char>, haystack: Seq<char>) -> Option<
    Seq<char>,
>;

/// Whether the regular expression `pattern` matches anywhere in `haystack`,
/// as the `regex` crate decides it; `false` where `pattern` is not a
/// regular expression that the crate accepts.
pub uninterp spec fn regex_is_match(pattern: Seq<char>, haystack: Seq<char>) -> bool;

/// Compiles `pattern` with `Regex::new` and searches `haystack` with
/// `Regex::find`, handing out the matched text. The result is a function of
/// the two texts alone; nothing more is claimed of it.
#[verifier::external_body]
fn first_match(pattern: &str, haystack: &str) -> (found: Option<String>)
    ensures
        found.deep_view() == regex_first_match(pattern@, haystack@),
{
    match Regex::new(pattern) {
        Ok(regex) => regex.find(haystack).map(|found| found.as_str().to_string()),
        Err(_) => None,
    }
}

/// Compiles `pattern` with `Regex::new` and tests `haystack` with
/// `Regex::is_match`. The result is a function of the two texts alone;
/// nothing more is claimed of it.
#[verifier::external_body]
fn is_match(pattern: &str, haystack: &str) -> (matched: bool)
    ensures
        matched == regex_is_match(pattern@, haystack@),
{
    match Regex::new(pattern) {
        Ok(regex) => regex.is_match(haystack),
        Err(_) => false,
    }
}

impl Provider {
    /// The service of a link, given which services' patterns it matches.
    /// A link that matches both is taken for Spotify's.
    pub open spec fn of_matches(apple: bool, spotify: bool) -> Provider {
        if spotify {
            Provider::Spotify
        } else if apple {
            Provider::AppleMusic
        } else {
            Provider::Unrecognized
        }
    }

    /// The service of a link.
    pub open spec fn of_link(link: Seq<char>) -> Provider {
        Provider::of_matches(
            regex_is_match(APPLE_PATTERN@, link),
            regex_is_match(SPOTIFY_PATTERN@, link),
        )
    }

    /// The service of a link, given which services' patterns it matches.
    pub fn from_matches(apple: bool, spotify: bool) -> (provider: Provider)
        ensures
            provider == Provider::of_matches(apple, spotify),
    {
        if spotify {
            Provider::Spotify
        } else if apple {
            Provider::AppleMusic
        } else {
            Provider::Unrecognized
        }
    }

    /// The service of a link.
    pub fn recognize(link: &str) -> (provider: Provider)
        ensures
            provider == Provider::of_link(link@),
    {
        let apple = is_match(APPLE_PATTERN, link);
        let spotify = is_match(SPOTIFY_PATTERN, link);
        Provider::from_matches(apple, spotify)
    }
}

/// What a found link, if any, and its service amount to: a detected link
/// where the service is a supported one.
pub open spec fn supported(found: Option<Seq<char>>, provider: Provider) -> Option<DetectedView> {
    match found {
        Some(link) if provider != Provider::Unrecognized => Some(
            DetectedView { raw_text_span: link, provider },
        ),
        _ => None,
    }
}

/// The link that a message is about: its first link, provided that it
/// belongs to a supported service.
pub open spec fn detected(text: Seq<char>) -> Option<DetectedView> {
    match regex_first_match(URL_PATTERN@, text) {
        Some(link) => supported(Some(link), Provider::of_link(link)),
        None => None,
    }
}

impl DetectedLink {
    /// Keeps a found link if its service is a supported one.
    pub fn from_match(found: Option<String>, provider: Provider) -> (link: Option<DetectedLink>)
        ensures
            link.deep_view() == supported(found.deep_view(), provider),
    {
        match found {
            Some(raw_text_span) => match provider {
                Provider::Unrecognized => None,
                _ => Some(DetectedLink { raw_text_span, provider }),
            },
            None => None,
        }
    }
}

/// The first link of a message, whatever service it belongs to.
pub fn find_link(text: &str) -> (link: Option<String>)
    ensures
        link.deep_view() == regex_first_match(URL_PATTERN@, text@),
{
    first_match(URL_PATTERN, text)
}

/// Whether a text holds a link, whatever service it belongs to.
pub fn is_link(text: &str) -> (found: bool)
    ensures
        found == regex_is_match(URL_PATTERN@, text@),
{
    is_match(URL_PATTERN, text)
}

/// Finds the link that a message is about.
///
/// Only the first link of the message is looked at. A message without a
/// link, or whose first link belongs to no supported service, is about
/// none.
pub fn detect(text: &str) -> (link: Option<DetectedLink>)
    ensures
        link.deep_view() == detected(text@),
{
    match find_link(text) {
        Some(found) => {
            let provider = Provider::recognize(found.as_str());
            DetectedLink::from_match(Some(found), provider)
        },
        None => None,
    }
}

} // verus!
