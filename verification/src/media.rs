//! Which kind of media a canonical link points at, under which identifier,
//! and where the catalog keeps it.

use crate::text::{owned, same_text};
use reqwest::Url;
use vstd::prelude::*;
use vstd::string::*;

verus! {

/// The kinds of media that the catalog knows.
#[derive(Debug, Clone, Copy, PartialEq, Eq, Structural)]
pub enum MediaType {
    Song,
    Album,
    Playlist,
    MusicVideo,
    Station,
    Artist,
}

impl Default for MediaType {
    fn default() -> (media: MediaType)
        ensures
            media == MediaType::Song,
    {
        MediaType::Song
    }
}

/// A kind of media and the identifier of one item of that kind.
#[derive(Debug, Clone, PartialEq)]
pub struct MediaReference {
    pub kind: MediaType,
    pub id: String,
}

/// The mathematical content of a `MediaReference`.
pub struct ReferenceView {
    pub kind: MediaType,
    pub id: Seq<char>,
}

impl View for MediaReference {
    type V = ReferenceView;

    open spec fn view(&self) -> ReferenceView {
        ReferenceView { kind: self.kind, id: self.id@ }
    }
}

impl DeepView for MediaReference {
    type V = ReferenceView;

    open spec fn deep_view(&self) -> ReferenceView {
        self@
    }
}

impl MediaType {
    /// The path segment by which a link names this kind.
    pub open spec fn token(self) -> Seq<char> {
        match self {
            MediaType::Song => "song"@,
            MediaType::Album => "album"@,
            MediaType::Artist => "artist"@,
            MediaType::MusicVideo => "music-video"@,
            MediaType::Playlist => "playlist"@,
            MediaType::Station => "station"@,
        }
    }

    /// The kind that a path segment names, if it names one.
    pub open spec fn of_token(token: Seq<char>) -> Option<MediaType> {
        if token == "song"@ {
            Some(MediaType::Song)
        } else if token == "album"@ {
            Some(MediaType::Album)
        } else if token == "artist"@ {
            Some(MediaType::Artist)
        } else if token == "music-video"@ {
            Some(MediaType::MusicVideo)
        } else if token == "playlist"@ {
            Some(MediaType::Playlist)
        } else if token == "station"@ {
            Some(MediaType::Station)
        } else {
            None
        }
    }

    /// The path segment under which the catalog keeps this kind.
    pub open spec fn collection(self) -> Seq<char> {
        match self {
            MediaType::Song => "songs"@,
            MediaType::Album => "albums"@,
            MediaType::Playlist => "playlists"@,
            MediaType::MusicVideo => "music-video"@,
            MediaType::Station => "stations"@,
            MediaType::Artist => "artists"@,
        }
    }

    /// The kind that a path segment names, if it names one.
    pub fn from_token(token: &str) -> (media: Option<MediaType>)
        ensures
            media == MediaType::of_token(token@),
    {
        if same_text(token, "song") {
            Some(MediaType::Song)
        } else if same_text(token, "album") {
            Some(MediaType::Album)
        } else if same_text(token, "artist") {
            Some(MediaType::Artist)
        } else if same_text(token, "music-video") {
            Some(MediaType::MusicVideo)
        } else if same_text(token, "playlist") {
            Some(MediaType::Playlist)
        } else if same_text(token, "station") {
            Some(MediaType::Station)
        } else {
            None
        }
    }

    /// The kind of media that a link with these path segments and this
    /// query points at.
    ///
    /// A query parameter `i` makes it a song whatever the path says.
    /// Without one the second path segment decides, and a link without a
    /// second segment, or with one that names no kind, points at nothing
    /// that the catalog knows.
    pub fn determine(segments: &Option<Vec<String>>, query: &Vec<(String, String)>) -> (media:
        Option<MediaType>)
        ensures
            media == determined(segments.deep_view(), query.deep_view()),
    {
        if lookup(query, "i").is_some() {
            return Some(MediaType::Song);
        }
        match segments {
            Some(segments) => {
                if segments.len() > 1 {
                    MediaType::from_token(segments[1].as_str())
                } else {
                    None
                }
            },
            None => None,
        }
    }
}

/// The value that a query gives to `key`: that of the last pair with this
/// key, later pairs overriding earlier ones.
pub open spec fn query_value(pairs: Seq<(Seq<char>, Seq<char>)>, key: Seq<char>) -> Option<
    Seq<char>,
>
    decreases pairs.len(),
{
    if pairs.len() == 0 {
        None
    } else if pairs.last().0 == key {
        Some(pairs.last().1)
    } else {
        query_value(pairs.drop_last(), key)
    }
}

/// The kind of media that path segments and a query determine.
pub open spec fn determined(
    segments: Option<Seq<Seq<char>>>,
    query: Seq<(Seq<char>, Seq<char>)>,
) -> Option<MediaType> {
    if query_value(query, "i"@) is Some {
        Some(MediaType::Song)
    } else {
        match segments {
            Some(segments) => if segments.len() > 1 {
                MediaType::of_token(segments[1])
            } else {
                None
            },
            None => None,
        }
    }
}

/// The media that path segments and a query refer to: the kind they
/// determine, under the value of the query parameter `i` where there is
/// one, else under the last path segment.
pub open spec fn referred(
    segments: Option<Seq<Seq<char>>>,
    query: Seq<(Seq<char>, Seq<char>)>,
) -> Option<ReferenceView> {
    match determined(segments, query) {
        None => None,
        Some(kind) => match query_value(query, "i"@) {
            Some(id) => Some(ReferenceView { kind, id }),
            None => Some(ReferenceView { kind, id: segments->0.last() }),
        },
    }
}

/// Where the catalog keeps an item, relative to the catalog's root.
pub open spec fn endpoint_of(kind: MediaType, storefront: Seq<char>, id: Seq<char>) -> Seq<char> {
    "v1/catalog/"@ + storefront + "/"@ + kind.collection() + "/"@ + id
}

/// What `Url::parse` and then `Url::path_segments` give for a link: `None`
/// for a text that is no absolute URL or for a URL that cannot be a base,
/// else the percent-encoded pieces of the path between its slashes.
pub uninterp spec fn url_path_segments(link: Seq<char>) -> Option<Seq<Seq<char>>>;

/// What `Url::parse` and then `Url::query_pairs` give for a link: `None`
/// for a text that is no absolute URL, else the decoded name and value of
/// each parameter of the query, in order.
pub uninterp spec fn url_query_pairs(link: Seq<char>) -> Option<Seq<(Seq<char>, Seq<char>)>>;

/// Parses `link` with `Url::parse` and collects what `Url::path_segments`
/// yields. The result is a function of the text alone; nothing more is
/// claimed of it.
#[verifier::external_body]
fn path_segments(link: &str) -> (segments: Option<Vec<String>>)
    ensures
        segments.deep_view() == url_path_segments(link@),
{
    match Url::parse(link) {
        Ok(url) => url.path_segments().map(|pieces| pieces.map(String::from).collect()),
        Err(_) => None,
    }
}

/// Parses `link` with `Url::parse` and collects what `Url::query_pairs`
/// yields. The result is a function of the text alone; nothing more is
/// claimed of it.
#[verifier::external_body]
fn query_pairs(link: &str) -> (pairs: Option<Vec<(String, String)>>)
    ensures
        pairs.deep_view() == url_query_pairs(link@),
{
    match Url::parse(link) {
        Ok(url) => Some(
            url.query_pairs()
                .map(|(name, value)| (name.into_owned(), value.into_owned()))
                .collect(),
        ),
        Err(_) => None,
    }
}

/// The value that a query gives to `key`.
pub fn lookup<'a>(query: &'a Vec<(String, String)>, key: &str) -> (value: Option<&'a String>)
    ensures
        value.deep_view() == query_value(query.deep_view(), key@),
{
    let mut value: Option<&String> = None;
    let mut i: usize = 0;
    assert(query.deep_view().take(0) =~= Seq::empty());
    while i < query.len()
        invariant
            i <= query.len(),
            value.deep_view() == query_value(query.deep_view().take(i as int), key@),
        decreases query.len() - i,
    {
        proof {
            let next = query.deep_view().take(i + 1);
            assert(next.drop_last() =~= query.deep_view().take(i as int));
            assert(next.last() == (query@[i as int].0@, query@[i as int].1@));
        }
        if same_text(query[i].0.as_str(), key) {
            value = Some(&query[i].1);
        }
        i += 1;
    }
    assert(query.deep_view().take(query.len() as int) =~= query.deep_view());
    value
}

/// The media that path segments and a query refer to.
pub fn reference(segments: &Option<Vec<String>>, query: &Vec<(String, String)>) -> (media: Option<
    MediaReference,
>)
    ensures
        media.deep_view() == referred(segments.deep_view(), query.deep_view()),
{
    let kind = match MediaType::determine(segments, query) {
        Some(kind) => kind,
        None => {
            return None;
        },
    };
    match lookup(query, "i") {
        Some(id) => Some(MediaReference { kind, id: id.clone() }),
        None => match segments {
            Some(segments) => {
                let last = &segments[segments.len() - 1];
                Some(MediaReference { kind, id: last.clone() })
            },
            None => None,
        },
    }
}

/// The media that a canonical URL refers to, `None` where it refers to
/// nothing that the catalog knows or is no absolute URL at all.
pub open spec fn classified(url: Seq<char>) -> Option<ReferenceView> {
    match url_query_pairs(url) {
        Some(query) => referred(url_path_segments(url), query),
        None => None,
    }
}

/// Classifies a canonical URL.
pub fn classify(url: &str) -> (media: Option<MediaReference>)
    ensures
        media.deep_view() == classified(url@),
{
    match query_pairs(url) {
        Some(query) => {
            let segments = path_segments(url);
            reference(&segments, &query)
        },
        None => None,
    }
}

/// Where the catalog keeps an item, relative to the catalog's root.
pub fn endpoint(kind: MediaType, storefront: &str, id: &str) -> (path: String)
    ensures
        path@ == endpoint_of(kind, storefront@, id@),
{
    let mut path = owned("v1/catalog/");
    path.append(storefront);
    path.append("/");
    path.append(
        match kind {
            MediaType::Song => "songs",
            MediaType::Album => "albums",
            MediaType::Playlist => "playlists",
            MediaType::MusicVideo => "music-video",
            MediaType::Station => "stations",
            MediaType::Artist => "artists",
        },
    );
    path.append("/");
    path.append(id);
    path
}

/// Each kind is named by its own token: classifying the token of a kind
/// gives that kind back.
pub proof fn lemma_token_names_its_kind(media: MediaType)
    ensures
        MediaType::of_token(media.token()) == Some(media),
{
    reveal_strlit("song");
    reveal_strlit("album");
    reveal_strlit("artist");
    reveal_strlit("music-video");
    reveal_strlit("playlist");
    reveal_strlit("station");
    assert("song"@.len() == 4);
    assert("album"@.len() == 5);
    assert("artist"@.len() == 6);
    assert("station"@.len() == 7);
    assert("playlist"@.len() == 8);
    assert("music-video"@.len() == 11);
}

/// A text names a kind exactly if it is that kind's token, so any text
/// that is none of the six tokens names no kind.
pub proof fn lemma_kind_is_named_by_token(token: Seq<char>, media: MediaType)
    ensures
        MediaType::of_token(token) == Some(media) <==> token == media.token(),
        MediaType::of_token(token) is None <==> forall|other: MediaType| token != other.token(),
{
    lemma_token_names_its_kind(media);
    if MediaType::of_token(token) is Some {
        let named = MediaType::of_token(token)->0;
        assert(token == named.token());
    } else {
        assert forall|other: MediaType| token != other.token() by {
            lemma_token_names_its_kind(other);
        }
    }
}

/// Classifying is idempotent: the token of the kind that a text names
/// names the same kind.
pub proof fn lemma_classifying_twice(token: Seq<char>)
    requires
        MediaType::of_token(token) is Some,
    ensures
        MediaType::of_token(MediaType::of_token(token)->0.token()) == MediaType::of_token(token),
{
    lemma_token_names_its_kind(MediaType::of_token(token)->0);
}

/// A query parameter `i` makes a link refer to the song of that
/// identifier, whatever its path segments are.
pub proof fn lemma_song_parameter_overrides(
    segments: Option<Seq<Seq<char>>>,
    query: Seq<(Seq<char>, Seq<char>)>,
)
    requires
        query_value(query, "i"@) is Some,
    ensures
        determined(segments, query) == Some(MediaType::Song),
        referred(segments, query) == Some(
            ReferenceView { kind: MediaType::Song, id: query_value(query, "i"@)->0 },
        ),
{
}

} // verus!
