//! The catalog's answer for a playlist.

use vstd::prelude::*;

verus! {

/// The catalog's answer for a playlist.
#[derive(Default, Debug, Clone, PartialEq)]
pub struct Playlist {
    pub data: Vec<Daum>,
}

/// One entry of the answer.
#[derive(Default, Debug, Clone, PartialEq)]
pub struct Daum {
    pub id: String,
    pub type_field: String,
    pub href: Option<String>,
    pub attributes: Attributes,
    pub relationships: Relationships,
}

/// What the catalog says of the entry itself.
#[derive(Default, Debug, Clone, PartialEq)]
pub struct Attributes {
    pub artwork: Artwork,
    pub is_chart: bool,
    pub url: String,
    pub last_modified_date: String,
    pub name: String,
    pub playlist_type: String,
    pub curator_name: String,
    pub play_params: PlayParams,
    pub description: Description,
}

/// An artwork: its size, its colours, and its URL with `{w}` and `{h}` for the wanted size.
#[derive(Default, Debug, Clone, PartialEq)]
pub struct Artwork {
    pub width: i64,
    pub height: i64,
    pub url: String,
    pub bg_color: Option<String>,
    pub text_color1: Option<String>,
    pub text_color2: Option<String>,
    pub text_color3: Option<String>,
    pub text_color4: Option<String>,
}

/// What a player needs to play the entry.
#[derive(Default, Debug, Clone, PartialEq)]
pub struct PlayParams {
    pub id: String,
    pub kind: String,
    pub version_hash: String,
}

/// What the curator wrote.
#[derive(Default, Debug, Clone, PartialEq)]
pub struct Description {
    pub standard: Option<String>,
    pub short: Option<String>,
}

/// What the entry is related to.
#[derive(Default, Debug, Clone, PartialEq)]
pub struct Relationships {
    pub tracks: Tracks,
    pub curator: Curator,
}

/// The tracks of the entry, in order.
#[derive(Default, Debug, Clone, PartialEq)]
pub struct Tracks {
    pub href: Option<String>,
    pub data: Vec<Daum2>,
}

/// One track of the playlist.
#[derive(Default, Debug, Clone, PartialEq)]
pub struct Daum2 {
    pub id: String,
    pub type_field: String,
    pub href: Option<String>,
    pub attributes: Attributes2,
}

/// What the catalog says of a track.
#[derive(Default, Debug, Clone, PartialEq)]
pub struct Attributes2 {
    pub previews: Vec<Preview>,
    pub artwork: Artwork2,
    pub artist_name: String,
    pub url: String,
    pub disc_number: u64,
    pub genre_names: Vec<String>,
    pub duration_in_millis: u64,
    pub release_date: String,
    pub is_apple_digital_master: bool,
    pub name: String,
    pub isrc: String,
    pub has_lyrics: bool,
    pub album_name: String,
    pub play_params: PlayParams2,
    pub track_number: u64,
    pub composer_name: Option<String>,
    pub content_rating: Option<String>,
    pub editorial_notes: Option<EditorialNotes>,
}

/// A sample of the entry.
#[derive(Default, Debug, Clone, PartialEq)]
pub struct Preview {
    pub url: String,
}

/// An artwork: its size, its colours, and its URL with `{w}` and `{h}` for the wanted size.
#[derive(Default, Debug, Clone, PartialEq)]
pub struct Artwork2 {
    pub width: i64,
    pub height: i64,
    pub url: String,
    pub bg_color: String,
    pub text_color1: String,
    pub text_color2: String,
    pub text_color3: String,
    pub text_color4: String,
}

/// What a player needs to play a track.
#[derive(Default, Debug, Clone, PartialEq)]
pub struct PlayParams2 {
    pub id: String,
    pub kind: String,
}

/// What the editors wrote.
#[derive(Default, Debug, Clone, PartialEq)]
pub struct EditorialNotes {
    pub short: String,
}

/// The curator of the playlist.
#[derive(Default, Debug, Clone, PartialEq)]
pub struct Curator {
    pub href: Option<String>,
    pub data: Vec<Daum3>,
}

/// A reference to a curator.
#[derive(Default, Debug, Clone, PartialEq)]
pub struct Daum3 {
    pub id: String,
    pub type_field: String,
    pub href: Option<String>,
}

} // verus!
