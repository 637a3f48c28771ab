//! The catalog's answer for an album.

use vstd::prelude::*;

verus! {

/// The catalog's answer for an album.
#[derive(Default, Debug, Clone, PartialEq)]
pub struct Album {
    pub data: Vec<Daum>,
}

/// One entry of the answer.
#[derive(Default, Debug, Clone, PartialEq)]
pub struct Daum {
    pub id: String,
    pub type_field: String,
    pub href: String,
    pub attributes: Attributes,
    pub relationships: Relationships,
}

/// What the catalog says of the entry itself.
#[derive(Default, Debug, Clone, PartialEq)]
pub struct Attributes {
    pub copyright: String,
    pub genre_names: Vec<String>,
    pub release_date: String,
    pub upc: String,
    pub is_mastered_for_itunes: bool,
    pub artwork: Artwork,
    pub play_params: PlayParams,
    pub url: String,
    pub record_label: String,
    pub is_compilation: bool,
    pub track_count: i64,
    pub is_single: bool,
    pub name: String,
    pub content_rating: String,
    pub artist_name: String,
    pub editorial_notes: Option<EditorialNotes>,
    pub is_complete: bool,
}

/// An artwork: its size, its colours, and its URL with `{w}` and `{h}` for the wanted size.
#[derive(Default, Debug, Clone, PartialEq)]
pub struct Artwork {
    pub width: i64,
    pub height: i64,
    pub url: String,
    pub bg_color: String,
    pub text_color1: String,
    pub text_color2: String,
    pub text_color3: String,
    pub text_color4: String,
}

/// What a player needs to play the entry.
#[derive(Default, Debug, Clone, PartialEq)]
pub struct PlayParams {
    pub id: String,
    pub kind: String,
}

/// What the editors wrote.
#[derive(Default, Debug, Clone, PartialEq)]
pub struct EditorialNotes {
    pub standard: String,
    pub short: String,
}

/// What the entry is related to.
#[derive(Default, Debug, Clone, PartialEq)]
pub struct Relationships {
    pub artists: Artists,
    pub tracks: Tracks,
}

/// The artists of the entry.
#[derive(Default, Debug, Clone, PartialEq)]
pub struct Artists {
    pub href: String,
    pub data: Vec<Daum2>,
}

/// A reference to an artist.
#[derive(Default, Debug, Clone, PartialEq)]
pub struct Daum2 {
    pub id: String,
    pub type_field: String,
    pub href: String,
}

/// The tracks of the entry, in order.
#[derive(Default, Debug, Clone, PartialEq)]
pub struct Tracks {
    pub href: String,
    pub data: Vec<Daum3>,
}

/// One track of the album.
#[derive(Default, Debug, Clone, PartialEq)]
pub struct Daum3 {
    pub id: String,
    pub type_field: String,
    pub href: String,
    pub attributes: Attributes2,
}

/// What the catalog says of a track.
#[derive(Default, Debug, Clone, PartialEq)]
pub struct Attributes2 {
    pub album_name: String,
    pub genre_names: Vec<String>,
    pub track_number: u64,
    pub release_date: String,
    pub duration_in_millis: u64,
    pub isrc: String,
    pub artwork: Artwork2,
    pub composer_name: String,
    pub play_params: PlayParams2,
    pub url: String,
    pub disc_number: i64,
    pub is_apple_digital_master: bool,
    pub has_lyrics: bool,
    pub name: String,
    pub previews: Vec<Preview>,
    pub artist_name: String,
    pub content_rating: Option<String>,
}

/// An artwork: its size, its colours, and its URL with `{w}` and `{h}` for the wanted size.
#[derive(Default, Debug, Clone, PartialEq)]
pub struct Artwork2 {
    pub width: i64,
    pub height: i64,
    pub url: String,
    pub bg_color: String,
    pub text_color1: String,
    pub text_color2: String,
    pub text_color3: String,
    pub text_color4: String,
}

/// What a player needs to play a track.
#[derive(Default, Debug, Clone, PartialEq)]
pub struct PlayParams2 {
    pub id: String,
    pub kind: String,
}

/// A sample of the entry.
#[derive(Default, Debug, Clone, PartialEq)]
pub struct Preview {
    pub url: String,
}

} // verus!
