//! The catalog's answer for a song.

use vstd::prelude::*;

verus! {

/// The catalog's answer for a song.
#[derive(Default, Debug, Clone, PartialEq)]
pub struct Song {
    pub data: Vec<Daum>,
}

/// One entry of the answer.
#[derive(Default, Debug, Clone, PartialEq)]
pub struct Daum {
    pub id: String,
    pub type_field: String,
    pub href: String,
    pub attributes: Attributes,
    pub relationships: Relationships,
}

/// What the catalog says of the entry itself.
#[derive(Default, Debug, Clone, PartialEq)]
pub struct Attributes {
    pub album_name: String,
    pub genre_names: Vec<String>,
    pub track_number: u64,
    pub duration_in_millis: u64,
    pub release_date: String,
    pub isrc: String,
    pub artwork: Artwork,
    pub composer_name: String,
    pub play_params: PlayParams,
    pub url: String,
    pub disc_number: i64,
    pub has_lyrics: bool,
    pub is_apple_digital_master: bool,
    pub name: String,
    pub previews: Vec<Preview>,
    pub artist_name: String,
}

/// An artwork: its size, its colours, and its URL with `{w}` and `{h}` for the wanted size.
#[derive(Default, Debug, Clone, PartialEq)]
pub struct Artwork {
    pub width: i64,
    pub height: i64,
    pub url: String,
    pub bg_color: String,
    pub text_color1: String,
    pub text_color2: String,
    pub text_color3: String,
    pub text_color4: String,
}

/// What a player needs to play the entry.
#[derive(Default, Debug, Clone, PartialEq)]
pub struct PlayParams {
    pub id: String,
    pub kind: String,
}

/// A sample of the entry.
#[derive(Default, Debug, Clone, PartialEq)]
pub struct Preview {
    pub url: String,
}

/// What the entry is related to.
#[derive(Default, Debug, Clone, PartialEq)]
pub struct Relationships {
    pub artists: Artists,
    pub albums: Albums,
}

/// The artists of the entry.
#[derive(Default, Debug, Clone, PartialEq)]
pub struct Artists {
    pub href: String,
    pub data: Vec<Daum2>,
}

/// A reference to an artist.
#[derive(Default, Debug, Clone, PartialEq)]
pub struct Daum2 {
    pub id: String,
    pub type_field: String,
    pub href: String,
}

/// The albums of the entry.
#[derive(Default, Debug, Clone, PartialEq)]
pub struct Albums {
    pub href: String,
    pub data: Vec<Daum3>,
}

/// A reference to an album.
#[derive(Default, Debug, Clone, PartialEq)]
pub struct Daum3 {
    pub id: String,
    pub type_field: String,
    pub href: String,
}

} // verus!
