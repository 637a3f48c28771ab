//! The catalog's answer for a music video.

use vstd::prelude::*;

verus! {

/// Untyped JSON, as `serde_json` holds it. Nothing here looks inside such a
/// value: a music video's album list is carried through as it came.
#[verifier::external_type_specification]
#[verifier::external_body]
pub struct ExValue(serde_json::Value);

/// The catalog's answer for a music video.
#[derive(Default, Debug, Clone, PartialEq)]
pub struct MusicVideo {
    pub data: Vec<Daum>,
}

/// One entry of the answer.
#[derive(Default, Debug, Clone, PartialEq)]
pub struct Daum {
    pub id: String,
    pub type_field: String,
    pub href: String,
    pub attributes: Attributes,
    pub relationships: Relationships,
}

/// What the catalog says of the entry itself.
#[derive(Default, Debug, Clone, PartialEq)]
pub struct Attributes {
    pub previews: Vec<Preview>,
    pub artwork: Artwork2,
    pub artist_name: String,
    pub url: String,
    pub genre_names: Vec<String>,
    pub has4k: bool,
    pub duration_in_millis: u64,
    pub release_date: String,
    pub name: String,
    pub isrc: String,
    pub play_params: PlayParams,
    pub has_hdr: bool,
}

/// A sample of the entry.
#[derive(Default, Debug, Clone, PartialEq)]
pub struct Preview {
    pub url: String,
    pub hls_url: String,
    pub artwork: Artwork,
}

/// An artwork: its size, its colours, and its URL with `{w}` and `{h}` for the wanted size.
#[derive(Default, Debug, Clone, PartialEq)]
pub struct Artwork {
    pub width: i64,
    pub height: i64,
    pub url: String,
    pub bg_color: String,
    pub text_color1: String,
    pub text_color2: String,
    pub text_color3: String,
    pub text_color4: String,
}

/// An artwork: its size, its colours, and its URL with `{w}` and `{h}` for the wanted size.
#[derive(Default, Debug, Clone, PartialEq)]
pub struct Artwork2 {
    pub width: i64,
    pub height: i64,
    pub url: String,
    pub bg_color: String,
    pub text_color1: String,
    pub text_color2: String,
    pub text_color3: String,
    pub text_color4: String,
}

/// What a player needs to play the entry.
#[derive(Default, Debug, Clone, PartialEq)]
pub struct PlayParams {
    pub id: String,
    pub kind: String,
}

/// What the entry is related to.
#[derive(Default, Debug, Clone, PartialEq)]
pub struct Relationships {
    pub artists: Artists,
    pub albums: Albums,
}

/// The artists of the entry.
#[derive(Default, Debug, Clone, PartialEq)]
pub struct Artists {
    pub href: String,
    pub data: Vec<Daum2>,
}

/// A reference to an artist.
#[derive(Default, Debug, Clone, PartialEq)]
pub struct Daum2 {
    pub id: String,
    pub type_field: String,
    pub href: String,
}

/// The albums of the entry.
#[derive(Default, Debug, Clone, PartialEq)]
pub struct Albums {
    pub href: String,
    pub data: Vec<serde_json::Value>,
}

} // verus!
