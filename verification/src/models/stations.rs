//! The catalog's answer for a radio station.

use vstd::prelude::*;

verus! {

/// The catalog's answer for a radio station.
#[derive(Default, Debug, Clone, PartialEq)]
pub struct Station {
    pub data: Vec<Daum>,
}

/// One entry of the answer.
#[derive(Default, Debug, Clone, PartialEq)]
pub struct Daum {
    pub id: String,
    pub type_field: String,
    pub href: String,
    pub attributes: Attributes,
}

/// What the catalog says of the entry itself.
#[derive(Default, Debug, Clone, PartialEq)]
pub struct Attributes {
    pub artwork: Artwork,
    pub media_kind: String,
    pub is_live: bool,
    pub name: String,
    pub play_params: PlayParams,
    pub supported_drms: Option<Vec<String>>,
    pub editorial_notes: Option<EditorialNotes>,
    pub url: String,
}

/// An artwork: its size, its colours, and its URL with `{w}` and `{h}` for the wanted size.
#[derive(Default, Debug, Clone, PartialEq)]
pub struct Artwork {
    pub width: i64,
    pub height: i64,
    pub url: String,
    pub bg_color: Option<String>,
    pub text_color1: Option<String>,
    pub text_color2: Option<String>,
    pub text_color3: Option<String>,
    pub text_color4: Option<String>,
}

/// What a player needs to play the entry.
#[derive(Default, Debug, Clone, PartialEq)]
pub struct PlayParams {
    pub id: String,
    pub kind: String,
    pub format: String,
    pub station_hash: String,
    pub has_drm: bool,
    pub media_type: i64,
}

/// What the editors wrote.
#[derive(Default, Debug, Clone, PartialEq)]
pub struct EditorialNotes {
    pub name: Option<String>,
    pub short: Option<String>,
    pub tagline: Option<String>,
}

} // verus!
