//! The catalog's answer for an artist.

use vstd::prelude::*;

verus! {

/// The catalog's answer for an artist.
#[derive(Default, Debug, Clone, PartialEq)]
pub struct Artist {
    pub data: Vec<Daum>,
}

/// One entry of the answer.
#[derive(Default, Debug, Clone, PartialEq)]
pub struct Daum {
    pub id: String,
    pub type_field: String,
    pub href: String,
    pub attributes: Attributes,
    pub relationships: Relationships,
}

/// What the catalog says of the entry itself.
#[derive(Default, Debug, Clone, PartialEq)]
pub struct Attributes {
    pub genre_names: Vec<String>,
    pub name: String,
    pub artwork: Artwork,
    pub url: String,
}

/// An artwork: its size, its colours, and its URL with `{w}` and `{h}` for the wanted size.
#[derive(Default, Debug, Clone, PartialEq)]
pub struct Artwork {
    pub width: i64,
    pub height: i64,
    pub url: String,
    pub bg_color: String,
    pub text_color1: String,
    pub text_color2: String,
    pub text_color3: String,
    pub text_color4: String,
}

/// What the entry is related to.
#[derive(Default, Debug, Clone, PartialEq)]
pub struct Relationships {
    pub albums: Albums,
}

/// The albums of the entry.
#[derive(Default, Debug, Clone, PartialEq)]
pub struct Albums {
    pub href: String,
    pub data: Vec<Daum2>,
}

/// A reference to an album.
#[derive(Default, Debug, Clone, PartialEq)]
pub struct Daum2 {
    pub id: String,
    pub type_field: String,
    pub href: String,
}

} // verus!
