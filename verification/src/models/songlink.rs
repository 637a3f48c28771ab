//! The link service's answer: one entity and its links on each platform.

use vstd::prelude::*;

verus! {

/// The link service's answer about one entity.
#[derive(Default, Debug, Clone, PartialEq)]
pub struct SongLink {
    pub entity_unique_id: String,
    pub user_country: String,
    pub page_url: String,
    pub links_by_platform: LinksByPlatform,
}

/// The links to the entity, one for each platform.
#[derive(Default, Debug, Clone, PartialEq)]
pub struct LinksByPlatform {
    pub apple_music: AppleMusic,
    pub spotify: Spotify,
    pub youtube: Youtube,
    pub youtube_music: YoutubeMusic,
    pub google: Google,
    pub pandora: Pandora,
    pub deezer: Deezer,
    pub amazon_music: AmazonMusic,
    pub tidal: Tidal,
    pub napster: Napster,
    pub yandex: Yandex,
    pub itunes: Itunes,
    pub google_store: GoogleStore,
    pub amazon_store: AmazonStore,
}

/// The link to the entity on one platform.
#[derive(Default, Debug, Clone, PartialEq)]
pub struct AppleMusic {
    pub url: String,
    pub native_app_uri_mobile: String,
    pub native_app_uri_desktop: String,
    pub entity_unique_id: String,
}

/// The link to the entity on one platform.
#[derive(Default, Debug, Clone, PartialEq)]
pub struct Spotify {
    pub url: String,
    pub native_app_uri_desktop: String,
    pub entity_unique_id: String,
}

/// The link to the entity on one platform.
#[derive(Default, Debug, Clone, PartialEq)]
pub struct Youtube {
    pub url: String,
    pub entity_unique_id: String,
}

/// The link to the entity on one platform.
#[derive(Default, Debug, Clone, PartialEq)]
pub struct YoutubeMusic {
    pub url: String,
    pub entity_unique_id: String,
}

/// The link to the entity on one platform.
#[derive(Default, Debug, Clone, PartialEq)]
pub struct Google {
    pub url: String,
    pub entity_unique_id: String,
}

/// The link to the entity on one platform.
#[derive(Default, Debug, Clone, PartialEq)]
pub struct Pandora {
    pub url: String,
    pub entity_unique_id: String,
}

/// The link to the entity on one platform.
#[derive(Default, Debug, Clone, PartialEq)]
pub struct Deezer {
    pub url: String,
    pub entity_unique_id: String,
}

/// The link to the entity on one platform.
#[derive(Default, Debug, Clone, PartialEq)]
pub struct AmazonMusic {
    pub url: String,
    pub entity_unique_id: String,
}

/// The link to the entity on one platform.
#[derive(Default, Debug, Clone, PartialEq)]
pub struct Tidal {
    pub url: String,
    pub entity_unique_id: String,
}

/// The link to the entity on one platform.
#[derive(Default, Debug, Clone, PartialEq)]
pub struct Napster {
    pub url: String,
    pub entity_unique_id: String,
}

/// The link to the entity on one platform.
#[derive(Default, Debug, Clone, PartialEq)]
pub struct Yandex {
    pub url: String,
    pub entity_unique_id: String,
}

/// The link to the entity on one platform.
#[derive(Default, Debug, Clone, PartialEq)]
pub struct Itunes {
    pub url: String,
    pub native_app_uri_mobile: String,
    pub native_app_uri_desktop: String,
    pub entity_unique_id: String,
}

/// The link to the entity on one platform.
#[derive(Default, Debug, Clone, PartialEq)]
pub struct GoogleStore {
    pub url: String,
    pub entity_unique_id: String,
}

/// The link to the entity on one platform.
#[derive(Default, Debug, Clone, PartialEq)]
pub struct AmazonStore {
    pub url: String,
    pub entity_unique_id: String,
}

} // verus!
