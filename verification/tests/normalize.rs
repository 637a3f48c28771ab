use cidar::detect::{DetectedLink, Provider};
use cidar::models::songlink::{AppleMusic, LinksByPlatform, SongLink};
use cidar::normalize::{
    normalize, request, resolve, storefront, strip_scheme, CanonicalLink, LinkReply, Normalization,
    NormalizeError,
};

#[test]
fn scheme_is_stripped() {
    assert_eq!(
        strip_scheme("https://music.apple.com/us/album/x/1"),
        "music.apple.com/us/album/x/1"
    );
    assert_eq!(strip_scheme("http://music.apple.com/us"), "music.apple.com/us");
    assert_eq!(strip_scheme("ftp://files.example.org/x"), "files.example.org/x");
}

#[test]
fn url_without_scheme_is_left_as_it_is() {
    assert_eq!(strip_scheme("music.apple.com/us"), "music.apple.com/us");
    assert_eq!(strip_scheme(""), "");
    assert_eq!(strip_scheme("https:/"), "https:/");
    assert_eq!(strip_scheme("mailto:someone@example.com"), "mailto:someone@example.com");
}

#[test]
fn only_the_scheme_at_the_start_is_taken_off() {
    assert_eq!(
        strip_scheme("https://a.b/c?u=https://d.e"),
        "a.b/c?u=https://d.e"
    );
    assert_eq!(strip_scheme("a.b/c?u=https://d.e"), "a.b/c?u=https://d.e");
    assert_eq!(strip_scheme("https://http://a.b"), "http://a.b");
}

#[test]
fn storefront_is_the_second_piece() {
    assert_eq!(
        storefront("https://music.apple.com/us/album/thriller/269572838"),
        Some("us".to_string())
    );
    assert_eq!(storefront("music.apple.com/jp/song/x/1"), Some("jp".to_string()));
    assert_eq!(storefront("https://music.apple.com/"), Some(String::new()));
}

#[test]
fn url_of_one_piece_has_no_storefront() {
    assert_eq!(storefront("https://music.apple.com"), None);
    assert_eq!(storefront(""), None);
}

#[test]
fn storefront_is_found_behind_any_scheme() {
    assert_eq!(storefront("http://music.apple.com/us/album/x/1"), Some("us".to_string()));
    assert_eq!(storefront("ftp://music.apple.com/fr/album/x/1"), Some("fr".to_string()));
}

#[test]
fn canonical_link_keeps_the_url() {
    let url = "https://music.apple.com/us/album/thriller/269572838".to_string();
    assert_eq!(
        CanonicalLink::new(url.clone()),
        Ok(CanonicalLink { url, storefront: "us".to_string() })
    );
}

#[test]
fn canonical_link_needs_a_storefront() {
    assert_eq!(
        CanonicalLink::new("https://music.apple.com".to_string()),
        Err(NormalizeError::MissingStorefront)
    );
}

#[test]
fn request_names_the_link() {
    assert_eq!(
        request("https://open.spotify.com/track/abc"),
        "https://api.song.link/v1-alpha.1/links?url=https://open.spotify.com/track/abc"
    );
}

#[test]
fn apple_music_link_is_its_own_canonical_form() {
    let link = DetectedLink {
        raw_text_span: "https://music.apple.com/gb/song/x/42".to_string(),
        provider: Provider::AppleMusic,
    };
    assert_eq!(
        normalize(&link),
        Normalization::Settled {
            link: Ok(CanonicalLink {
                url: "https://music.apple.com/gb/song/x/42".to_string(),
                storefront: "gb".to_string(),
            })
        }
    );
}

#[test]
fn spotify_link_has_to_be_asked_about() {
    let link = DetectedLink {
        raw_text_span: "https://open.spotify.com/track/abc".to_string(),
        provider: Provider::Spotify,
    };
    assert_eq!(
        normalize(&link),
        Normalization::Ask {
            request: "https://api.song.link/v1-alpha.1/links?url=https://open.spotify.com/track/abc"
                .to_string()
        }
    );
}

#[test]
fn resolve_tells_the_failures_apart() {
    assert_eq!(resolve(&LinkReply::Unavailable), Err(NormalizeError::UpstreamUnavailable));
    assert_eq!(
        resolve(&LinkReply::Links { apple_music: None }),
        Err(NormalizeError::NoEquivalentLink)
    );
    assert_eq!(
        resolve(&LinkReply::Links { apple_music: Some("nothing-here".to_string()) }),
        Err(NormalizeError::MissingStorefront)
    );
}

#[test]
fn resolve_takes_the_apple_music_url() {
    let url = "https://music.apple.com/de/album/x/7".to_string();
    assert_eq!(
        resolve(&LinkReply::Links { apple_music: Some(url.clone()) }),
        Ok(CanonicalLink { url, storefront: "de".to_string() })
    );
}

#[test]
fn typed_answer_gives_its_apple_music_url() {
    let answer = SongLink {
        links_by_platform: LinksByPlatform {
            apple_music: AppleMusic {
                url: "https://music.apple.com/us/album/x/1".to_string(),
                ..Default::default()
            },
            ..Default::default()
        },
        ..Default::default()
    };
    assert_eq!(
        LinkReply::from_song_link(&answer),
        LinkReply::Links { apple_music: Some("https://music.apple.com/us/album/x/1".to_string()) }
    );
}
