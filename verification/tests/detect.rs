use cidar::detect::{detect, DetectedLink, Provider};

#[test]
fn text_without_link_yields_nothing() {
    assert_eq!(detect("hello there, no links today"), None);
    assert_eq!(detect(""), None);
}

#[test]
fn apple_music_link_is_detected_whole() {
    let found = detect("check this out https://music.apple.com/us/album/thriller/269572838 cool right?");
    assert_eq!(
        found,
        Some(DetectedLink {
            raw_text_span: "https://music.apple.com/us/album/thriller/269572838".to_string(),
            provider: Provider::AppleMusic,
        })
    );
}

#[test]
fn spotify_link_is_detected() {
    let found = detect("listen: https://open.spotify.com/track/4cOdK2wGLETKBW3PvgPWqT !");
    assert_eq!(
        found,
        Some(DetectedLink {
            raw_text_span: "https://open.spotify.com/track/4cOdK2wGLETKBW3PvgPWqT".to_string(),
            provider: Provider::Spotify,
        })
    );
}

#[test]
fn link_of_another_service_yields_nothing() {
    assert_eq!(detect("see https://example.com/page for more"), None);
}

#[test]
fn only_the_first_link_counts() {
    assert_eq!(
        detect("https://example.com/a then https://music.apple.com/us/album/x/1"),
        None
    );
}

#[test]
fn link_matching_both_services_is_spotify() {
    assert_eq!(Provider::from_matches(true, true), Provider::Spotify);
    assert_eq!(Provider::from_matches(true, false), Provider::AppleMusic);
    assert_eq!(Provider::from_matches(false, true), Provider::Spotify);
    assert_eq!(Provider::from_matches(false, false), Provider::Unrecognized);
}

#[test]
fn unrecognized_match_is_dropped() {
    assert_eq!(
        DetectedLink::from_match(Some("a.b".to_string()), Provider::Unrecognized),
        None
    );
    assert_eq!(DetectedLink::from_match(None, Provider::AppleMusic), None);
    assert_eq!(
        DetectedLink::from_match(Some("a.b".to_string()), Provider::Spotify),
        Some(DetectedLink { raw_text_span: "a.b".to_string(), provider: Provider::Spotify })
    );
}

#[test]
fn recognize_tells_the_services_apart() {
    assert_eq!(Provider::recognize("https://music.apple.com/us/song/x/1"), Provider::AppleMusic);
    assert_eq!(Provider::recognize("https://open.spotify.com/album/abc"), Provider::Spotify);
    assert_eq!(Provider::recognize("https://example.com/"), Provider::Unrecognized);
}

#[test]
fn first_link_is_found_whatever_its_service() {
    assert_eq!(
        cidar::detect::find_link("see https://example.com/a and https://music.apple.com/us/x"),
        Some("https://example.com/a".to_string())
    );
    assert_eq!(cidar::detect::find_link("ftp://files.example.org/x.zip"), Some("ftp://files.example.org/x.zip".to_string()));
    assert_eq!(cidar::detect::find_link("nothing"), None);
}

#[test]
fn link_without_scheme_is_a_link() {
    assert_eq!(
        detect("music.apple.com/us/album/x/1"),
        Some(DetectedLink {
            raw_text_span: "music.apple.com/us/album/x/1".to_string(),
            provider: Provider::AppleMusic,
        })
    );
}

#[test]
fn is_link_tests_for_any_link() {
    assert!(cidar::detect::is_link("go to a.b now"));
    assert!(!cidar::detect::is_link("hello"));
    assert!(!cidar::detect::is_link(""));
}
