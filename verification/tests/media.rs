use cidar::media::{classify, endpoint, lookup, reference, MediaReference, MediaType};

fn pairs(items: &[(&str, &str)]) -> Vec<(String, String)> {
    items.iter().map(|(k, v)| (k.to_string(), v.to_string())).collect()
}

fn segments(items: &[&str]) -> Option<Vec<String>> {
    Some(items.iter().map(|s| s.to_string()).collect())
}

#[test]
fn six_tokens_name_six_kinds() {
    assert_eq!(MediaType::from_token("song"), Some(MediaType::Song));
    assert_eq!(MediaType::from_token("album"), Some(MediaType::Album));
    assert_eq!(MediaType::from_token("artist"), Some(MediaType::Artist));
    assert_eq!(MediaType::from_token("music-video"), Some(MediaType::MusicVideo));
    assert_eq!(MediaType::from_token("playlist"), Some(MediaType::Playlist));
    assert_eq!(MediaType::from_token("station"), Some(MediaType::Station));
}

#[test]
fn unknown_token_names_no_kind() {
    assert_eq!(MediaType::from_token("podcast"), None);
    assert_eq!(MediaType::from_token(""), None);
    assert_eq!(MediaType::from_token("Song"), None);
    assert_eq!(MediaType::from_token("songs"), None);
    assert_eq!(MediaType::from_token("music_video"), None);
}

#[test]
fn default_kind_is_song() {
    assert_eq!(MediaType::default(), MediaType::Song);
}

#[test]
fn second_segment_decides_the_kind() {
    let none = pairs(&[]);
    assert_eq!(
        MediaType::determine(&segments(&["us", "album", "thriller", "1"]), &none),
        Some(MediaType::Album)
    );
    assert_eq!(
        MediaType::determine(&segments(&["us", "station", "x"]), &none),
        Some(MediaType::Station)
    );
    assert_eq!(MediaType::determine(&segments(&["us", "podcast", "x"]), &none), None);
    assert_eq!(MediaType::determine(&segments(&["us"]), &none), None);
    assert_eq!(MediaType::determine(&segments(&[]), &none), None);
    assert_eq!(MediaType::determine(&None, &none), None);
}

#[test]
fn song_parameter_overrides_the_path() {
    let query = pairs(&[("i", "123")]);
    assert_eq!(
        MediaType::determine(&segments(&["us", "album", "x", "1"]), &query),
        Some(MediaType::Song)
    );
    assert_eq!(
        MediaType::determine(&segments(&["us", "podcast", "x"]), &query),
        Some(MediaType::Song)
    );
    assert_eq!(MediaType::determine(&segments(&["us"]), &query), Some(MediaType::Song));
    assert_eq!(MediaType::determine(&None, &query), Some(MediaType::Song));
}

#[test]
fn lookup_takes_the_last_value() {
    let query = pairs(&[("i", "1"), ("l", "en"), ("i", "2")]);
    assert_eq!(lookup(&query, "i"), Some(&"2".to_string()));
    assert_eq!(lookup(&query, "l"), Some(&"en".to_string()));
    assert_eq!(lookup(&query, "x"), None);
    assert_eq!(lookup(&pairs(&[]), "i"), None);
}

#[test]
fn reference_takes_the_last_segment_for_the_identifier() {
    assert_eq!(
        reference(&segments(&["us", "album", "thriller", "269572838"]), &pairs(&[])),
        Some(MediaReference { kind: MediaType::Album, id: "269572838".to_string() })
    );
    assert_eq!(
        reference(&segments(&["us", "artist"]), &pairs(&[("l", "en")])),
        Some(MediaReference { kind: MediaType::Artist, id: "artist".to_string() })
    );
}

#[test]
fn reference_takes_the_song_parameter_for_the_identifier() {
    assert_eq!(
        reference(&segments(&["us", "album", "thriller", "269572838"]), &pairs(&[("i", "123")])),
        Some(MediaReference { kind: MediaType::Song, id: "123".to_string() })
    );
    assert_eq!(
        reference(&None, &pairs(&[("i", "7")])),
        Some(MediaReference { kind: MediaType::Song, id: "7".to_string() })
    );
}

#[test]
fn reference_of_an_unknown_kind_is_nothing() {
    assert_eq!(reference(&segments(&["us", "podcast", "x"]), &pairs(&[])), None);
    assert_eq!(reference(&segments(&["us"]), &pairs(&[])), None);
    assert_eq!(reference(&None, &pairs(&[])), None);
}

#[test]
fn classify_reads_a_real_url() {
    assert_eq!(
        classify("https://music.apple.com/us/album/thriller/269572838"),
        Some(MediaReference { kind: MediaType::Album, id: "269572838".to_string() })
    );
    assert_eq!(
        classify("https://music.apple.com/us/playlist/todays-hits/pl.f4d106fed2bd41149aaacabb233eb5eb"),
        Some(MediaReference {
            kind: MediaType::Playlist,
            id: "pl.f4d106fed2bd41149aaacabb233eb5eb".to_string()
        })
    );
    assert_eq!(
        classify("https://music.apple.com/us/music-video/x/1445140925?l=en"),
        Some(MediaReference { kind: MediaType::MusicVideo, id: "1445140925".to_string() })
    );
}

#[test]
fn classify_honours_the_song_parameter() {
    assert_eq!(
        classify("https://music.apple.com/us/album/thriller/269572838?i=123"),
        Some(MediaReference { kind: MediaType::Song, id: "123".to_string() })
    );
    assert_eq!(
        classify("https://music.apple.com/us/album/x/1?i=1&i=a%20b"),
        Some(MediaReference { kind: MediaType::Song, id: "a b".to_string() })
    );
    assert_eq!(
        classify("https://music.apple.com/us?i=5"),
        Some(MediaReference { kind: MediaType::Song, id: "5".to_string() })
    );
}

#[test]
fn classify_keeps_an_empty_last_segment() {
    assert_eq!(
        classify("https://music.apple.com/us/album/x/1/"),
        Some(MediaReference { kind: MediaType::Album, id: String::new() })
    );
}

#[test]
fn classify_gives_up_on_what_is_no_absolute_url() {
    assert_eq!(classify("music.apple.com/us/album/x/1"), None);
    assert_eq!(classify("music.apple.com/us/album/x/1?i=3"), None);
    assert_eq!(classify(""), None);
}

#[test]
fn classify_gives_up_on_unknown_media() {
    assert_eq!(classify("https://music.apple.com/us/podcast/x/1"), None);
    assert_eq!(classify("https://music.apple.com/us"), None);
    assert_eq!(classify("mailto:someone@example.com"), None);
}

#[test]
fn endpoint_names_the_collection_of_each_kind() {
    assert_eq!(endpoint(MediaType::Song, "us", "1"), "v1/catalog/us/songs/1");
    assert_eq!(endpoint(MediaType::Album, "us", "269572838"), "v1/catalog/us/albums/269572838");
    assert_eq!(endpoint(MediaType::Playlist, "gb", "pl.x"), "v1/catalog/gb/playlists/pl.x");
    assert_eq!(endpoint(MediaType::MusicVideo, "us", "1"), "v1/catalog/us/music-video/1");
    assert_eq!(endpoint(MediaType::Station, "jp", "ra.1"), "v1/catalog/jp/stations/ra.1");
    assert_eq!(endpoint(MediaType::Artist, "us", "32940"), "v1/catalog/us/artists/32940");
    assert_eq!(endpoint(MediaType::Artist, "", ""), "v1/catalog//artists/");
}
