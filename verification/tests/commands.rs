use cidar::commands::about::{self, BuildInfo};
use cidar::commands::convert::{self, CommandOption, ConvertError, ConvertStep};
use cidar::detect::Provider;
use cidar::commands::{in_scope, not_implemented, watches, Command, DEBUG_CHANNEL};
use cidar::normalize::LinkReply;

#[test]
fn about_shows_what_the_build_knows() {
    let build = BuildInfo {
        version: Some("1.2.3".to_string()),
        authors: Some("Ann:Ben".to_string()),
        build_time: Some("2023-08-01T00:00:00Z".to_string()),
        commit: Some("abc123".to_string()),
        rust_version: Some("1.71.0".to_string()),
    };
    assert_eq!(
        about::run(&build),
        "Version: 1.2.3\nAuthor(s): Ann, Ben\nBuild time: 2023-08-01T00:00:00Z\nCommit hash: [abc123](https://github.com/ciderapp/Cidar/commit/abc123)\nRust version: 1.71.0"
    );
}

#[test]
fn about_says_na_for_what_the_build_does_not_know() {
    assert_eq!(
        about::run(&BuildInfo::default()),
        "Version: N/A\nAuthor(s): N/A\nBuild time: N/A\nCommit hash: [N/A](https://github.com/ciderapp/Cidar/commit/N/A)\nRust version: N/A"
    );
}

#[test]
fn convert_needs_an_option() {
    assert_eq!(convert::run(&Vec::new()), Err(ConvertError::InvalidInput));
}

#[test]
fn convert_needs_a_text_option() {
    assert_eq!(convert::run(&vec![CommandOption::Other]), Err(ConvertError::InvalidOption));
}

#[test]
fn convert_needs_a_link() {
    assert_eq!(
        convert::run(&vec![CommandOption::Text("hello".to_string())]),
        Err(ConvertError::InvalidContent)
    );
}

#[test]
fn convert_asks_about_a_spotify_link() {
    assert_eq!(
        convert::run(&vec![
            CommandOption::Text("https://open.spotify.com/track/abc".to_string()),
            CommandOption::Other,
        ]),
        Ok(ConvertStep::Ask {
            request: "https://api.song.link/v1-alpha.1/links?url=https://open.spotify.com/track/abc"
                .to_string()
        })
    );
}

#[test]
fn convert_asks_about_a_link_of_another_service() {
    assert_eq!(
        convert::run(&vec![CommandOption::Text("https://example.com/song".to_string())]),
        Ok(ConvertStep::Ask {
            request: "https://api.song.link/v1-alpha.1/links?url=https://example.com/song"
                .to_string()
        })
    );
}

#[test]
fn convert_answers_an_apple_music_link_with_itself() {
    let link = "https://music.apple.com/us/album/thriller/269572838";
    assert_eq!(
        convert::run(&vec![CommandOption::Text(link.to_string())]),
        Ok(ConvertStep::Answer { link: link.to_string() })
    );
}

#[test]
fn convert_step_follows_the_link_test_and_the_service() {
    assert_eq!(
        convert::step_for_text("a.b", true, Provider::AppleMusic),
        Ok(ConvertStep::Answer { link: "a.b".to_string() })
    );
    assert_eq!(
        convert::step_for_text("a.b", true, Provider::Spotify),
        Ok(ConvertStep::Ask {
            request: "https://api.song.link/v1-alpha.1/links?url=a.b".to_string()
        })
    );
    assert_eq!(
        convert::step_for_text("a.b", true, Provider::Unrecognized),
        Ok(ConvertStep::Ask {
            request: "https://api.song.link/v1-alpha.1/links?url=a.b".to_string()
        })
    );
    for provider in [Provider::AppleMusic, Provider::Spotify, Provider::Unrecognized] {
        assert_eq!(
            convert::step_for_text("a.b", false, provider),
            Err(ConvertError::InvalidContent)
        );
    }
}

#[test]
fn convert_reads_the_answer() {
    assert_eq!(convert::finish(&LinkReply::Unavailable), Err(ConvertError::RequestError));
    assert_eq!(
        convert::finish(&LinkReply::Links { apple_music: None }),
        Err(ConvertError::FailedConversion)
    );
    assert_eq!(
        convert::finish(&LinkReply::Links {
            apple_music: Some("https://music.apple.com/us/song/x/1".to_string())
        }),
        Ok("https://music.apple.com/us/song/x/1".to_string())
    );
}

#[test]
fn convert_errors_have_their_messages() {
    assert_eq!(ConvertError::InvalidInput.message(), "did not input link");
    assert_eq!(ConvertError::InvalidContent.message(), "content is not a link");
    assert_eq!(ConvertError::FailedConversion.message(), "could not convert to apple music link");
    assert_eq!(ConvertError::InvalidOption.message(), "option was not a string");
    assert_eq!(ConvertError::RequestError.message(), "request failed");
}

#[test]
fn convert_shows_the_link_or_the_message() {
    assert_eq!(convert::respond(Ok("https://music.apple.com/x".to_string())), "https://music.apple.com/x");
    assert_eq!(convert::respond(Err(ConvertError::FailedConversion)), "could not convert to apple music link");
}

#[test]
fn commands_are_known_by_name() {
    assert_eq!(Command::named("about"), Command::About);
    assert_eq!(Command::named("convert"), Command::Convert);
    assert_eq!(Command::named("play"), Command::Unknown);
    assert_eq!(Command::named(""), Command::Unknown);
    assert_eq!(not_implemented(), "not implemented");
}

#[test]
fn debug_build_serves_the_debug_channel_only() {
    assert!(in_scope(DEBUG_CHANNEL, true));
    assert!(!in_scope(DEBUG_CHANNEL, false));
    assert!(!in_scope(42, true));
    assert!(in_scope(42, false));
    assert_eq!(DEBUG_CHANNEL, 1133927653074796555);
}

#[test]
fn bots_are_not_watched() {
    assert!(watches(42, false, false));
    assert!(!watches(42, true, false));
    assert!(!watches(DEBUG_CHANNEL, false, false));
    assert!(watches(DEBUG_CHANNEL, false, true));
    assert!(!watches(DEBUG_CHANNEL, true, true));
}
