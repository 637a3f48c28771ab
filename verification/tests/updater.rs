use cidar::pipeline::FetchError;
use cidar::updater::{
    bearer, status_text, token_step, TokenBody, TokenStep, STATUS_REFRESH_SECS,
    TOKEN_REFRESH_SECS,
};

#[test]
fn token_is_stored_and_fetched_again_after_half_an_hour() {
    assert_eq!(
        token_step(Some(TokenBody { token: "SECRET-REDACTED".to_string() })),
        TokenStep::Store { token: "SECRET-REDACTED".to_string(), wait_secs: 1800 }
    );
    assert_eq!(TOKEN_REFRESH_SECS, 30 * 60);
}

#[test]
fn token_task_stops_without_an_answer() {
    assert_eq!(token_step(None), TokenStep::Stop);
}

#[test]
fn credential_carries_the_token() {
    assert_eq!(bearer(&Some("abc".to_string())), Ok("Bearer abc".to_string()));
}

#[test]
fn credential_is_missing_before_the_first_fetch() {
    assert_eq!(bearer(&None), Err(FetchError::MissingToken));
}

#[test]
fn status_tells_the_count() {
    assert_eq!(status_text(0), "Cider | 0 songs converted");
    assert_eq!(status_text(1234), "Cider | 1234 songs converted");
    assert_eq!(status_text(u64::MAX), "Cider | 18446744073709551615 songs converted");
    assert_eq!(STATUS_REFRESH_SECS, 10);
}
