use cidar::util::{
    create_conversion_counter, increment_conversion, milli_to_hhmmss, split_authors, wh, Store,
};

#[test]
fn zero_milliseconds_is_two_zero_digits() {
    assert_eq!(milli_to_hhmmss(0), "00");
}

#[test]
fn sub_minute_duration_is_plain_seconds() {
    assert_eq!(milli_to_hhmmss(59_999), "59");
    assert_eq!(milli_to_hhmmss(7_000), "07");
}

#[test]
fn minutes_and_seconds_are_padded() {
    assert_eq!(milli_to_hhmmss(65_000), "01:05");
    assert_eq!(milli_to_hhmmss(60_000), "01:00");
    assert_eq!(milli_to_hhmmss(3_599_000), "59:59");
}

#[test]
fn hours_are_not_padded() {
    assert_eq!(milli_to_hhmmss(3_661_000), "1:01:01");
    assert_eq!(milli_to_hhmmss(3_600_000), "1:00:00");
    assert_eq!(milli_to_hhmmss(36_000_000), "10:00:00");
}

#[test]
fn hours_go_on_past_a_day() {
    assert_eq!(milli_to_hhmmss(86_400_000), "24:00:00");
    assert_eq!(milli_to_hhmmss(86_400_000 + 65_000), "24:01:05");
    assert_eq!(milli_to_hhmmss(90_000_000), "25:00:00");
    assert_eq!(milli_to_hhmmss(360_000_000), "100:00:00");
}

#[test]
fn artwork_placeholders_are_filled() {
    assert_eq!(
        wh("https://example.com/art/{w}x{h}bb.jpg", 512, 512),
        "https://example.com/art/512x512bb.jpg"
    );
    assert_eq!(wh("{w}{h}{w}", 1, 20), "1201");
}

#[test]
fn artwork_without_placeholders_is_unchanged() {
    assert_eq!(wh("https://example.com/a.jpg", 512, 512), "https://example.com/a.jpg");
    assert_eq!(wh("", 512, 512), "");
    assert_eq!(wh("{w", 512, 512), "{w");
}

#[test]
fn authors_are_comma_separated() {
    assert_eq!(split_authors("a:b:c"), "a, b, c");
    assert_eq!(split_authors("solo"), "solo");
    assert_eq!(split_authors(""), "");
    assert_eq!(split_authors("a::b:"), "a, , b, ");
}

#[test]
fn fresh_counter_is_zero() {
    assert_eq!(create_conversion_counter().total_conversions, 0);
    assert_eq!(Store::default().total_conversions, 0);
}

#[test]
fn counter_goes_up_by_one() {
    let mut store = Store { total_conversions: 41 };
    increment_conversion(&mut store);
    assert_eq!(store.total_conversions, 42);
}

#[test]
fn missing_text_is_shown_as_na() {
    assert_eq!(cidar::util::na(&None), "N/A");
    assert_eq!(cidar::util::na(&Some("x".to_string())), "x");
    assert_eq!(cidar::util::na(&Some(String::new())), "");
}
