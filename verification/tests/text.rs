use cidar::text::{
    decimal_text, join, owned, replace, same_text, split, strip_prefix, to_chars,
    zero_padded_text,
};

#[test]
fn decimal_text_writes_every_digit() {
    assert_eq!(decimal_text(0), "0");
    assert_eq!(decimal_text(9), "9");
    assert_eq!(decimal_text(10), "10");
    assert_eq!(decimal_text(1234567890), "1234567890");
    assert_eq!(decimal_text(u128::MAX), "340282366920938463463374607431768211455");
}

#[test]
fn zero_padded_text_is_two_digits_wide_at_least() {
    assert_eq!(zero_padded_text(0), "00");
    assert_eq!(zero_padded_text(5), "05");
    assert_eq!(zero_padded_text(12), "12");
    assert_eq!(zero_padded_text(123), "123");
}

#[test]
fn to_chars_keeps_every_character() {
    assert_eq!(to_chars("a\u{2022}b"), vec!['a', '\u{2022}', 'b']);
    assert_eq!(to_chars(""), Vec::<char>::new());
    assert_eq!(owned("caf\u{e9}"), "caf\u{e9}");
}

#[test]
fn split_keeps_empty_pieces() {
    assert_eq!(split("a,b,,c", ','), vec!["a", "b", "", "c"]);
    assert_eq!(split("", ','), vec![""]);
    assert_eq!(split(",", ','), vec!["", ""]);
    assert_eq!(split("abc", ','), vec!["abc"]);
    assert_eq!(split("\u{e9}/\u{2022}", '/'), vec!["\u{e9}", "\u{2022}"]);
}

#[test]
fn join_puts_the_separator_between_neighbours() {
    let parts = vec!["a".to_string(), "b".to_string(), "c".to_string()];
    assert_eq!(join(&parts, ", "), "a, b, c");
    assert_eq!(join(&vec!["solo".to_string()], ", "), "solo");
    assert_eq!(join(&Vec::new(), ", "), "");
    assert_eq!(join(&vec![String::new(), String::new()], "-"), "-");
}

#[test]
fn split_then_join_gives_the_text_back() {
    let text = "one:two::three:";
    assert_eq!(join(&split(text, ':'), ":"), text);
}

#[test]
fn replace_takes_occurrences_from_the_left() {
    assert_eq!(replace("aaa", "aa", "b"), "ba");
    assert_eq!(replace("abcabc", "bc", "X"), "aXaX");
    assert_eq!(replace("abc", "abc", ""), "");
    assert_eq!(replace("abc", "abcd", "x"), "abc");
    assert_eq!(replace("", "a", "x"), "");
    assert_eq!(replace("a\u{2022}b", "\u{2022}", "--"), "a--b");
}

#[test]
fn replace_with_an_empty_pattern_changes_nothing() {
    assert_eq!(replace("abc", "", "x"), "abc");
}

#[test]
fn replace_does_not_look_at_what_it_put_in() {
    assert_eq!(replace("ab", "a", "aa"), "aab");
    assert_eq!(replace("xx", "x", "xx"), "xxxx");
}

#[test]
fn same_text_compares_characters() {
    assert!(same_text("song", "song"));
    assert!(!same_text("song", "songs"));
    assert!(!same_text("Song", "song"));
    assert!(same_text("", ""));
}

#[test]
fn strip_prefix_takes_the_prefix_off() {
    assert_eq!(strip_prefix("https://a.b", "https://"), Some("a.b".to_string()));
    assert_eq!(strip_prefix("abc", "abc"), Some(String::new()));
    assert_eq!(strip_prefix("abc", ""), Some("abc".to_string()));
    assert_eq!(strip_prefix("\u{e9}t\u{e9}", "\u{e9}"), Some("t\u{e9}".to_string()));
}

#[test]
fn strip_prefix_needs_the_prefix_at_the_start() {
    assert_eq!(strip_prefix("xhttps://a.b", "https://"), None);
    assert_eq!(strip_prefix("ab", "abc"), None);
    assert_eq!(strip_prefix("", "a"), None);
}
