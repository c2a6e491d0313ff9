use solana_trader_quic_client_rust::text::{decimal, rsplit_once, same_text, strip_enclosing};

#[test]
fn numbers_are_written_in_decimal() {
    assert_eq!(decimal(0), "0");
    assert_eq!(decimal(9), "9");
    assert_eq!(decimal(10), "10");
    assert_eq!(decimal(1234567890), "1234567890");
    assert_eq!(decimal(usize::MAX), usize::MAX.to_string());
}

#[test]
fn text_is_split_around_the_last_separator() {
    assert_eq!(rsplit_once("a:b:c", ':'), Some(("a:b", "c")));
    assert_eq!(rsplit_once(":", ':'), Some(("", "")));
    assert_eq!(rsplit_once("abc", ':'), None);
    assert_eq!(rsplit_once("", ':'), None);
}

#[test]
fn enclosing_characters_are_taken_off() {
    assert_eq!(strip_enclosing("<a>", '<', '>'), Some("a"));
    assert_eq!(strip_enclosing("<a", '<', '>'), None);
}

#[test]
fn texts_are_the_same_by_their_characters() {
    assert!(same_text("abc", "abc"));
    assert!(!same_text("abc", "abd"));
    assert!(!same_text("abc", "ab"));
}
