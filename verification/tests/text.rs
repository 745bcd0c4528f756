use guestjs::names::NameMap;
use guestjs::sequences::reverse;
use guestjs::text::{decimal_text, joined, same_text};

#[test]
fn numbers_are_written_in_decimal() {
    assert_eq!(decimal_text(0), "0");
    assert_eq!(decimal_text(9), "9");
    assert_eq!(decimal_text(10), "10");
    assert_eq!(decimal_text(1_234_567_890), "1234567890");
    assert_eq!(decimal_text(u64::MAX), u64::MAX.to_string());
}

#[test]
fn texts_are_joined_and_compared() {
    assert_eq!(joined("guest", "js"), "guestjs");
    assert_eq!(joined("", ""), "");
    assert!(same_text("node:fs", "node:fs"));
    assert!(!same_text("node:fs", "node:f"));
    assert!(!same_text("", "x"));
    assert!(same_text("", ""));
}

#[test]
fn a_name_map_keeps_the_last_value_of_a_name() {
    let mut map = NameMap::new();

    assert_eq!(map.insert("a".to_owned(), 1), None);
    assert_eq!(map.insert("b".to_owned(), 2), None);
    assert_eq!(map.insert("a".to_owned(), 3), Some(1));
    assert_eq!(map.get("a"), Some(&3));
    assert!(map.contains("b"));
    assert_eq!(map.remove("b"), Some(2));
    assert_eq!(map.remove("b"), None);
    assert!(!map.contains("b"));
    assert_eq!(map.get("a"), Some(&3));
}

#[test]
fn lists_are_turned_around() {
    let mut items = vec![1, 2, 3, 4];

    reverse(&mut items);
    assert_eq!(items, vec![4, 3, 2, 1]);

    let mut none: Vec<u8> = Vec::new();
    reverse(&mut none);
    assert!(none.is_empty());
}
