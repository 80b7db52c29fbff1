use datasource_engine::{join, lookup, same_text, starts_with, trim};

#[test]
fn trim_takes_white_space_from_both_ends() {
    assert_eq!(trim("  mysql://localhost \t\n"), "mysql://localhost");
    assert_eq!(trim("a b"), "a b");
    assert_eq!(trim(" a b "), "a b");
    assert_eq!(trim("\u{a0}x\u{3000}"), "x");
}

#[test]
fn trim_of_white_space_is_empty() {
    assert_eq!(trim(""), "");
    assert_eq!(trim(" \t\r\n"), "");
}

#[test]
fn trim_keeps_what_is_no_white_space() {
    assert_eq!(trim("_x_"), "_x_");
    assert_eq!(trim("\u{200b}x"), "\u{200b}x");
    assert_eq!(trim("äöü "), "äöü");
}

#[test]
fn join_puts_the_separator_between_neighbours() {
    assert_eq!(join(&vec![], ","), "");
    assert_eq!(join(&vec!["a".to_string()], ","), "a");
    assert_eq!(join(&vec!["a".to_string(), "b".to_string(), "c".to_string()], ","), "a,b,c");
    assert_eq!(join(&vec!["".to_string(), "".to_string()], ", "), ", ");
}

#[test]
fn starts_with_compares_characters() {
    assert!(starts_with("file:./dev.db", "file:"));
    assert!(starts_with("file:", "file:"));
    assert!(starts_with("anything", ""));
    assert!(!starts_with("file", "file:"));
    assert!(!starts_with("File:./dev.db", "file:"));
    assert!(starts_with("äb", "ä"));
    assert!(!starts_with("", "a"));
}

#[test]
fn same_text_is_equality() {
    assert!(same_text("env", "env"));
    assert!(!same_text("env", "Env"));
    assert!(!same_text("env", "env "));
    assert!(same_text("", ""));
}

#[test]
fn lookup_takes_the_first_pair() {
    let pairs = vec![
        ("a".to_string(), "1".to_string()),
        ("b".to_string(), "2".to_string()),
        ("a".to_string(), "3".to_string()),
    ];
    assert_eq!(lookup(&pairs, "a"), Some(&"1".to_string()));
    assert_eq!(lookup(&pairs, "b"), Some(&"2".to_string()));
    assert_eq!(lookup(&pairs, "c"), None);
    assert_eq!(lookup(&vec![], "a"), None);
}
