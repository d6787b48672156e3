//! Texts, paths and values.

use dagq::json::{Fields, Json};
use dagq::path::{components, file_name, join_path, parent, within};
use dagq::text::{
    ascii_lower, blank, contains, first_line, integer, join, lists, number, parse_signed,
    parse_unsigned, same, split_once, strip_prefix, strip_suffix, tail, trim, trim_end,
};

#[test]
fn numbers_are_written_and_read_back() {
    for n in [0u64, 7, 10, 1_000, u64::MAX] {
        assert_eq!(number(n), n.to_string());
        assert_eq!(parse_unsigned(&number(n), u64::MAX), Some(n));
    }
    for n in [0i64, -1, 42, i64::MIN, i64::MAX] {
        assert_eq!(integer(n), n.to_string());
        assert_eq!(parse_signed(&integer(n)), Some(n));
    }
    assert_eq!(parse_unsigned("+5", 9), "+5".parse::<u64>().ok());
    assert_eq!(parse_unsigned("", 9), None);
    assert_eq!(parse_unsigned("10", 9), None);
    assert_eq!(parse_unsigned("1x", 99), None);
    assert_eq!(parse_signed("-"), None);
    assert_eq!(parse_signed("9223372036854775808"), None);
}

#[test]
fn spaces_are_trimmed_as_the_language_trims_them() {
    for text in ["  a b \n", "\u{a0}x\u{2003}", "", " \t", "plain"] {
        assert_eq!(trim(text), text.trim());
        assert_eq!(trim_end(text), text.trim_end());
        assert_eq!(blank(text), text.trim().is_empty());
    }
}

#[test]
fn texts_are_cut_at_the_first_separator() {
    assert_eq!(split_once("a): b): c", "): "), Some(("a".to_owned(), "b): c".to_owned())));
    assert_eq!(split_once("abc", "x"), None);
    assert_eq!(strip_prefix("refs/heads/x", "refs/heads/"), Some("x".to_owned()));
    assert_eq!(strip_suffix("a.log", ".log"), Some("a".to_owned()));
    assert_eq!(strip_suffix("a.txt", ".log"), None);
    assert!(contains("escaped &amp; text", "&amp;"));
    assert!(!contains("abc", "cb"));
    assert_eq!(first_line("one\r\ntwo"), Some("one".to_owned()));
    assert_eq!(first_line(""), None);
    assert_eq!(ascii_lower("ABCé"), "abcé");
    assert!(same("é", "é") && !same("é", "e"));
    let list = vec!["a".to_owned(), "b".to_owned()];
    assert_eq!(join(&list, ", "), "a, b");
    assert!(lists(&list, "b") && !lists(&list, "c"));
    for (text, max) in [("aé日本", 4usize), ("日本", 2), ("abc", 0), ("abc", 9)] {
        assert!(tail(text, max).len() <= max);
        assert!(text.ends_with(&tail(text, max)));
    }
}

#[test]
fn a_path_is_within_itself_and_what_is_above() {
    assert!(within("/a/b", "/a/b"));
    assert!(within("/a/b/c", "/a/b"));
    assert!(within("/a/b/c", "/a"));
    assert!(!within("/a/bc", "/a/b"));
    assert!(!within("a/b", "/a"));
    assert!(!within("/a/b", "a"));
    assert!(within("/a/b", "") && within("a/b", "") && within("", ""));
    assert!(!within("", "a") && !within("/a", "."));
    assert!(within("/a//b/./c/", "/a/b"));
    assert_eq!(components("/a//b/./c/"), ["a", "b", "c"]);
    assert_eq!(join_path("/a", "b"), "/a/b");
    assert_eq!(join_path("/a/", "b"), "/a/b");
    assert_eq!(join_path("/a", "/b"), "/b");
    assert_eq!(file_name("/a/b.txt"), Some("b.txt".to_owned()));
    assert_eq!(file_name("/"), None);
    assert_eq!(parent("/a/b"), Some("/a".to_owned()));
    assert_eq!(parent("/"), None);
}

#[test]
fn a_member_reads_as_what_was_put() {
    let value = Fields::new().text("a", "x").number("n", 3).flag("b", true).done();
    let value = value.with("a", Json::Text("y".to_owned())).with("new", Json::Null);
    assert_eq!(value.text("a"), Some("y".to_owned()));
    assert_eq!(value.integer("n"), Some(3));
    assert_eq!(value.natural("n"), Some(3));
    assert!(value.is_true("b") && !value.is_true("a"));
    assert!(value.says("a", "y") && !value.says("a", "x"));
    assert!(value.is_int("n", 3));
    assert!(matches!(value.get("new"), Some(Json::Null)));
    assert!(value.get("absent").is_none());
    assert_eq!(Json::Null.with("k", Json::Int(1)).integer("k"), Some(1));
    let negative = Fields::new().number("n", -1).number("big", i128::from(u64::MAX)).done();
    assert_eq!((negative.integer("n"), negative.natural("n")), (Some(-1), None));
    assert_eq!((negative.integer("big"), negative.natural("big")), (None, Some(u64::MAX)));
}

#[test]
fn a_list_of_texts_is_one_only_where_all_are() {
    let texts = vec!["a".to_owned(), "b".to_owned()];
    let value = Fields::new().texts("l", &texts).with("m", Json::List(vec![Json::Int(1)])).done();
    assert_eq!(value.texts("l"), Some(texts));
    assert_eq!(value.texts("m"), None);
    assert_eq!(value.texts("none"), None);
}
