//! Texts and properties.

use catalog_relation::properties::{comes_before, AdapterProperties};
use catalog_relation::text::{
    ascii_lowercase, ascii_uppercase, blank, bool_to_text, chars_of, eq_ignore_ascii_case,
    parse_u32, same_text, starts_with, u32_to_text,
};

#[test]
fn letters_of_either_case() {
    for s in ["", "Iceberg", "AZaz@[`{09_", "\u{c4}B\u{e4}b\u{130}"] {
        assert_eq!(ascii_lowercase(s), s.to_ascii_lowercase());
        assert_eq!(ascii_uppercase(s), s.to_ascii_uppercase());
        assert_eq!(ascii_lowercase(&ascii_lowercase(s)), ascii_lowercase(s));
    }
    assert!(eq_ignore_ascii_case("NoNe", "none"));
    assert!(!eq_ignore_ascii_case("none ", "none"));
    assert!(!eq_ignore_ascii_case("\u{c4}", "\u{e4}"));
    assert!(same_text("a\u{e9}", "a\u{e9}"));
    assert!(!same_text("a", "ab"));
    assert_eq!(chars_of("a\u{1f600}"), vec!['a', '\u{1f600}']);
}

#[test]
fn prefixes_and_blanks() {
    assert!(starts_with("gs://bucket", "gs://"));
    assert!(starts_with("gs://", "gs://"));
    assert!(!starts_with("gs:/", "gs://"));
    assert!(!starts_with("GS://bucket", "gs://"));
    assert!(starts_with("x", ""));
    assert!(blank(""));
    assert!(blank(" \t\r\n\u{85}\u{2003}\u{3000}"));
    assert!(!blank(" x "));
    assert!(!blank("\u{200b}"));
}

#[test]
fn numbers_read_back() {
    for n in [0, 1, 9, 10, 99, 100, 1234567890, u32::MAX] {
        assert_eq!(u32_to_text(n), n.to_string());
        assert_eq!(parse_u32(&u32_to_text(n)), Some(n));
    }
    assert_eq!(bool_to_text(true), "true");
    assert_eq!(bool_to_text(false), "false");
}

#[test]
fn texts_are_ordered_as_the_standard_library_orders_them() {
    let texts = ["", "a", "aa", "ab", "b", "B", "\u{e9}", "\u{ffff}", "\u{10000}", "_", "a_"];
    for a in texts {
        for b in texts {
            assert_eq!(comes_before(a, b), a < b, "{a:?} {b:?}");
        }
    }
}

#[test]
fn properties_are_kept_in_order_and_once() {
    let mut properties = AdapterProperties::new();
    assert!(properties.is_empty());
    for (name, value) in [("m", "1"), ("z", "2"), ("a", "3"), ("m", "4"), ("mm", "5")] {
        properties.insert(name.to_string(), value.to_string());
    }
    let listed: Vec<(&str, &str)> = properties
        .entries()
        .iter()
        .map(|p| (p.name.as_str(), p.value.as_str()))
        .collect();
    assert_eq!(listed, vec![("a", "3"), ("m", "4"), ("mm", "5"), ("z", "2")]);
    assert_eq!(properties.get("m").map(|s| s.as_str()), Some("4"));
    assert_eq!(properties.get("b"), None);
    assert!(properties.contains_key("z"));
    assert!(!properties.is_empty());
    properties.insert_text("t", None);
    properties.insert_flag("f", Some(true));
    properties.insert_number("n", Some(12));
    assert!(!properties.contains_key("t"));
    assert_eq!(properties.get("f").map(|s| s.as_str()), Some("true"));
    assert_eq!(properties.get("n").map(|s| s.as_str()), Some("12"));
}
