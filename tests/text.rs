use flatpack_gen::strmap::{str_eq, str_lt, StrMap};
use flatpack_gen::text::{decimal_string, replace_str, split_tokens, strip_leading_str};
use flatpack_gen::emit::{rewrite_path_str, rewrite_text_str};

#[test]
fn decimal_values() {
    assert_eq!(decimal_string(0), "0");
    assert_eq!(decimal_string(7), "7");
    assert_eq!(decimal_string(80), "80");
    assert_eq!(decimal_string(65535), "65535");
}

#[test]
fn replace_values() {
    assert_eq!(replace_str("/home/content/a/home/content/", "/home/content/", "X"), "XaX");
    assert_eq!(replace_str("aaa", "aa", "b"), "ba");
    assert_eq!(replace_str("", "a", "b"), "");
}

#[test]
fn strip_values() {
    assert_eq!(strip_leading_str("///a/", "/"), "a/");
    assert_eq!(strip_leading_str("home/content/home/content/x", "home/content/"), "x");
    assert_eq!(strip_leading_str("abc", ""), "abc");
}

#[test]
fn token_values() {
    assert_eq!(split_tokens("  a b\t c  "), vec!["a", "b", "c"]);
    assert!(split_tokens("   ").is_empty());
    assert_eq!(split_tokens("one"), vec!["one"]);
    assert_eq!(split_tokens("a\u{3000}b\u{a0}c\u{0b}d\u{2009}e\u{85}f"), vec!["a", "b", "c", "d", "e", "f"]);
}

#[test]
fn rewrite_values() {
    assert_eq!(rewrite_path_str("/home/content/x", &Some("m".to_string())), "./m/x");
    assert_eq!(rewrite_path_str("/home/content/x", &None), "/home/content/x");
    assert_eq!(rewrite_text_str("a=/home/content/b", &Some("m".to_string())), "a=./m/b");
}

#[test]
fn string_order() {
    assert!(str_lt("a", "b"));
    assert!(str_lt("a", "ab"));
    assert!(!str_lt("b", "ab"));
    assert!(!str_lt("a", "a"));
    assert!(str_lt("", "a"));
    assert!(str_eq("xy", "xy"));
    assert!(!str_eq("xy", "x"));
}

#[test]
fn map_insert_and_get() {
    let mut m = StrMap::new();
    m.insert("b".to_string(), "1".to_string());
    m.insert("a".to_string(), "2".to_string());
    m.insert("b".to_string(), "3".to_string());
    assert_eq!(m.len(), 2);
    assert_eq!(m.key_at(0), "a");
    assert_eq!(m.key_at(1), "b");
    assert_eq!(m.get("b").map(|s| s.as_str()), Some("3"));
    assert_eq!(m.get("c"), None);
}
