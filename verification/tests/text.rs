use hpm_backend::json::{frame_member, frame_object};
use hpm_backend::text::{
    chars_of, followed_by, contains_nul, decimal_string, join, str_eq, trim_leading_slashes,
};

#[test]
fn decimal_of_zero_and_bounds() {
    assert_eq!(decimal_string(0), "0");
    assert_eq!(decimal_string(7), "7");
    assert_eq!(decimal_string(10), "10");
    assert_eq!(decimal_string(1024), "1024");
    assert_eq!(decimal_string(4294967295), "4294967295");
    assert_eq!(decimal_string(u64::MAX), "18446744073709551615");
}

#[test]
fn join_puts_separator_between_neighbours_only() {
    let none: Vec<String> = Vec::new();
    assert_eq!(join(&none, " && "), "");
    assert_eq!(join(&vec!["a".to_string()], " && "), "a");
    assert_eq!(join(&vec!["a".to_string(), "b".to_string(), "".to_string()], ","), "a,b,");
}

#[test]
fn leading_slashes_are_trimmed() {
    assert_eq!(trim_leading_slashes("/usr"), "usr");
    assert_eq!(trim_leading_slashes("///a/b/"), "a/b/");
    assert_eq!(trim_leading_slashes("rel/path"), "rel/path");
    assert_eq!(trim_leading_slashes("/"), "");
    assert_eq!(trim_leading_slashes(""), "");
}

#[test]
fn nul_is_found_anywhere() {
    assert!(!contains_nul(""));
    assert!(!contains_nul("plain"));
    assert!(contains_nul("\0"));
    assert!(contains_nul("a\0b"));
    assert!(contains_nul("ab\0"));
}

#[test]
fn chars_and_concat_keep_unicode() {
    assert_eq!(chars_of("a\u{e9}\u{4e2d}"), vec!['a', '\u{e9}', '\u{4e2d}']);
    assert_eq!(followed_by("za\u{17c}", "\u{f3}\u{142}\u{107}"), "za\u{17c}\u{f3}\u{142}\u{107}");
    assert!(str_eq("abc", "abc"));
    assert!(!str_eq("abc", "abd"));
    assert!(!str_eq("abc", "ab"));
}

#[test]
fn objects_are_framed_without_spaces() {
    assert_eq!(frame_member("\"k\"", "1"), "\"k\":1");
    let none: Vec<String> = Vec::new();
    assert_eq!(frame_object(&none), "{}");
    assert_eq!(frame_object(&vec!["\"a\":1".to_string(), "\"b\":2".to_string()]), "{\"a\":1,\"b\":2}");
}
