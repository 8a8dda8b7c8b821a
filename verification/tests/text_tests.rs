use honkers_launcher::text::{chars_of, join_str, contains_str, owned, str_equals};

#[test]
fn substring_search() {
    assert!(contains_str("hello world", "o w"));
    assert!(contains_str("hello", ""));
    assert!(contains_str("hello", "hello"));
    assert!(!contains_str("hello", "hello!"));
    assert!(!contains_str("", "a"));
    assert!(contains_str("aaab", "aab"));
    assert!(contains_str("ünïcode", "nï"));
}

#[test]
fn equality_and_building() {
    assert!(str_equals("--debug", "--debug"));
    assert!(!str_equals("--debug", "--debu"));
    assert_eq!(owned("abc"), "abc".to_string());
    assert_eq!(join_str("ab", "cd"), "abcd".to_string());
    assert_eq!(chars_of("añb"), vec!['a', 'ñ', 'b']);
}
