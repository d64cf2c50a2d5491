use browser_host::normalize::normalize_url;
use browser_host::text::{contains_char, trim};

#[test]
fn bare_host_gets_https() {
    assert_eq!(normalize_url("example.com"), "https://example.com/");
}

#[test]
fn https_url_kept_canonical() {
    assert_eq!(normalize_url("https://example.com"), "https://example.com/");
}

#[test]
fn http_url_kept() {
    assert_eq!(normalize_url("http://example.com/path"), "http://example.com/path");
}

#[test]
fn upper_case_scheme_and_host_canonicalized() {
    assert_eq!(normalize_url("HTTPS://EXAMPLE.COM"), "https://example.com/");
}

#[test]
fn input_is_trimmed() {
    assert_eq!(normalize_url("  example.com\t"), "https://example.com/");
}

#[test]
fn free_text_becomes_search_query() {
    assert_eq!(
        normalize_url("what is rust"),
        "https://www.google.com/search?q=what%20is%20rust"
    );
}

#[test]
fn dotted_text_with_space_becomes_search_query() {
    assert_eq!(
        normalize_url("mr. smith"),
        "https://www.google.com/search?q=mr.%20smith"
    );
}

#[test]
fn punctuation_is_percent_encoded() {
    assert_eq!(normalize_url("hello!"), "https://www.google.com/search?q=hello%21");
}

#[test]
fn colon_without_dot_becomes_search_query() {
    assert_eq!(
        normalize_url("localhost:8080"),
        "https://www.google.com/search?q=localhost%3A8080"
    );
}

#[test]
fn non_ascii_is_percent_encoded_by_utf8_byte() {
    assert_eq!(
        normalize_url("héllo wörld"),
        "https://www.google.com/search?q=h%C3%A9llo%20w%C3%B6rld"
    );
}

#[test]
fn empty_input_becomes_empty_search() {
    assert_eq!(normalize_url(""), "https://www.google.com/search?q=");
}

#[test]
fn blank_input_becomes_empty_search() {
    assert_eq!(normalize_url(" \t "), "https://www.google.com/search?q=");
}

#[test]
fn trim_removes_both_ends() {
    assert_eq!(trim("  spaced out \n"), "spaced out");
    assert_eq!(trim(""), "");
    assert_eq!(trim(" \t\r\n"), "");
    assert_eq!(trim("tight"), "tight");
}

#[test]
fn contains_char_finds_characters() {
    assert!(contains_char("example.com", '.'));
    assert!(!contains_char("example.com", ' '));
    assert!(!contains_char("", '.'));
}
