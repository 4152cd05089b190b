use journal::text::html_escape;
use journal::text::trim_str;
use journal::text::u64_to_string;

#[test]
fn trim_removes_leading_and_trailing_whitespace() {
    assert_eq!(trim_str("  Hello world  "), "Hello world");
}

#[test]
fn trim_keeps_interior_whitespace() {
    assert_eq!(trim_str("a \t b"), "a \t b");
}

#[test]
fn trim_of_empty_is_empty() {
    assert_eq!(trim_str(""), "");
}

#[test]
fn trim_of_whitespace_only_is_empty() {
    assert_eq!(trim_str(" \t\r\n "), "");
}

#[test]
fn trim_handles_unicode_whitespace() {
    assert_eq!(trim_str("\u{3000}\u{2003}entry\u{00a0}"), "entry");
}

#[test]
fn trim_of_already_trimmed_is_identity() {
    assert_eq!(trim_str("Hello world"), "Hello world");
}

#[test]
fn decimal_of_zero() {
    assert_eq!(u64_to_string(0), "0");
}

#[test]
fn decimal_of_eleven() {
    assert_eq!(u64_to_string(11), "11");
}

#[test]
fn decimal_of_large_number() {
    assert_eq!(u64_to_string(1234567890), "1234567890");
}

#[test]
fn decimal_of_max() {
    assert_eq!(u64_to_string(u64::MAX), "18446744073709551615");
}

#[test]
fn escape_replaces_special_characters() {
    assert_eq!(
        html_escape("<b>\"a\" & 'b'</b>"),
        "&lt;b&gt;&quot;a&quot; &amp; 'b'&lt;/b&gt;"
    );
}

#[test]
fn escape_leaves_plain_text_alone() {
    assert_eq!(html_escape("Hello world"), "Hello world");
}
