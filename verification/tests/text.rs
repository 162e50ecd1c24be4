use blog_comments::numbers::{parse_i32, parse_i64, parse_u128, push_decimal, push_signed_decimal};
use blog_comments::text::{collapse_whitespace, contains_str, prefix_before, starts_with, str_eq, to_ascii_lowercase, trim, trim_end};
use blog_comments::utils::{escape_html, escape_multiline};

#[test]
fn trimming_follows_unicode_white_space() {
    assert_eq!(trim("  a b \t"), "a b");
    assert_eq!(trim("\u{2003}x\u{205f}"), "x");
    assert_eq!(trim("   "), "");
    assert_eq!(trim_end(" a  "), " a");
    assert_eq!(" \u{85}a".trim(), trim(" \u{85}a"));
}

#[test]
fn whitespace_collapses_to_single_spaces() {
    assert_eq!(collapse_whitespace("  a \n\n b\tc  "), "a b c");
    assert_eq!(collapse_whitespace(""), "");
    assert_eq!(collapse_whitespace(" \t "), "");
    assert_eq!(collapse_whitespace("one"), "one");
}

#[test]
fn comparisons_and_cases() {
    assert!(str_eq("abc", "abc"));
    assert!(!str_eq("abc", "abd"));
    assert!(starts_with("de-DE", "de"));
    assert!(!starts_with("d", "de"));
    assert!(contains_str("text/html, application/json", "application/json"));
    assert!(!contains_str("text/html", "application/json"));
    assert_eq!(to_ascii_lowercase("ÄbC-Z"), "Äbc-z");
    assert_eq!(prefix_before("/a?b?c", '?'), "/a");
    assert_eq!(prefix_before("/a", '?'), "/a");
}

#[test]
fn numbers_parse_like_std() {
    for s in ["0", "+7", "-7", "007", "2147483647", "-2147483648", "2147483648", "", "+", "-", "1 ", "x1", "99999999999999999999"] {
        assert_eq!(parse_i32(s), s.parse::<i32>().ok(), "i32 {s:?}");
        assert_eq!(parse_i64(s), s.parse::<i64>().ok(), "i64 {s:?}");
        assert_eq!(parse_u128(s), s.parse::<u128>().ok(), "u128 {s:?}");
    }
    assert_eq!(parse_i64("-9223372036854775808"), Some(i64::MIN));
    assert_eq!(parse_i64("9223372036854775808"), None);
    assert_eq!(parse_u128("-0"), None);
}

#[test]
fn numbers_print_in_decimal() {
    let mut s = String::new();
    push_decimal(&mut s, 0);
    s.push(' ');
    push_decimal(&mut s, u64::MAX);
    s.push(' ');
    push_signed_decimal(&mut s, i64::MIN);
    s.push(' ');
    push_signed_decimal(&mut s, -5);
    assert_eq!(s, format!("0 {} {} -5", u64::MAX, i64::MIN));
}

#[test]
fn html_escaping() {
    assert_eq!(escape_html(r#"<a href="x">Tom & Jerry's</a>"#), "&lt;a href=&quot;x&quot;&gt;Tom &amp; Jerry&#39;s&lt;/a&gt;");
    assert_eq!(escape_html("plain ü"), "plain ü");
    assert_eq!(escape_multiline("a\nb & <c>\n"), "a<br>b &amp; &lt;c&gt;<br>");
}

#[test]
fn trimming_twice_is_trimming_once() {
    for s in ["", "  a  ", "\u{3000}x y\t", "   "] {
        let once = trim(s);
        assert_eq!(trim(&once), once);
    }
}

#[test]
fn escaped_text_holds_no_markup_characters() {
    let e = escape_html("<img src=x onerror='alert(1)'> \"&\"");
    assert!(!e.contains('<') && !e.contains('>') && !e.contains('"') && !e.contains('\''));
    let m = escape_multiline("a\n<b>\n'c'");
    assert_eq!(m.matches('<').count(), m.matches("<br>").count());
}
