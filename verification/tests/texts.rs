use rapture_core::storage::{log_lines, StoreError};
use rapture_core::text::{
    after_start, contains_text, decimal, hex, is_white, parse_number, split_lines, split_on,
    starts_with, to_lower, to_upper, trim,
};

#[test]
fn white_space_is_that_of_unicode() {
    for n in 0..=0x10_ffffu32 {
        if let Some(c) = char::from_u32(n) {
            assert_eq!(is_white(c), c.is_whitespace(), "{n:x}");
        }
    }
}

#[test]
fn texts_are_cut_as_expected() {
    for text in ["", " ", "  a b\u{a0}\n", "x", "\t\r\n", "ä ö"] {
        assert_eq!(trim(text), text.trim());
        assert_eq!(split_lines(text), text.lines().collect::<Vec<_>>());
        assert_eq!(split_on(text, ' '), text.split(' ').collect::<Vec<_>>());
        assert_eq!(to_lower(text), text.to_ascii_lowercase());
        assert_eq!(to_upper(text), text.to_ascii_uppercase());
    }
    for text in ["a\nb", "a\r\nb\r\n", "\n\n", "a\rb\n", "end\n\n"] {
        assert_eq!(split_lines(text), text.lines().collect::<Vec<_>>());
    }
    assert_eq!(split_on("a,,b,", ','), vec!["a", "", "b", ""]);
    assert!(starts_with("git+https", "git+"));
    assert!(!starts_with("git", "git+"));
    assert!(contains_text("x@sha256:1", "@sha256:"));
    assert!(!contains_text("x@sha1:1", "@sha256:"));
    assert_eq!(after_start("git+x", "git+").as_deref(), Some("x"));
    assert_eq!(after_start("x", "git+"), None);
}

#[test]
fn numbers_are_written_and_read() {
    for n in [0, 7, 10, 1234567890, u64::MAX] {
        assert_eq!(decimal(n), n.to_string());
        assert_eq!(hex(n, 16), format!("{n:016x}"));
        assert_eq!(parse_number(&n.to_string(), u64::MAX), Some(n));
    }
    for bad in ["", "-1", "a", "1 ", "18446744073709551616", "1.0"] {
        assert_eq!(parse_number(bad, u64::MAX), bad.parse::<u64>().ok(), "{bad}");
    }
    assert_eq!(parse_number("+5", u64::MAX), "+5".parse::<u64>().ok());
    assert_eq!(parse_number("256", 255), None);
}

#[test]
fn lines_of_a_log_are_counted() {
    let lines = log_lines("one\n\n  \nfour\n");
    assert_eq!(lines.len(), 2);
    assert_eq!((lines[0].line, lines[0].text.as_str()), (1, "one"));
    assert_eq!((lines[1].line, lines[1].text.as_str()), (4, "four"));
    assert_eq!(
        StoreError::InvalidOpLog { line: 4, message: "bad".to_string() }.message(),
        "invalid operation log at line 4: bad"
    );
    assert_eq!(StoreError::Io("x".to_string()).message(), "io error: x");
    assert_eq!(StoreError::Json("x".to_string()).message(), "json error: x");
}
