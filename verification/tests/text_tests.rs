use oktebot::text::{i64_to_string, str_is_blank, str_trim_start, u64_to_string};

#[test]
fn decimal_notation_matches_to_string() {
    for n in [0u64, 7, 10, 99, 100, 4294967296, u64::MAX] {
        assert_eq!(u64_to_string(n), n.to_string());
    }
    for n in [0i64, -1, 9, -10, 12345, i64::MAX, i64::MIN] {
        assert_eq!(i64_to_string(n), n.to_string());
    }
}

#[test]
fn blank_means_only_whitespace() {
    assert!(str_is_blank(""));
    assert!(str_is_blank(" \t\n\u{3000}"));
    assert!(!str_is_blank(" x "));
}

#[test]
fn trim_start_matches_std() {
    for s in ["", "  a b ", "\u{00a0}x", "\u{200b}x", "\t\n", "abc"] {
        assert_eq!(str_trim_start(s), s.trim_start());
        assert_eq!(str_is_blank(s), s.trim().is_empty());
    }
}
