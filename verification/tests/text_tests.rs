use veln::text::{
    dec_string, parse_unsigned, text_contains, text_ends_with, text_join, text_lines,
    text_split, text_starts_with, text_strip_prefix, text_trim, text_words, IntErrorKind,
};

#[test]
fn decimal_text() {
    assert_eq!(dec_string(0), "0");
    assert_eq!(dec_string(1024), "1024");
    assert_eq!(dec_string(u64::MAX), "18446744073709551615");
}

#[test]
fn lines_match_std() {
    for s in ["", "a", "a\n", "a\r\nb", "a\n\nb\n", "\n", "x\r", "a\rb\n"] {
        let ours = text_lines(s);
        let std: Vec<String> = s.lines().map(String::from).collect();
        assert_eq!(ours, std, "lines of {s:?}");
    }
}

#[test]
fn split_and_words_match_std() {
    for s in ["", "a\tb\tc", "\t", "a@b@c", " x  y\tz\n", "x"] {
        let ours = text_split(s, '\t');
        let std: Vec<String> = s.split('\t').map(String::from).collect();
        assert_eq!(ours, std);
        let w = text_words(s);
        let stdw: Vec<String> = s.split_whitespace().map(String::from).collect();
        assert_eq!(w, stdw);
    }
}

#[test]
fn trim_matches_std() {
    for s in ["", "  1\n", "\u{a0}x\u{3000}", "a b", "\t\t"] {
        assert_eq!(text_trim(s), s.trim());
    }
}

#[test]
fn prefix_suffix_and_contains() {
    assert!(text_starts_with("/api/vms/x", "/api/vms/"));
    assert!(!text_starts_with("/api", "/api/vms/"));
    assert!(text_ends_with("abc\n", "\n"));
    assert!(!text_ends_with("", "\n"));
    assert!(text_contains("x [api.keys] y", "[api.keys]"));
    assert!(!text_contains("[api]", "[api.keys]"));
    assert!(text_contains("abc", ""));
    assert_eq!(text_strip_prefix("Bearer k1", "Bearer "), Some("k1".to_string()));
    assert_eq!(text_strip_prefix("Basic k1", "Bearer "), None);
}

#[test]
fn join_matches_std() {
    let v = vec!["a".to_string(), "b".to_string(), "c".to_string()];
    assert_eq!(text_join(&v, ", "), "a, b, c");
    assert_eq!(text_join(&Vec::new(), ", "), "");
}

#[test]
fn parse_matches_std() {
    for s in ["0", "42", "+7", "+", "-", "-1", "", "12a", "18446744073709551615", "18446744073709551616", "99999999999999999999x", "1 2"] {
        let ours = parse_unsigned(s, u64::MAX);
        match s.parse::<u64>() {
            Ok(v) => assert_eq!(ours, Ok(v), "{s:?}"),
            Err(e) => {
                let k = match e.kind() {
                    std::num::IntErrorKind::Empty => IntErrorKind::Empty,
                    std::num::IntErrorKind::InvalidDigit => IntErrorKind::InvalidDigit,
                    std::num::IntErrorKind::PosOverflow => IntErrorKind::PosOverflow,
                    _ => panic!("unexpected kind"),
                };
                assert_eq!(ours, Err(k), "{s:?}");
                assert_eq!(veln::text::int_error_text(k), e.to_string());
            }
        }
    }
    assert_eq!(parse_unsigned("300", 255), Err(IntErrorKind::PosOverflow));
}
