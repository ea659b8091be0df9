use bunkr_uploader::text::{
    joined, contains, decimal_string, lines, owned, parse_u64, trim, trim_quotes,
};

#[test]
fn decimal_string_renders_numbers() {
    assert_eq!(decimal_string(0), "0");
    assert_eq!(decimal_string(7), "7");
    assert_eq!(decimal_string(25_000_000), "25000000");
    assert_eq!(decimal_string(u64::MAX), "18446744073709551615");
}

#[test]
fn parse_u64_follows_str_parse() {
    assert_eq!(parse_u64("42"), Some(42));
    assert_eq!(parse_u64("+7"), Some(7));
    assert_eq!(parse_u64("007"), Some(7));
    assert_eq!(parse_u64(""), None);
    assert_eq!(parse_u64("+"), None);
    assert_eq!(parse_u64("-1"), None);
    assert_eq!(parse_u64(" 5"), None);
    assert_eq!(parse_u64("12a"), None);
    assert_eq!(parse_u64("18446744073709551615"), Some(u64::MAX));
    assert_eq!(parse_u64("18446744073709551616"), None);
    assert_eq!(parse_u64("99999999999999999999x"), None);
    for s in ["0", "+0", "1x", "１", "-0", "340282366920938463463374607431768211455"] {
        assert_eq!(parse_u64(s), s.parse::<u64>().ok(), "input {:?}", s);
    }
}

#[test]
fn decimal_rendering_parses_back() {
    for n in [0u64, 1, 9, 10, 99, 100, 1234567890, u64::MAX] {
        assert_eq!(parse_u64(&decimal_string(n)), Some(n));
    }
}

#[test]
fn trim_removes_unicode_white_space() {
    assert_eq!(trim("  hello world \n"), "hello world");
    assert_eq!(trim("\t\r\n"), "");
    assert_eq!(trim("\u{3000}x\u{85}\u{a0}"), "x");
    assert_eq!(trim("\u{200b}x"), "\u{200b}x");
    for s in ["", " a ", "\u{2028}b\u{2029}", "\u{1680}\u{202f}c d\u{205f}", "\x0b\x0ce\x0c"] {
        assert_eq!(trim(s), s.trim(), "input {:?}", s);
    }
}

#[test]
fn trim_quotes_strips_surrounding_quotes() {
    assert_eq!(trim_quotes("\"https://x.example/upload\""), "https://x.example/upload");
    assert_eq!(trim_quotes("\"\"a\"b\"\""), "a\"b");
    assert_eq!(trim_quotes("null"), "null");
    assert_eq!(trim_quotes("\"\""), "");
}

#[test]
fn contains_finds_substrings() {
    assert!(contains("/home/u/a.txt\na.txt\n", "a.txt"));
    assert!(contains("abc", ""));
    assert!(contains("", ""));
    assert!(!contains("abc", "abcd"));
    assert!(!contains("abc", "ac"));
    assert!(contains("xxéy", "éy"));
}

#[test]
fn lines_follows_str_lines() {
    assert_eq!(lines("a\r\nb\n\nc\r"), vec!["a", "b", "", "c\r"]);
    assert_eq!(lines("a\n"), vec!["a"]);
    assert_eq!(lines(""), Vec::<String>::new());
    assert_eq!(lines("\n"), vec![""]);
    for s in ["x\ny\n", "\r\n\r\n", "one", "p\rq\n"] {
        let expected: Vec<String> = s.lines().map(|l| l.to_string()).collect();
        assert_eq!(lines(s), expected, "input {:?}", s);
    }
}

#[test]
fn owned_and_concat_copy_text() {
    assert_eq!(owned("ab"), "ab");
    assert_eq!(joined("ab", "cd"), "abcd");
    assert_eq!(joined("", ""), "");
}
