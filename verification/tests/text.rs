use std::path::Path;
use safeexec::text::{
    chars_of, concat2, concat3, copy_range, decimal_string, has_prefix_chars, has_suffix_chars,
    is_space_char, join, next_word, parse_i32_chars, parse_u64_chars, push_signed_decimal,
    split_lines, string_of, trim_chars,
};

fn cs(s: &str) -> Vec<char> {
    s.chars().collect()
}

#[test]
fn chars_and_strings_round_trip() {
    assert_eq!(chars_of("añb"), vec!['a', 'ñ', 'b']);
    assert_eq!(string_of(&vec!['x', 'é']), "xé");
    assert_eq!(concat2("ab", "cd"), "abcd");
    assert_eq!(concat3("a", "b", "c"), "abc");
    assert_eq!(copy_range(&cs("hello"), 1, 3), cs("el"));
}

#[test]
fn whitespace_is_unicode_white_space() {
    assert!(is_space_char(' '));
    assert!(is_space_char('\n'));
    assert!(is_space_char('\u{3000}'));
    assert!(is_space_char('\u{85}'));
    assert!(!is_space_char('a'));
    assert!(!is_space_char('\u{200b}'));
    for c in ['\t', '\u{a0}', '\u{2009}', '\u{2028}', 'x', '\u{180e}'] {
        assert_eq!(is_space_char(c), c.is_whitespace());
    }
}

#[test]
fn trim_matches_str_trim() {
    for s in ["  a b  ", "\n\tx\u{3000}", "", "   ", "abc"] {
        assert_eq!(trim_chars(&cs(s)), cs(s.trim()));
    }
}

#[test]
fn u64_parsing_matches_std() {
    for s in ["0", "+12", "", "+", "-1", "18446744073709551615", "18446744073709551616", "1a", " 1", "007"] {
        assert_eq!(parse_u64_chars(&cs(s)), s.parse::<u64>().ok(), "{:?}", s);
    }
}

#[test]
fn i32_parsing_matches_std() {
    for s in ["-2147483648", "2147483647", "2147483648", "-2147483649", "-", "+-1", "-+1", "+5", "12\r"] {
        assert_eq!(parse_i32_chars(&cs(s)), s.parse::<i32>().ok(), "{:?}", s);
    }
}

#[test]
fn decimal_rendering() {
    assert_eq!(decimal_string(0), "0");
    assert_eq!(decimal_string(1234), "1234");
    assert_eq!(decimal_string(u64::MAX), u64::MAX.to_string());
    let mut s = String::new();
    push_signed_decimal(&mut s, -42);
    assert_eq!(s, "-42");
    let mut m = String::new();
    push_signed_decimal(&mut m, i64::MIN);
    assert_eq!(m, i64::MIN.to_string());
}

#[test]
fn decimal_reads_back() {
    for n in [0u64, 7, 10, 99, 100, 123456789, u64::MAX] {
        assert_eq!(parse_u64_chars(&cs(&decimal_string(n))), Some(n));
    }
}

#[test]
fn lines_match_str_lines() {
    for s in ["a\r\nb\n", "a\rb", "", "\n", "x\n\ny", "one", "a\r\n\r\n", "tail\r"] {
        let expected: Vec<Vec<char>> = s.lines().map(cs).collect();
        assert_eq!(split_lines(&cs(s)), expected, "{:?}", s);
    }
}

#[test]
fn words_are_found() {
    let line = cs("  oom_kill \t 3 ");
    let (a, b) = next_word(&line, 0).unwrap();
    assert_eq!(copy_range(&line, a, b), cs("oom_kill"));
    let (c, d) = next_word(&line, b).unwrap();
    assert_eq!(copy_range(&line, c, d), cs("3"));
    assert_eq!(next_word(&line, d), None);
}

#[test]
fn prefix_and_suffix() {
    assert!(has_prefix_chars(&cs("usage_usec 5"), &cs("usage_usec ")));
    assert!(!has_prefix_chars(&cs("usage"), &cs("usage_usec ")));
    assert!(has_suffix_chars(&cs("10ms"), &cs("ms")));
    assert!(!has_suffix_chars(&cs("s"), &cs("ms")));
}

#[test]
fn path_joining_matches_std() {
    for (b, r) in [("/a", "b"), ("/a/", "b"), ("/a", "/b"), ("", "b"), ("a", "")] {
        assert_eq!(join(b, r), Path::new(b).join(r).to_str().unwrap(), "{:?}", (b, r));
    }
}
