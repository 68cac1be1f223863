use ingat::text::{
    chars_of, join, join3, decimal_string, eq_ignore_ascii_case, hyphenate, is_blank,
    is_token_separator_char, is_whitespace_char, parse_number, precedes, same_text, string_of,
    take_first_line, tokenize, trim,
};

const SAMPLES: [&str; 14] = [
    "",
    " ",
    "plain",
    "  padded\t\n",
    "\u{a0}no-break\u{3000}",
    "two  spaces",
    "tab\tinside",
    "line one\nline two",
    "crlf\r\nnext",
    "\nleading newline",
    "Ünïcödé ΣΑΣ",
    "a.b,c;d!e?f(g)h[i]j{k}l",
    "snake_case-and-kebab",
    "\u{1680}\u{2000}\u{200a}\u{2028}\u{2029}\u{202f}\u{205f}x\u{85}",
];

#[test]
fn whitespace_is_what_the_standard_library_says() {
    for code in 0u32..=0x10ffff {
        if let Some(c) = char::from_u32(code) {
            assert_eq!(is_whitespace_char(c), c.is_whitespace(), "U+{:04X}", code);
            assert_eq!(
                is_token_separator_char(c),
                c.is_ascii_whitespace() || c.is_ascii_punctuation(),
                "U+{:04X}",
                code
            );
        }
    }
}

#[test]
fn trimming_and_blankness_follow_the_standard_library() {
    for s in SAMPLES {
        assert_eq!(trim(s), s.trim(), "{:?}", s);
        assert_eq!(is_blank(s), s.trim().is_empty(), "{:?}", s);
        assert_eq!(string_of(&chars_of(s)), s);
    }
    assert_eq!(trim("  a  b  "), "a  b");
}

#[test]
fn first_line_stops_at_the_line_feed() {
    assert_eq!(take_first_line("one\ntwo\nthree"), "one");
    assert_eq!(take_first_line("\nsecond"), "");
    assert_eq!(take_first_line("no line feed"), "no line feed");
    assert_eq!(take_first_line("crlf\r\nnext"), "crlf\r");
    assert_eq!(take_first_line(""), "");
    for s in SAMPLES {
        assert_eq!(trim(&take_first_line(s)), s.lines().next().unwrap_or_default().trim());
    }
}

#[test]
fn hyphenation_collapses_runs_of_whitespace() {
    assert_eq!(hyphenate("bug fix"), "bug-fix");
    assert_eq!(hyphenate("a  b"), "a-b");
    assert_eq!(hyphenate("a \t\n b c"), "a-b-c");
    assert_eq!(hyphenate(" lead"), "-lead");
    assert_eq!(hyphenate("trail  "), "trail-");
    assert_eq!(hyphenate("already-there"), "already-there");
    assert_eq!(hyphenate(""), "");
    for s in SAMPLES {
        assert!(!hyphenate(s).chars().any(char::is_whitespace));
    }
}

#[test]
fn tokens_are_the_runs_between_separators() {
    for s in SAMPLES {
        let expected: Vec<&str> = s
            .split(|c: char| c.is_ascii_whitespace() || c.is_ascii_punctuation())
            .filter(|t| !t.is_empty())
            .collect();
        assert_eq!(tokenize(s), expected, "{:?}", s);
    }
    assert_eq!(tokenize("fix: null-check (guard)"), vec!["fix", "null", "check", "guard"]);
    assert_eq!(tokenize("  ...  "), Vec::<String>::new());
    assert_eq!(tokenize("a\u{a0}b"), vec!["a\u{a0}b"]);
}

#[test]
fn numbers_are_written_and_read_in_decimal() {
    for n in [0usize, 1, 9, 10, 11, 99, 100, 640, 3200, 16000, 65535, usize::MAX] {
        assert_eq!(decimal_string(n), n.to_string());
        assert_eq!(parse_number(&n.to_string(), u64::MAX), Some(n as u64));
    }
    for s in ["", "+", "-", "-0", "+-1", "1 ", " 1", "1_000", "0x10", "١٢", "1.5", "12a", "++1"] {
        assert_eq!(parse_number(s, u64::MAX), s.parse::<u64>().ok(), "{:?}", s);
    }
    for s in ["0", "+7", "007", "65535", "65536", "99999999999999999999", "18446744073709551615", "18446744073709551616"] {
        assert_eq!(parse_number(s, u64::MAX), s.parse::<u64>().ok(), "{:?}", s);
        assert_eq!(parse_number(s, 0xffff), s.parse::<u16>().ok().map(u64::from), "{:?}", s);
        assert_eq!(parse_number(s, 0), s.parse::<u64>().ok().filter(|n| *n == 0), "{:?}", s);
    }
}

#[test]
fn comparisons_follow_the_standard_library() {
    for a in SAMPLES {
        for b in SAMPLES {
            assert_eq!(same_text(a, b), a == b);
            assert_eq!(precedes(a, b), a < b, "{:?} {:?}", a, b);
            assert_eq!(eq_ignore_ascii_case(a, b), a.eq_ignore_ascii_case(b));
        }
    }
    assert!(eq_ignore_ascii_case("Ingat/Simple-HASH", "ingat/simple-hash"));
    assert!(!eq_ignore_ascii_case("É", "é"));
    assert!(!eq_ignore_ascii_case("@", "`"));
    assert!(!eq_ignore_ascii_case("[", "{"));
    assert!(precedes("Z", "a"));
    assert!(precedes("a", "ab"));
    assert!(precedes("z", "é"));
    assert!(!precedes("same", "same"));
}

#[test]
fn texts_are_joined_in_order() {
    assert_eq!(join("ab", "cd"), "abcd");
    assert_eq!(join("", ""), "");
    assert_eq!(join3("a", "", "c"), "ac");
}
