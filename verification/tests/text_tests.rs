use tcp_server::server::Address;
use tcp_server::text;

fn chars(s: &str) -> Vec<char> {
    s.chars().collect()
}

#[test]
fn strings_and_characters_convert_both_ways() {
    for s in ["", "a", "h\u{e9}llo \u{4e16}\u{754c} \u{1f600}", "\0\r\n"] {
        assert_eq!(text::chars_of(s), chars(s));
        assert_eq!(text::string_of(&chars(s)), s);
    }
    assert_eq!(text::string_of_range(&chars("h\u{e9}llo"), 1, 3), "\u{e9}l");
    assert_eq!(text::string_of_range(&chars("abc"), 3, 3), "");
    assert!(text::str_eq("\u{e9}", "\u{e9}"));
    assert!(!text::str_eq("e", "\u{e9}"));
    assert!(text::chars_eq(&chars("ab"), &chars("ab")));
    assert!(!text::chars_eq(&chars("ab"), &chars("abc")));
    assert!(!text::chars_eq(&chars("ab"), &chars("ac")));
}

#[test]
fn searching() {
    assert_eq!(text::find_char(&chars("a/b/c"), '/', 0), Some(1));
    assert_eq!(text::find_char(&chars("a/b/c"), '/', 1), Some(1));
    assert_eq!(text::find_char(&chars("a/b/c"), '/', 2), Some(3));
    assert_eq!(text::find_char(&chars("a/b/c"), '/', 4), None);
    assert_eq!(text::find_char(&chars("a/b/c"), '/', 9), None);
    assert_eq!(text::find_byte(b"GET / HTTP", b' ', 0), Some(3));
    assert_eq!(text::find_byte(b"GET / HTTP", b' ', 4), Some(5));
    assert_eq!(text::find_byte(b"", b' ', 0), None);
    assert_eq!(text::find_bytes(b"ab\r\n\r\ncd\r\n\r\n", b"\r\n\r\n"), Some(2));
    assert_eq!(text::find_bytes(b"ab\r\n\rcd", b"\r\n\r\n"), None);
    assert_eq!(text::find_bytes(b"\r\n\r\n", b"\r\n\r\n"), Some(0));
    assert_eq!(text::find_bytes(b"\r\n\r", b"\r\n\r\n"), None);
    assert_eq!(text::find_bytes(b"abc", b""), Some(0));
    assert_eq!(text::find_bytes(b"", b""), Some(0));
    assert_eq!(text::find_chars(&chars("xxabxab"), &chars("ab")), Some(2));
    assert_eq!(text::find_chars(&chars("xxabxab"), &chars("abc")), None);
    assert!(text::chars_match_at(&chars("xxab"), &chars("ab"), 2));
    assert!(!text::chars_match_at(&chars("xxab"), &chars("ab"), 3));
    assert!(!text::chars_match_at(&chars("xxab"), &chars("ab"), usize::MAX));
    assert!(text::bytes_match_at(b"xxab", b"", 4));
    assert!(!text::bytes_match_at(b"xxab", b"", 5));
}

#[test]
fn numbers_are_written_in_decimal() {
    assert_eq!(text::u64_to_string(0), "0");
    assert_eq!(text::u64_to_string(7), "7");
    assert_eq!(text::u64_to_string(10), "10");
    assert_eq!(text::u64_to_string(1234567890), "1234567890");
    assert_eq!(text::u64_to_string(u64::MAX), "18446744073709551615");
    assert_eq!(text::usize_to_string(404), "404");
    assert_eq!(text::i64_to_string(0), "0");
    assert_eq!(text::i64_to_string(-1), "-1");
    assert_eq!(text::i64_to_string(i64::MAX), "9223372036854775807");
    assert_eq!(text::i64_to_string(i64::MIN), "-9223372036854775808");
    let mut s = "n=".to_string();
    text::push_decimal(&mut s, 905);
    assert_eq!(s, "n=905");
    for n in [0u64, 9, 10, 99, 100, 101, 65535, 1 << 40] {
        assert_eq!(text::u64_to_string(n), n.to_string());
    }
}

#[test]
fn numbers_are_read_from_decimal() {
    assert_eq!(text::parse_usize(&chars("0")), Some(0));
    assert_eq!(text::parse_usize(&chars("+12")), Some(12));
    assert_eq!(text::parse_usize(&chars("0012")), Some(12));
    assert_eq!(text::parse_usize(&chars(&usize::MAX.to_string())), Some(usize::MAX));
    assert_eq!(text::parse_usize(&chars("18446744073709551616")), None);
    assert_eq!(text::parse_usize(&chars("99999999999999999999999999999")), None);
    assert_eq!(text::parse_usize(&chars("")), None);
    assert_eq!(text::parse_usize(&chars("+")), None);
    assert_eq!(text::parse_usize(&chars("-1")), None);
    assert_eq!(text::parse_usize(&chars("-0")), None);
    assert_eq!(text::parse_usize(&chars("1_000")), None);
    assert_eq!(text::parse_usize(&chars(" 1")), None);
    assert_eq!(text::parse_i64(&chars("-12")), Some(-12));
    assert_eq!(text::parse_i64(&chars("+12")), Some(12));
    assert_eq!(text::parse_i64(&chars("-0")), Some(0));
    assert_eq!(text::parse_i64(&chars("9223372036854775807")), Some(i64::MAX));
    assert_eq!(text::parse_i64(&chars("-9223372036854775808")), Some(i64::MIN));
    assert_eq!(text::parse_i64(&chars("9223372036854775808")), None);
    assert_eq!(text::parse_i64(&chars("-9223372036854775809")), None);
    assert_eq!(text::parse_i64(&chars("--1")), None);
    assert_eq!(text::parse_i64(&chars("1-")), None);
    for s in ["0", "-0", "+0", "17", "-17", "+17", "", "+", "-", "x", "1x", "00012", "9223372036854775808"] {
        assert_eq!(text::parse_i64(&chars(s)), s.parse::<i64>().ok(), "{s:?}");
        assert_eq!(text::parse_usize(&chars(s)), s.parse::<usize>().ok(), "{s:?}");
    }
}

#[test]
fn reading_an_integer_says_why_it_failed() {
    assert_eq!(text::read_i64("-45"), Ok(-45));
    for s in [
        "",
        "+",
        "-",
        "12a",
        "a",
        "9223372036854775808",
        "-9223372036854775809",
        "1 ",
        "99999999999999999999x",
        "-99999999999999999999x",
        "+99999999999999999999 1",
        "9223372036854775808x",
        "-9223372036854775809-",
        "9223372036854775807x",
        "-9223372036854775808x",
        "x99999999999999999999",
        "+-1",
        "000000000000000000000000000009223372036854775808",
    ] {
        assert_eq!(
            text::read_i64(s),
            Err(s.parse::<i64>().unwrap_err().to_string()),
            "{s:?}"
        );
    }
}

#[test]
fn trimming() {
    assert_eq!(text::trim_bounds(&chars("  a b \t\r\n")), (2, 5));
    assert_eq!(text::trim_bounds(&chars("")), (0, 0));
    assert_eq!(text::trim_bounds(&chars(" \u{a0}\u{3000} ")), (4, 4));
    assert_eq!(text::trim_bounds(&chars("ab")), (0, 2));
    assert_eq!(text::trim_bounds(&chars("\u{200b}a")), (0, 2));
    for s in ["", " ", " a", "a ", " a b ", "\t\n\u{b}\u{c}\r x\u{85}\u{1680}\u{2028}\u{205f}", "\u{200b} "] {
        let c = chars(s);
        let (from, to) = text::trim_bounds(&c);
        assert_eq!(text::string_of_range(&c, from, to), s.trim(), "{s:?}");
    }
    assert_eq!(text::trim_end_nul_len(&chars("ab\0\0")), 2);
    assert_eq!(text::trim_end_nul_len(&chars("\0a\0")), 2);
    assert_eq!(text::trim_end_nul_len(&chars("\0\0")), 0);
    assert_eq!(text::trim_end_nul_len(&chars("")), 0);
    let pat = chars("\r\n\r\n");
    assert_eq!(text::trim_end_pattern_len(&chars("ab\r\n\r\n\r\n\r\n"), 10, &pat), 2);
    assert_eq!(text::trim_end_pattern_len(&chars("ab\r\n\r\n\r\n\r\n"), 9, &pat), 9);
    assert_eq!(text::trim_end_pattern_len(&chars("ab\r\n\r\n\r\n\r\n"), 6, &pat), 2);
    assert_eq!(text::trim_end_pattern_len(&chars("\r\n\r\n"), 4, &pat), 0);
    assert_eq!(text::trim_end_pattern_len(&chars("\n\r\n\r\n"), 5, &pat), 1);
    assert_eq!(text::trim_end_pattern_len(&chars("abc"), 3, &chars("")), 3);
    assert_eq!(text::trim_end_pattern_len(&chars("ababab"), 6, &chars("ab")), 0);
}

#[test]
fn address_text() {
    assert_eq!(Address::IPv4("127.0.0.1:7878".to_string()).to_string(), "127.0.0.1:7878");
    assert_eq!(Address::IPv6("[::1]:7878".to_string()).to_string(), "[::1]:7878");
}
