use slauncher_backend::text::{
    chars_of, contains_str, find_char_exec, fmt_i32, fmt_u16, lines_of, parse_i32_chars,
    parse_u16_chars, string_of, trim_chars,
};

fn cs(s: &str) -> Vec<char> {
    s.chars().collect()
}

#[test]
fn chars_and_string_round_trip() {
    assert_eq!(chars_of("héllo"), vec!['h', 'é', 'l', 'l', 'o']);
    assert_eq!(string_of(&cs("héllo")), "héllo");
    assert_eq!(chars_of(""), Vec::<char>::new());
}

#[test]
fn trim_removes_unicode_whitespace() {
    assert_eq!(trim_chars(&cs("  a b \t\r")), cs("a b"));
    assert_eq!(trim_chars(&cs("\u{3000}x\u{A0}")), cs("x"));
    assert_eq!(trim_chars(&cs("   ")), cs(""));
    assert_eq!(trim_chars(&cs("")), cs(""));
    for s in ["  a=b  ", "\tq\n", "x", " \u{2003} y \u{2028}"] {
        assert_eq!(trim_chars(&cs(s)), cs(s.trim()));
    }
}

#[test]
fn lines_split_like_str_lines() {
    for s in ["", "a", "a\n", "a\nb", "a\r\nb\r\n", "\n", "\n\n", "a\r", "a\r\r\nb", "x\n\ny\n"] {
        let got: Vec<String> = lines_of(&cs(s)).iter().map(|l| l.iter().collect()).collect();
        let want: Vec<String> = s.lines().map(|l| l.to_string()).collect();
        assert_eq!(got, want, "input {:?}", s);
    }
}

#[test]
fn find_first_occurrence() {
    assert_eq!(find_char_exec(&cs("a=b=c"), '='), Some(1));
    assert_eq!(find_char_exec(&cs("abc"), '='), None);
    assert_eq!(find_char_exec(&cs("=x"), '='), Some(0));
}

#[test]
fn decimal_formatting_matches_to_string() {
    for x in [0, 7, -7, 10, 42, -100, 2147483647, -2147483648, 1000000] {
        assert_eq!(fmt_i32(x), x.to_string());
    }
    for x in [0u16, 9, 10, 25565, 65535] {
        assert_eq!(fmt_u16(x), x.to_string());
    }
}

#[test]
fn parse_i32_matches_std() {
    for s in [
        "", "+", "-", "0", "-0", "+0", "42", "+42", "-42", "007", "2147483647", "2147483648",
        "-2147483648", "-2147483649", "99999999999", "1a", " 1", "1 ", "--1", "+-1", "١",
    ] {
        assert_eq!(parse_i32_chars(&cs(s)), s.parse::<i32>().ok(), "input {:?}", s);
    }
}

#[test]
fn parse_u16_matches_std() {
    for s in ["", "+", "-", "0", "+5", "-5", "-0", "65535", "65536", "25565", "00080", "8o"] {
        assert_eq!(parse_u16_chars(&cs(s)), s.parse::<u16>().ok(), "input {:?}", s);
    }
}

#[test]
fn substring_search() {
    assert!(contains_str("table \"servers\" already exists", "already exists"));
    assert!(!contains_str("no such table", "already exists"));
    assert!(contains_str("abc", ""));
    assert!(!contains_str("ab", "abc"));
    assert!(contains_str("already exists", "already exists"));
}
