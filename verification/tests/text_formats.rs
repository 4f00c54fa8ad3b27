use std::path::Path;
use sigil::text::{
    chars_eq, format_i32, format_u32, has_word, parse_i32, path_is_absolute, path_join,
    split_lines, split_whitespace, starts_with, to_chars,
};

fn chars(s: &str) -> Vec<char> {
    s.chars().collect()
}

fn strings(v: &[Vec<char>]) -> Vec<String> {
    v.iter().map(|c| c.iter().collect()).collect()
}

#[test]
fn format_i32_writes_decimal() {
    assert_eq!(format_i32(0), "0");
    assert_eq!(format_i32(7), "7");
    assert_eq!(format_i32(12345), "12345");
    assert_eq!(format_i32(-42), "-42");
    assert_eq!(format_i32(i32::MAX), "2147483647");
    assert_eq!(format_i32(i32::MIN), "-2147483648");
}

#[test]
fn format_u32_writes_decimal() {
    assert_eq!(format_u32(0), "0");
    assert_eq!(format_u32(4242), "4242");
    assert_eq!(format_u32(u32::MAX), "4294967295");
}

#[test]
fn parse_i32_accepts_what_std_accepts() {
    assert_eq!(parse_i32(&chars("1234")), Some(1234));
    assert_eq!(parse_i32(&chars("+7")), Some(7));
    assert_eq!(parse_i32(&chars("-7")), Some(-7));
    assert_eq!(parse_i32(&chars("0012")), Some(12));
    assert_eq!(parse_i32(&chars("2147483647")), Some(i32::MAX));
    assert_eq!(parse_i32(&chars("-2147483648")), Some(i32::MIN));
}

#[test]
fn parse_i32_refuses_what_std_refuses() {
    assert_eq!(parse_i32(&chars("")), None);
    assert_eq!(parse_i32(&chars("+")), None);
    assert_eq!(parse_i32(&chars("-")), None);
    assert_eq!(parse_i32(&chars("1a")), None);
    assert_eq!(parse_i32(&chars(" 1")), None);
    assert_eq!(parse_i32(&chars("2147483648")), None);
    assert_eq!(parse_i32(&chars("-2147483649")), None);
    assert_eq!(parse_i32(&chars("99999999999999999999x")), None);
}

#[test]
fn parse_i32_agrees_with_std_on_samples() {
    for s in ["0", "-0", "+0", "10", "-10", "x", "", "--1", "+-1", "123456789012", "00000000000000000001"] {
        assert_eq!(parse_i32(&chars(s)), s.parse::<i32>().ok(), "input {:?}", s);
    }
}

#[test]
fn format_then_parse_roundtrip() {
    for n in [0, 1, -1, 9, 10, -10, 65535, i32::MAX, i32::MIN, 1234567] {
        let s = format_i32(n);
        assert_eq!(parse_i32(&chars(&s)), Some(n));
    }
}

#[test]
fn split_whitespace_matches_std() {
    for s in ["", "  ", "cpu memory io", "\tcpu\n memory  ", "a\u{A0}b\u{3000}c", "x"] {
        let mine = strings(&split_whitespace(&chars(s)));
        let std: Vec<String> = s.split_whitespace().map(|w| w.to_string()).collect();
        assert_eq!(mine, std, "input {:?}", s);
    }
}

#[test]
fn split_lines_matches_std() {
    for s in ["", "a", "a\n", "a\nb", "a\r\nb\r\n", "a\r", "\n\n", "x\r\r\ny"] {
        let mine = strings(&split_lines(&chars(s)));
        let std: Vec<String> = s.lines().map(|l| l.to_string()).collect();
        assert_eq!(mine, std, "input {:?}", s);
    }
}

#[test]
fn has_word_finds_whole_words() {
    assert!(has_word(&chars("cpu memory io\n"), &chars("memory")));
    assert!(!has_word(&chars("cpu memoryx io"), &chars("memory")));
    assert!(!has_word(&chars(""), &chars("memory")));
}

#[test]
fn prefix_and_equality() {
    assert!(starts_with(&chars("--rootfs"), &chars("--")));
    assert!(!starts_with(&chars("-"), &chars("--")));
    assert!(chars_eq(&chars("abc"), &to_chars("abc")));
    assert!(!chars_eq(&chars("abc"), &chars("abd")));
}

#[test]
fn path_join_follows_path_join_of_std() {
    for (base, p) in [("/home/u", "./rootfs"), ("/", "rootfs"), ("/a/", "b"), ("/a", "/abs"), ("", "x"), ("/a", "")] {
        let expected = Path::new(base).join(p).to_string_lossy().into_owned();
        assert_eq!(path_join(base, p), expected, "{:?} {:?}", base, p);
    }
    assert!(path_is_absolute("/x"));
    assert!(!path_is_absolute("x/y"));
    assert!(!path_is_absolute(""));
}
