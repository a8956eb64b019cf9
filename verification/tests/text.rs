use passforge::text::{is_blank, is_no, is_yes, parse_usize, same_text, trim, trimmed_char};

#[test]
fn trim_removes_ascii_whitespace() {
    assert_eq!(trim("  hello world \t\r\n"), "hello world");
    assert_eq!(trim("plain"), "plain");
    assert_eq!(trim(""), "");
    assert_eq!(trim(" \t "), "");
}

#[test]
fn trim_removes_unicode_whitespace() {
    assert_eq!(trim("\u{3000}x y\u{a0}\u{2009}"), "x y");
    assert_eq!(trim("\u{85}\u{1680}k\u{2028}"), "k");
    assert_eq!(trim("\u{200b}z"), "\u{200b}z");
}

#[test]
fn trim_matches_std() {
    for s in ["  a ", "\u{205f}b\u{202f}", "\n\n", "x\u{2029}", "é ü", "\u{b}\u{c}q\u{d}"] {
        assert_eq!(trim(s), s.trim());
    }
}

#[test]
fn trim_twice_is_trim_once() {
    let s = " \t  several words\u{3000} ";
    assert_eq!(trim(trim(s)), trim(s));
}

#[test]
fn same_text_compares_characters() {
    assert!(same_text("abc", "abc"));
    assert!(!same_text("abc", "abd"));
    assert!(!same_text("abc", "ab"));
    assert!(same_text("", ""));
}

#[test]
fn trimmed_char_takes_single_characters() {
    assert_eq!(trimmed_char(" 3 \n"), Some('3'));
    assert_eq!(trimmed_char("12"), None);
    assert_eq!(trimmed_char("  "), None);
}

#[test]
fn yes_and_no_replies() {
    assert!(is_yes("y"));
    assert!(is_yes(" Y \n"));
    assert!(!is_yes("yes"));
    assert!(!is_yes(""));
    assert!(is_no("n"));
    assert!(is_no("N\n"));
    assert!(!is_no("no"));
    assert!(!is_no("y"));
}

#[test]
fn blank_replies() {
    assert!(is_blank(""));
    assert!(is_blank(" \t\n"));
    assert!(!is_blank(" a "));
}

#[test]
fn parse_usize_accepts_what_std_accepts() {
    assert_eq!(parse_usize("42"), Some(42));
    assert_eq!(parse_usize("+7"), Some(7));
    assert_eq!(parse_usize("007"), Some(7));
    assert_eq!(parse_usize("0"), Some(0));
    assert_eq!(parse_usize(&usize::MAX.to_string()), Some(usize::MAX));
}

#[test]
fn parse_usize_rejects_what_std_rejects() {
    assert_eq!(parse_usize(""), None);
    assert_eq!(parse_usize("+"), None);
    assert_eq!(parse_usize("-1"), None);
    assert_eq!(parse_usize("1a"), None);
    assert_eq!(parse_usize(" 1"), None);
    assert_eq!(parse_usize("١"), None);
    let too_big = format!("{}0", usize::MAX);
    assert_eq!(parse_usize(&too_big), None);
}

#[test]
fn parse_usize_matches_std() {
    for s in ["", "0", "+", "++1", "+12", "-0", "99999999999999999999999", "12 ", "3"] {
        assert_eq!(parse_usize(s), s.parse::<usize>().ok());
    }
}
