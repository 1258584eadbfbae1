use audioshare_core::strutil::{
    contains_sub, find_last_char, find_sub, parse_u16, str_eq, trim_str, u16_to_dec, u32_to_dec,
};

#[test]
fn parse_u16_accepts_plain_digits() {
    assert_eq!(parse_u16("5000"), Some(5000));
    assert_eq!(parse_u16("0"), Some(0));
    assert_eq!(parse_u16("65535"), Some(65535));
}

#[test]
fn parse_u16_accepts_a_leading_plus() {
    assert_eq!(parse_u16("+123"), Some(123));
}

#[test]
fn parse_u16_rejects_overflow() {
    assert_eq!(parse_u16("65536"), None);
    assert_eq!(parse_u16("999999"), None);
}

#[test]
fn parse_u16_rejects_junk() {
    assert_eq!(parse_u16(""), None);
    assert_eq!(parse_u16("+"), None);
    assert_eq!(parse_u16(" 5"), None);
    assert_eq!(parse_u16("12a"), None);
    assert_eq!(parse_u16("-3"), None);
}

#[test]
fn parse_u16_matches_std() {
    for s in ["5000", "+123", "65535", "65536", "", "+", " 5", "12a", "007"] {
        assert_eq!(parse_u16(s), s.parse::<u16>().ok(), "on {:?}", s);
    }
}

#[test]
fn decimal_rendering_matches_std() {
    for x in [0u32, 7, 10, 65530, 12345, 4294967295] {
        assert_eq!(u32_to_dec(x), x.to_string());
    }
    assert_eq!(u16_to_dec(65530), "65530");
    assert_eq!(u16_to_dec(0), "0");
}

#[test]
fn substring_search_finds_first_occurrence() {
    assert_eq!(find_sub("abcabc", "bc"), Some(1));
    assert_eq!(find_sub("abc", "cd"), None);
    assert!(contains_sub("x [info] accept y", "[info] accept"));
    assert!(!contains_sub("x [info] acc y", "[info] accept"));
}

#[test]
fn char_search_finds_last_occurrence() {
    assert_eq!(find_last_char("a:b:c", ':'), Some(3));
    assert_eq!(find_last_char("ab:", ':'), Some(2));
    assert_eq!(find_last_char("abc", ':'), None);
}

#[test]
fn trim_matches_std() {
    for s in ["  a b  ", "a", "", "   ", "\t x\n"] {
        assert_eq!(trim_str(s), s.trim(), "on {:?}", s);
    }
}

#[test]
fn str_eq_is_string_equality() {
    assert!(str_eq("abc", "abc"));
    assert!(!str_eq("abc", "abd"));
    assert!(!str_eq("abc", "abcd"));
    assert!(str_eq("", ""));
}
