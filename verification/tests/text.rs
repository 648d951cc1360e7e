use winrt_nostd::text::{
    chars_of, encode_utf16, find_char, find_pattern, parse_i32_range, rfind_char, str_eq,
    string_of_chars, string_of_range,
};

fn parse(s: &str) -> Option<i32> {
    let cs = chars_of(s);
    parse_i32_range(&cs, 0, cs.len())
}

#[test]
fn parse_matches_std() {
    for s in [
        "0", "42", "+42", "-42", "-0", "", "+", "-", "+-1", "1 ", " 1", "12a", "2147483647",
        "2147483648", "-2147483648", "-2147483649", "0000000000000000000000123", "99999999999999999999",
        "٣",
    ] {
        assert_eq!(parse(s), s.parse::<i32>().ok(), "input {:?}", s);
    }
}

#[test]
fn finds() {
    let cs = chars_of("a/b/c");
    assert_eq!(find_char(&cs, '/'), Some(1));
    assert_eq!(rfind_char(&cs, '/'), Some(3));
    assert_eq!(find_char(&cs, 'z'), None);
    assert_eq!(rfind_char(&cs, 'z'), None);
    let p = chars_of("://");
    assert_eq!(find_pattern(&chars_of("x://y://"), &p), Some(1));
    assert_eq!(find_pattern(&chars_of(":/"), &p), None);
    assert_eq!(find_pattern(&chars_of("abc"), &chars_of("")), Some(0));
}

#[test]
fn strings() {
    let cs = chars_of("héllo");
    assert_eq!(cs.len(), 5);
    assert_eq!(string_of_chars(&cs), "héllo");
    assert_eq!(string_of_range(&cs, 1, 3), "él");
    assert!(str_eq("ab", "ab"));
    assert!(!str_eq("ab", "abc"));
    assert!(!str_eq("ab", "ac"));
    assert_eq!(encode_utf16("a😀"), vec![0x61u16, 0xD83D, 0xDE00]);
}
