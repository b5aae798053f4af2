use bhtune_server::text::{hex_encode, parse_u32, str_contains, text_around, text_with_int, text_with_nat};

#[test]
fn text_helpers_build_exact_strings() {
    assert_eq!(text_with_int("run ", -12, "!"), "run -12!");
    assert_eq!(text_with_int("", i64::MIN, ""), "-9223372036854775808");
    assert_eq!(text_with_nat("n=", u64::MAX, ""), "n=18446744073709551615");
    assert_eq!(text_around("<", "x", ">"), "<x>");
    assert_eq!(hex_encode(&[0, 15, 16, 255]), "000f10ff");
}

#[test]
fn substring_search_and_number_parsing() {
    assert!(str_contains("abc", ""));
    assert!(str_contains("abcabd", "abd"));
    assert!(!str_contains("ab", "abc"));
    let digits: Vec<char> = "4294967295".chars().collect();
    assert_eq!(parse_u32(&digits), Some(u32::MAX));
    let overflow: Vec<char> = "4294967296".chars().collect();
    assert_eq!(parse_u32(&overflow), None);
    let signed: Vec<char> = "+7".chars().collect();
    assert_eq!(parse_u32(&signed), Some(7));
    let empty: Vec<char> = Vec::new();
    assert_eq!(parse_u32(&empty), None);
}
