use duckscript_sdk::utils::pckg;
use duckscript_sdk::utils::text::{parse_i32, push_char, usize_to_string, write_decimal};

#[test]
fn decimal_rendering_matches_to_string() {
    for n in [0usize, 1, 9, 10, 42, 100, 1234, 987654321, usize::MAX] {
        assert_eq!(usize_to_string(n), n.to_string());
    }
}

#[test]
fn write_decimal_appends() {
    let mut s = String::from("count: ");
    write_decimal(305, &mut s);
    assert_eq!(s, "count: 305");
}

#[test]
fn push_char_appends_one_character() {
    let mut s = String::from("ab");
    push_char(&mut s, 'é');
    assert_eq!(s, "abé");
}

#[test]
fn parse_i32_accepts_signed_decimal() {
    assert_eq!(parse_i32("12"), Some(12));
    assert_eq!(parse_i32("-12"), Some(-12));
    assert_eq!(parse_i32("+7"), Some(7));
    assert_eq!(parse_i32("007"), Some(7));
    assert_eq!(parse_i32("-0"), Some(0));
    assert_eq!(parse_i32("2147483647"), Some(i32::MAX));
    assert_eq!(parse_i32("-2147483648"), Some(i32::MIN));
}

#[test]
fn parse_i32_refuses_other_text() {
    assert_eq!(parse_i32(""), None);
    assert_eq!(parse_i32("+"), None);
    assert_eq!(parse_i32("-"), None);
    assert_eq!(parse_i32("12a"), None);
    assert_eq!(parse_i32(" 1"), None);
    assert_eq!(parse_i32("+-1"), None);
    assert_eq!(parse_i32("2147483648"), None);
    assert_eq!(parse_i32("-2147483649"), None);
    assert_eq!(parse_i32("99999999999999999999"), None);
    assert_eq!(parse_i32("٣"), None);
}

#[test]
fn parse_i32_agrees_with_std() {
    let samples = [
        "0", "1", "-1", "+0", "00", "12x", "x12", "", "-", "+", "--1", "1 ", "2147483647",
        "2147483648", "-2147483648", "-2147483649", "4294967296", "1e3", "0x10", "３",
    ];
    for s in samples {
        assert_eq!(parse_i32(s), s.parse::<i32>().ok(), "sample {:?}", s);
    }
}

#[test]
fn concat_joins_with_double_colon() {
    assert_eq!(pckg::concat("std::collections", "ArrayLength"), "std::collections::ArrayLength");
    assert_eq!(pckg::concat("", "Exit"), "::Exit");
}
