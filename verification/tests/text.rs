use learn_opengl::decimal::{append_decimal, parse_i32, parse_i32_in};
use learn_opengl::text::{chars_of, find_char, str_eq};

fn decimal_of(n: i32) -> String {
    let mut out = String::new();
    append_decimal(&mut out, n);
    out
}

#[test]
fn chars_of_keeps_every_character_in_order() {
    assert_eq!(chars_of("1.8"), vec!['1', '.', '8']);
    assert_eq!(chars_of(""), Vec::<char>::new());
    assert_eq!(chars_of("héllo"), vec!['h', 'é', 'l', 'l', 'o']);
}

#[test]
fn decimal_of_zero_is_one_digit() {
    assert_eq!(decimal_of(0), "0");
}

#[test]
fn decimal_of_positive_numbers() {
    assert_eq!(decimal_of(7), "7");
    assert_eq!(decimal_of(10), "10");
    assert_eq!(decimal_of(1203), "1203");
    assert_eq!(decimal_of(i32::MAX), "2147483647");
}

#[test]
fn decimal_of_negative_numbers() {
    assert_eq!(decimal_of(-1), "-1");
    assert_eq!(decimal_of(-90), "-90");
    assert_eq!(decimal_of(i32::MIN), "-2147483648");
}

#[test]
fn append_decimal_keeps_what_was_there() {
    let mut out = String::from("Ch: ");
    append_decimal(&mut out, 12);
    assert_eq!(out, "Ch: 12");
}

#[test]
fn decimal_agrees_with_the_standard_formatting() {
    let samples = [0, 1, -1, 9, 10, 11, 99, 100, 101, -999, 1000, 65535, -65536, 123456789];
    for n in samples {
        assert_eq!(decimal_of(n), format!("{}", n));
    }
}

#[test]
fn parse_reads_plain_digits() {
    assert_eq!(parse_i32("0"), Some(0));
    assert_eq!(parse_i32("8"), Some(8));
    assert_eq!(parse_i32("42"), Some(42));
    assert_eq!(parse_i32("2147483647"), Some(i32::MAX));
}

#[test]
fn parse_reads_a_sign() {
    assert_eq!(parse_i32("-12"), Some(-12));
    assert_eq!(parse_i32("+12"), Some(12));
    assert_eq!(parse_i32("-0"), Some(0));
    assert_eq!(parse_i32("-2147483648"), Some(i32::MIN));
}

#[test]
fn parse_ignores_leading_zeros() {
    assert_eq!(parse_i32("007"), Some(7));
    assert_eq!(parse_i32("-000000000000000000000001"), Some(-1));
    assert_eq!(parse_i32("00000000002147483647"), Some(i32::MAX));
}

#[test]
fn parse_rejects_what_is_no_number() {
    assert_eq!(parse_i32(""), None);
    assert_eq!(parse_i32("-"), None);
    assert_eq!(parse_i32("+"), None);
    assert_eq!(parse_i32("--1"), None);
    assert_eq!(parse_i32("+-1"), None);
    assert_eq!(parse_i32("1 "), None);
    assert_eq!(parse_i32(" 1"), None);
    assert_eq!(parse_i32("1a"), None);
    assert_eq!(parse_i32("a1"), None);
    assert_eq!(parse_i32("1_000"), None);
    assert_eq!(parse_i32("١٢"), None);
}

#[test]
fn parse_rejects_what_does_not_fit() {
    assert_eq!(parse_i32("2147483648"), None);
    assert_eq!(parse_i32("-2147483649"), None);
    assert_eq!(parse_i32("99999999999999999999999999999"), None);
    assert_eq!(parse_i32("-99999999999999999999999999999"), None);
}

#[test]
fn parse_agrees_with_the_standard_parser() {
    let samples = [
        "", "0", "-0", "+0", "1", "-1", "+1", "12", "007", "2147483647", "2147483648",
        "-2147483648", "-2147483649", "4294967296", "-", "+", "++1", "1+", "1.0", "0x10", "1e3",
        " 1", "1 ", "one", "18446744073709551616",
    ];
    for s in samples {
        assert_eq!(parse_i32(s), s.parse::<i32>().ok(), "input {:?}", s);
    }
}

#[test]
fn parse_reads_back_every_numeral_it_is_given() {
    let samples = [i32::MIN, -2147483647, -100, -10, -9, -1, 0, 1, 9, 10, 100, 2147483646, i32::MAX];
    for n in samples {
        assert_eq!(parse_i32(&decimal_of(n)), Some(n));
    }
}

#[test]
fn parse_in_reads_only_the_given_range() {
    let chars = chars_of("1.25.x");
    assert_eq!(parse_i32_in(&chars, 0, 1), Some(1));
    assert_eq!(parse_i32_in(&chars, 2, 4), Some(25));
    assert_eq!(parse_i32_in(&chars, 2, 3), Some(2));
    assert_eq!(parse_i32_in(&chars, 0, 4), None);
    assert_eq!(parse_i32_in(&chars, 5, 6), None);
    assert_eq!(parse_i32_in(&chars, 3, 3), None);
}

#[test]
fn find_char_gives_the_first_occurrence() {
    let chars = chars_of("1.25.x");
    assert_eq!(find_char(&chars, 0, '.'), 1);
    assert_eq!(find_char(&chars, 1, '.'), 1);
    assert_eq!(find_char(&chars, 2, '.'), 4);
    assert_eq!(find_char(&chars, 5, '.'), 6);
    assert_eq!(find_char(&chars, 6, '.'), 6);
    assert_eq!(find_char(&chars, 0, 'y'), 6);
}

#[test]
fn str_eq_compares_character_by_character() {
    assert!(str_eq("", ""));
    assert!(str_eq("shader", "shader"));
    assert!(!str_eq("shader", "shaders"));
    assert!(!str_eq("shaders", "shader"));
    assert!(!str_eq("shader", "shadow"));
    assert!(!str_eq("", "a"));
    assert!(str_eq("héllo", "héllo"));
    assert!(!str_eq("héllo", "hello"));
}
