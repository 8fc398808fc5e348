use rustonance::text::{push_signed_decimal, decimal_string, join_strings, parse_usize, push_decimal, push_pad2, starts_with, str_eq};

#[test]
fn decimal_rendering() {
    assert_eq!(decimal_string(0), "0");
    assert_eq!(decimal_string(7), "7");
    assert_eq!(decimal_string(10), "10");
    assert_eq!(decimal_string(1234567890), "1234567890");
    assert_eq!(decimal_string(u64::MAX), u64::MAX.to_string());
    let mut s = String::from("n=");
    push_decimal(&mut s, 305);
    assert_eq!(s, "n=305");
}

#[test]
fn two_digit_rendering() {
    let mut s = String::new();
    push_pad2(&mut s, 4);
    assert_eq!(s, "04");
    let mut s = String::new();
    push_pad2(&mut s, 59);
    assert_eq!(s, "59");
    let mut s = String::new();
    push_pad2(&mut s, 123);
    assert_eq!(s, "123");
}

#[test]
fn parsing_unsigned_numbers() {
    assert_eq!(parse_usize("300"), Some(300));
    assert_eq!(parse_usize("+12"), Some(12));
    assert_eq!(parse_usize("0"), Some(0));
    assert_eq!(parse_usize(""), None);
    assert_eq!(parse_usize("+"), None);
    assert_eq!(parse_usize("-1"), None);
    assert_eq!(parse_usize("12a"), None);
    assert_eq!(parse_usize(" 1"), None);
    assert_eq!(parse_usize("99999999999999999999999"), None);
    assert_eq!(parse_usize(&usize::MAX.to_string()), Some(usize::MAX));
}

#[test]
fn parse_reads_back_decimal() {
    for n in [0u64, 1, 9, 10, 99, 100, 65535, 4294967295] {
        assert_eq!(parse_usize(&decimal_string(n)), Some(n as usize));
    }
}

#[test]
fn parse_agrees_with_std() {
    for s in ["", "+", "+0", "007", "1_000", "18446744073709551615", "18446744073709551616", "é1", "42"] {
        assert_eq!(parse_usize(s), s.parse::<usize>().ok(), "input {:?}", s);
    }
}

#[test]
fn joining_strings() {
    let parts = vec!["a".to_string(), "bc".to_string(), "d".to_string()];
    assert_eq!(join_strings(&parts, " "), "a bc d");
    assert_eq!(join_strings(&parts, ", "), "a, bc, d");
    assert_eq!(join_strings(&vec!["solo".to_string()], " "), "solo");
    assert_eq!(join_strings(&vec![], " "), "");
}

#[test]
fn comparing_strings() {
    assert!(str_eq("state", "state"));
    assert!(!str_eq("state", "stat"));
    assert!(!str_eq("", "x"));
    assert!(str_eq("", ""));
    assert!(starts_with("https://x", "http"));
    assert!(!starts_with("htt", "http"));
    assert!(starts_with("anything", ""));
    assert!(!starts_with("never gonna", "http"));
}

#[test]
fn signed_rendering() {
    for n in [0i64, 7, -7, 120, -120, i64::MAX, i64::MIN] {
        let mut s = String::new();
        push_signed_decimal(&mut s, n);
        assert_eq!(s, n.to_string());
    }
}
