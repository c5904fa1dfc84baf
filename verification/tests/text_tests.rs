use rocketmq_client::text::{append_decimal, append_joined, parse_i32, starts_with};

#[test]
fn decimals_are_written_without_leading_zeros() {
    let mut out = String::from("n=");
    append_decimal(&mut out, 0);
    assert_eq!(out, "n=0");
    append_decimal(&mut out, 1205);
    assert_eq!(out, "n=01205");
    let mut wide = String::new();
    append_decimal(&mut wide, u128::MAX);
    assert_eq!(wide, format!("{}", u128::MAX));
}

#[test]
fn lists_are_joined_with_the_separator_between() {
    let mut out = String::new();
    append_joined(&mut out, &vec![], ",");
    assert_eq!(out, "");
    append_joined(&mut out, &vec!["a".to_string()], ",");
    assert_eq!(out, "a");
    let mut out = String::from(">");
    append_joined(&mut out, &vec!["a".to_string(), String::new(), "c".to_string()], ",");
    assert_eq!(out, ">a,,c");
}

#[test]
fn prefixes_are_compared_by_character() {
    assert!(starts_with("%RETRY%group", "%RETRY%"));
    assert!(starts_with("%RETRY%", "%RETRY%"));
    assert!(starts_with("anything", ""));
    assert!(!starts_with("%RETRY", "%RETRY%"));
    assert!(!starts_with("%retry%group", "%RETRY%"));
    assert!(starts_with("\u{e9}t\u{e9}", "\u{e9}t"));
}

#[test]
fn integers_are_read_as_the_standard_parser_reads_them() {
    let texts = [
        "0", "7", "-7", "+7", "0012", "-0", "", "+", "-", "+-1", "--1", "1 ", " 1", "1_000", "12a",
        "2147483647", "2147483648", "-2147483648", "-2147483649", "99999999999999999999",
        "00000000000000000000000000000005", "\u{661}",
    ];
    for text in texts {
        assert_eq!(parse_i32(text), text.parse::<i32>().ok(), "{text:?}");
    }
}

#[test]
fn written_numbers_read_back() {
    for n in [0i32, 1, 9, 10, 99, 100, 65535, i32::MAX] {
        let mut out = String::new();
        append_decimal(&mut out, n as u128);
        assert_eq!(parse_i32(&out), Some(n));
    }
}
