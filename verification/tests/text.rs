use file_share::text::{format_decimal, parse_i64, str_eq};

#[test]
fn format_decimal_values() {
    assert_eq!(format_decimal(0), "0");
    assert_eq!(format_decimal(7), "7");
    assert_eq!(format_decimal(10), "10");
    assert_eq!(format_decimal(300), "300");
    assert_eq!(format_decimal(1234567890), "1234567890");
    assert_eq!(format_decimal(u64::MAX), "18446744073709551615");
}

#[test]
fn parse_i64_accepts_what_std_accepts() {
    let cases = [
        "0", "7", "-1", "+5", "300", "-0", "+0", "007", "9223372036854775807",
        "-9223372036854775808", "9223372036854775808", "-9223372036854775809", "", "-", "+",
        "--1", "1-", " 1", "1 ", "false", "12a", "a12", "1_000", "99999999999999999999999",
        "-99999999999999999999999", "٣",
    ];
    for case in cases {
        assert_eq!(parse_i64(case), case.parse::<i64>().ok(), "{:?}", case);
    }
}

#[test]
fn parse_i64_exact_values() {
    assert_eq!(parse_i64("300"), Some(300));
    assert_eq!(parse_i64("-1"), Some(-1));
    assert_eq!(parse_i64("9223372036854775807"), Some(i64::MAX));
    assert_eq!(parse_i64("-9223372036854775808"), Some(i64::MIN));
    assert_eq!(parse_i64("9223372036854775808"), None);
    assert_eq!(parse_i64("false"), None);
}

#[test]
fn parse_reads_back_what_format_wrote() {
    for n in [0u64, 1, 9, 10, 99, 100, 299, 300, 100_000_000, 999_999_999, i64::MAX as u64] {
        assert_eq!(parse_i64(&format_decimal(n)), Some(n as i64));
    }
}

#[test]
fn str_eq_compares_contents() {
    assert!(str_eq("", ""));
    assert!(str_eq("/set_data", "/set_data"));
    assert!(!str_eq("/set_data", "/set_dat"));
    assert!(!str_eq("/set_data", "/set_datb"));
    assert!(!str_eq("é", "e"));
}
