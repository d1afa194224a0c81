use magister::numbers::{format_milli, parse_u16, parse_u64, parse_u64_list, trim_ascii, u64_to_string};

#[test]
fn renders_zero() {
    assert_eq!(u64_to_string(0), "0");
}

#[test]
fn renders_single_digit() {
    assert_eq!(u64_to_string(7), "7");
}

#[test]
fn renders_large_number() {
    assert_eq!(u64_to_string(1234567890123), "1234567890123");
}

#[test]
fn renders_u64_max() {
    assert_eq!(u64_to_string(u64::MAX), "18446744073709551615");
}

#[test]
fn milli_two_decimals() {
    assert_eq!(format_milli(980), "0.98");
}

#[test]
fn milli_one_decimal() {
    assert_eq!(format_milli(12800), "12.8");
}

#[test]
fn milli_integer() {
    assert_eq!(format_milli(192679000), "192679");
}

#[test]
fn milli_three_decimals() {
    assert_eq!(format_milli(1), "0.001");
}

#[test]
fn milli_zero() {
    assert_eq!(format_milli(0), "0");
}

#[test]
fn milli_full_fraction() {
    assert_eq!(format_milli(530), "0.53");
}

#[test]
fn parses_plain_number() {
    assert_eq!(parse_u64("123"), Some(123));
}

#[test]
fn parses_leading_zeros() {
    assert_eq!(parse_u64("007"), Some(7));
}

#[test]
fn rejects_empty() {
    assert_eq!(parse_u64(""), None);
}

#[test]
fn rejects_letters() {
    assert_eq!(parse_u64("12a"), None);
}

#[test]
fn rejects_sign() {
    assert_eq!(parse_u64("+5"), None);
}

#[test]
fn parses_u64_max() {
    assert_eq!(parse_u64("18446744073709551615"), Some(u64::MAX));
}

#[test]
fn rejects_u64_overflow() {
    assert_eq!(parse_u64("18446744073709551616"), None);
}

#[test]
fn parses_u16_max() {
    assert_eq!(parse_u16("65535"), Some(65535));
}

#[test]
fn rejects_u16_overflow() {
    assert_eq!(parse_u16("65536"), None);
}

#[test]
fn trims_both_ends() {
    assert_eq!(trim_ascii("  42 \t"), "42");
}

#[test]
fn trims_nothing() {
    assert_eq!(trim_ascii("x y"), "x y");
}

#[test]
fn trims_all_whitespace() {
    assert_eq!(trim_ascii(" \n "), "");
}

#[test]
fn parses_id_list() {
    assert_eq!(parse_u64_list("1, 2,3"), Some(vec![1, 2, 3]));
}

#[test]
fn parses_single_id() {
    assert_eq!(parse_u64_list(" 42 "), Some(vec![42]));
}

#[test]
fn rejects_empty_list_piece() {
    assert_eq!(parse_u64_list("1,,2"), None);
}

#[test]
fn rejects_bad_list_piece() {
    assert_eq!(parse_u64_list("1,x"), None);
}
