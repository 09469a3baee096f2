use stockfetch::digits::{parse_digits_u64, u128_to_string};

#[test]
fn digit_strings_parse_to_their_value() {
    assert_eq!(parse_digits_u64("0"), Some(0));
    assert_eq!(parse_digits_u64("7"), Some(7));
    assert_eq!(parse_digits_u64("2500000000"), Some(2_500_000_000));
    assert_eq!(parse_digits_u64("007"), Some(7));
    assert_eq!(parse_digits_u64("18446744073709551615"), Some(u64::MAX));
}

#[test]
fn non_numerals_and_overflow_are_rejected() {
    assert_eq!(parse_digits_u64(""), None);
    assert_eq!(parse_digits_u64("12a"), None);
    assert_eq!(parse_digits_u64("-5"), None);
    assert_eq!(parse_digits_u64("1.5"), None);
    assert_eq!(parse_digits_u64("18446744073709551616"), None);
    assert_eq!(parse_digits_u64("99999999999999999999999"), None);
}

#[test]
fn numbers_render_as_plain_numerals() {
    assert_eq!(u128_to_string(0), "0");
    assert_eq!(u128_to_string(9), "9");
    assert_eq!(u128_to_string(10), "10");
    assert_eq!(u128_to_string(12345), "12345");
    assert_eq!(u128_to_string(1_000_000_000_000_000_00), "100000000000000000");
}
