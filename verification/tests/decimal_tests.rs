use stockfetch::decimal::Dec;

fn text_of(s: &str) -> String {
    Dec::parse_text(s).expect("should parse").to_text()
}

#[test]
fn exact_decimal_text_is_preserved() {
    assert_eq!(text_of("123.450"), "123.45");
    assert_eq!(text_of("123.45"), "123.45");
    assert_eq!(text_of("5.25"), "5.25");
    assert_eq!(text_of("-1.75"), "-1.75");
    assert_eq!(text_of("0.000001"), "0.000001");
}

#[test]
fn parse_normalizes_redundant_zeros() {
    assert_eq!(text_of("007"), "7");
    assert_eq!(text_of("0.500"), "0.5");
    assert_eq!(text_of("10.000"), "10");
    assert_eq!(text_of("0"), "0");
    assert_eq!(text_of("0.000"), "0");
    assert_eq!(text_of("-0"), "0");
    assert_eq!(text_of("-0.000"), "0");
    assert_eq!(text_of("-0.50"), "-0.5");
}

#[test]
fn parse_rejects_malformed_text() {
    assert!(Dec::parse_text("").is_none());
    assert!(Dec::parse_text("-").is_none());
    assert!(Dec::parse_text("abc").is_none());
    assert!(Dec::parse_text("12x").is_none());
    assert!(Dec::parse_text("1.2.3").is_none());
    assert!(Dec::parse_text("5.").is_none());
    assert!(Dec::parse_text(".5").is_none());
    assert!(Dec::parse_text("1,5").is_none());
    assert!(Dec::parse_text(" 1.5").is_none());
    assert!(Dec::parse_text("1.5 ").is_none());
    assert!(Dec::parse_text("--1").is_none());
    assert!(Dec::parse_text("1-2").is_none());
}

#[test]
fn round_trip_is_stable() {
    for s in ["123.45", "0", "-9.125", "1000000", "0.07", "-0.0001"] {
        let once = text_of(s);
        let twice = Dec::parse_text(&once).expect("round trip parses").to_text();
        assert_eq!(once, twice);
    }
}

#[test]
fn huge_values_keep_all_digits() {
    let s = "123456789012345678901234567890123456789.987654321";
    assert_eq!(text_of(s), s);
}
