use stockfetch::currency::get_symbol;

#[test]
fn lookup_is_case_insensitive() {
    assert_eq!(get_symbol("usd"), get_symbol("USD"));
    assert_eq!(get_symbol("UsD"), Some("$"));
    assert_eq!(get_symbol("eur"), get_symbol("EUR"));
    assert_eq!(get_symbol("btcusd"), get_symbol("BTCUSD"));
}

#[test]
fn lookup_known_codes() {
    assert_eq!(get_symbol("USD"), Some("$"));
    assert_eq!(get_symbol("EUR"), Some("\u{20ac}"));
    assert_eq!(get_symbol("GBP"), Some("\u{a3}"));
    assert_eq!(get_symbol("SEK"), Some("kr"));
    assert_eq!(get_symbol("CHF"), Some("CHF"));
    assert_eq!(get_symbol("BTC"), Some("\u{20bf}"));
    assert_eq!(get_symbol("XAU"), Some("XAU"));
    assert_eq!(get_symbol("BTCUSD"), Some("BTC/USD"));
    assert_eq!(get_symbol("USDEUR"), Some("USD/EUR"));
}

#[test]
fn lookup_absent_codes_yield_none() {
    assert_eq!(get_symbol("XYZ"), None);
    assert_eq!(get_symbol(""), None);
    assert_eq!(get_symbol("usd "), None);
    assert_eq!(get_symbol("US"), None);
    assert_eq!(get_symbol("DOLLARS"), None);
}
