use stockfetch::overview::{parse_overview, ParseError};

fn base_fields() -> Vec<(String, String)> {
    let pairs = [
        ("Symbol", "IBM"),
        ("AssetType", "Common Stock"),
        ("Name", "International Business Machines"),
        ("Description", "Technology company."),
        ("CIK", "51143"),
        ("Exchange", "NYSE"),
        ("Currency", "USD"),
        ("Country", "USA"),
        ("Sector", "TECHNOLOGY"),
        ("Industry", "COMPUTER SERVICES"),
        ("Address", "1 NEW ORCHARD ROAD, ARMONK, NY, US"),
        ("OfficialSite", "https://www.ibm.com"),
        ("FiscalYearEnd", "December"),
        ("LatestQuarter", "2024-06-30"),
        ("MarketCapitalization", "2500000000"),
        ("EBITDA", "14380000000"),
        ("PERatio", "22.61"),
        ("PEGRatio", "4.2"),
        ("BookValue", "26.08"),
        ("DividendPerShare", "6.66"),
        ("DividendYield", "0.0351"),
        ("EPS", "5.25"),
        ("RevenuePerShareTTM", "67.98"),
        ("ProfitMargin", "0.087"),
        ("OperatingMarginTTM", "0.147"),
        ("ReturnOnAssetsTTM", "0.0458"),
        ("ReturnOnEquityTTM", "0.23"),
        ("RevenueTTM", "62363001000"),
        ("GrossProfitTTM", "32688000000"),
        ("DilutedEPSTTM", "8.43"),
        ("QuarterlyEarningsGrowthYOY", "0.141"),
        ("QuarterlyRevenueGrowthYOY", "0.019"),
        ("AnalystTargetPrice", "188.06"),
        ("AnalystRatingStrongBuy", "4"),
        ("AnalystRatingBuy", "5"),
        ("AnalystRatingHold", "9"),
        ("AnalystRatingSell", "3"),
        ("AnalystRatingStrongSell", "0"),
        ("TrailingPE", "22.61"),
        ("ForwardPE", "18.62"),
        ("PriceToSalesRatioTTM", "2.703"),
        ("PriceToBookRatio", "7.31"),
        ("EVToRevenue", "3.648"),
        ("EVToEBITDA", "14.54"),
        ("Beta", "0.706"),
        ("52WeekHigh", "199.18"),
        ("52WeekLow", "130.68"),
        ("50DayMovingAverage", "182.33"),
        ("200DayMovingAverage", "170.3"),
        ("SharesOutstanding", "919351000"),
        ("DividendDate", "2024-09-10"),
        ("ExDividendDate", "2024-08-09"),
    ];
    pairs.iter().map(|(k, v)| (String::from(*k), String::from(*v))).collect()
}

fn with_field(mut fields: Vec<(String, String)>, name: &str, value: &str) -> Vec<(String, String)> {
    for pair in fields.iter_mut() {
        if pair.0 == name {
            pair.1 = String::from(value);
            return fields;
        }
    }
    fields.push((String::from(name), String::from(value)));
    fields
}

fn without_field(fields: Vec<(String, String)>, name: &str) -> Vec<(String, String)> {
    fields.into_iter().filter(|pair| pair.0 != name).collect()
}

#[test]
fn full_document_parses() {
    let st = parse_overview(&base_fields()).expect("full document should parse");
    assert_eq!(st.symbol, "IBM");
    assert_eq!(st.currency, "USD");
    assert_eq!(st.market_capitalization, 2_500_000_000);
    assert_eq!(st.eps.to_text(), "5.25");
    assert_eq!(st.pe_ratio.to_text(), "22.61");
    assert_eq!(st.analyst_rating_strong_buy, 4);
    assert_eq!(st.analyst_rating_strong_sell, 0);
    assert_eq!(st.week_high_52.to_text(), "199.18");
}

#[test]
fn decimal_fields_preserve_exact_text() {
    let fields = with_field(base_fields(), "EPS", "5.250");
    let st = parse_overview(&fields).expect("should parse");
    assert_eq!(st.eps.to_text(), "5.25");
}

#[test]
fn missing_required_field_fails_whole_parse() {
    let fields = without_field(base_fields(), "EPS");
    let err = parse_overview(&fields).expect_err("missing field must fail");
    assert!(matches!(&err, ParseError::MissingField(n) if n == "EPS"));
    assert_eq!(err.message(), "missing required field: EPS");
}

#[test]
fn missing_string_field_fails_whole_parse() {
    let fields = without_field(base_fields(), "Sector");
    let err = parse_overview(&fields).expect_err("missing field must fail");
    assert!(matches!(&err, ParseError::MissingField(n) if n == "Sector"));
}

#[test]
fn non_numeric_coerced_field_fails_whole_parse() {
    let fields = with_field(base_fields(), "MarketCapitalization", "12x");
    let err = parse_overview(&fields).expect_err("bad number must fail");
    assert!(matches!(&err, ParseError::BadNumber(n) if n == "MarketCapitalization"));
    assert_eq!(err.message(), "invalid numeric value in field: MarketCapitalization");
}

#[test]
fn malformed_decimal_fails_whole_parse() {
    let fields = with_field(base_fields(), "Beta", "1.2.3");
    let err = parse_overview(&fields).expect_err("bad decimal must fail");
    assert!(matches!(&err, ParseError::BadNumber(n) if n == "Beta"));
}

#[test]
fn negative_count_fails_whole_parse() {
    let fields = with_field(base_fields(), "AnalystRatingBuy", "-3");
    let err = parse_overview(&fields).expect_err("counts are non-negative");
    assert!(matches!(&err, ParseError::BadNumber(n) if n == "AnalystRatingBuy"));
}

#[test]
fn oversized_count_fails_whole_parse() {
    let fields = with_field(base_fields(), "MarketCapitalization", "99999999999999999999");
    let err = parse_overview(&fields).expect_err("overflowing count must fail");
    assert!(matches!(&err, ParseError::BadNumber(n) if n == "MarketCapitalization"));
}

#[test]
fn unknown_extra_fields_are_ignored() {
    let fields = with_field(base_fields(), "SomethingNew", "whatever");
    let st = parse_overview(&fields).expect("extra fields are harmless");
    assert_eq!(st.symbol, "IBM");
}
