use stockfetch::decimal::Dec;
use stockfetch::news::{FeedItem, News};
use stockfetch::overview::parse_overview;
use stockfetch::overview::Stock;
use stockfetch::report::{build_report, compose_report, format_eps, format_market_cap};

fn base_fields() -> Vec<(String, String)> {
    let pairs = [
        ("Symbol", "IBM"),
        ("AssetType", "Common Stock"),
        ("Name", "International Business Machines"),
        ("Description", "Technology company."),
        ("CIK", "51143"),
        ("Exchange", "NYSE"),
        ("Currency", "USD"),
        ("Country", "USA"),
        ("Sector", "TECHNOLOGY"),
        ("Industry", "COMPUTER SERVICES"),
        ("Address", "1 NEW ORCHARD ROAD, ARMONK, NY, US"),
        ("OfficialSite", "https://www.ibm.com"),
        ("FiscalYearEnd", "December"),
        ("LatestQuarter", "2024-06-30"),
        ("MarketCapitalization", "2500000000"),
        ("EBITDA", "14380000000"),
        ("PERatio", "22.61"),
        ("PEGRatio", "4.2"),
        ("BookValue", "26.08"),
        ("DividendPerShare", "6.66"),
        ("DividendYield", "0.0351"),
        ("EPS", "5.25"),
        ("RevenuePerShareTTM", "67.98"),
        ("ProfitMargin", "0.087"),
        ("OperatingMarginTTM", "0.147"),
        ("ReturnOnAssetsTTM", "0.0458"),
        ("ReturnOnEquityTTM", "0.23"),
        ("RevenueTTM", "62363001000"),
        ("GrossProfitTTM", "32688000000"),
        ("DilutedEPSTTM", "8.43"),
        ("QuarterlyEarningsGrowthYOY", "0.141"),
        ("QuarterlyRevenueGrowthYOY", "0.019"),
        ("AnalystTargetPrice", "188.06"),
        ("AnalystRatingStrongBuy", "4"),
        ("AnalystRatingBuy", "5"),
        ("AnalystRatingHold", "9"),
        ("AnalystRatingSell", "3"),
        ("AnalystRatingStrongSell", "0"),
        ("TrailingPE", "22.61"),
        ("ForwardPE", "18.62"),
        ("PriceToSalesRatioTTM", "2.703"),
        ("PriceToBookRatio", "7.31"),
        ("EVToRevenue", "3.648"),
        ("EVToEBITDA", "14.54"),
        ("Beta", "0.706"),
        ("52WeekHigh", "199.18"),
        ("52WeekLow", "130.68"),
        ("50DayMovingAverage", "182.33"),
        ("200DayMovingAverage", "170.3"),
        ("SharesOutstanding", "919351000"),
        ("DividendDate", "2024-09-10"),
        ("ExDividendDate", "2024-08-09"),
    ];
    pairs.iter().map(|(k, v)| (String::from(*k), String::from(*v))).collect()
}

fn sample_stock() -> Stock {
    parse_overview(&base_fields()).expect("sample document parses")
}

fn item(title: &str, label: &str) -> FeedItem {
    FeedItem {
        title: String::from(title),
        url: String::from("https://example.com/a"),
        time_published: String::from("20240901T120000"),
        authors: vec![String::from("Reporter")],
        summary: String::from("Summary."),
        banner_image: String::from(""),
        source: String::from("Newswire"),
        category_within_source: String::from("n/a"),
        source_domain: String::from("example.com"),
        topics: Vec::new(),
        overall_sentiment_score: String::from("0.25"),
        overall_sentiment_label: String::from(label),
        ticker_sentiment: Vec::new(),
    }
}

fn news_with(feed: Vec<FeedItem>) -> News {
    News {
        items: String::from("50"),
        sentiment_score_definition: String::from("score definition"),
        relevance_score_definition: String::from("relevance definition"),
        feed,
    }
}

#[test]
fn market_cap_scaling_billions() {
    assert_eq!(format_market_cap(2_500_000_000, "USD"), "$2.50B");
}

#[test]
fn market_cap_scaling_trillions() {
    assert_eq!(format_market_cap(500_000_000_000_000, "USD"), "$500.00T");
}

#[test]
fn market_cap_unrecognized_currency() {
    assert_eq!(format_market_cap(500, "XYZ"), "500.00 XYZ");
}

#[test]
fn market_cap_million_branch_shares_billion_divisor() {
    assert_eq!(format_market_cap(500_000_000, "USD"), "$0.50M");
    assert_eq!(format_market_cap(2_500_000, "USD"), "$0.00M");
}

#[test]
fn market_cap_rounds_half_up_at_two_decimals() {
    assert_eq!(format_market_cap(2_505_000_000, "USD"), "$2.51B");
    assert_eq!(format_market_cap(2_504_999_999, "USD"), "$2.50B");
}

#[test]
fn market_cap_out_of_range_is_unscaled() {
    assert_eq!(format_market_cap(0, "USD"), "$0.00");
    assert_eq!(format_market_cap(999_999, "XYZ"), "999999.00 XYZ");
    assert_eq!(format_market_cap(1_000_000_000_000_000, "USD"), "$1000000000000000.00");
}

#[test]
fn eps_formatting_with_and_without_symbol() {
    let eps = Dec::parse_text("5.25").expect("parses");
    assert_eq!(format_eps(&eps, "USD"), "$5.25");
    assert_eq!(format_eps(&eps, "XYZ"), "5.25 XYZ");
    let neg = Dec::parse_text("-1.75").expect("parses");
    assert_eq!(format_eps(&neg, "usd"), "$-1.75");
}

#[test]
fn report_with_empty_feed_has_no_news_block() {
    let text = build_report(&sample_stock(), &news_with(Vec::new()));
    assert!(!text.contains("Latest News"));
    assert!(!text.contains("Sentiment"));
    let mut expected = String::new();
    for line in [
        "==========================================================\n",
        "IBM - International Business Machines\n",
        "==========================================================\n",
        "Sector: TECHNOLOGY | Industry: COMPUTER SERVICES\n",
        "Market Cap: $2.50B\n",
        "P/E Ratio: 22.61 | EPS: $5.25\n",
        "----------------------------------------------------------\n",
        "Chart:\n",
        " \u{25b2}\n",
        " |\n",
        " |\n",
        " |\n",
        " |\n",
        " ---------------------------> (30 days)\n",
        "==========================================================\n",
    ] {
        expected.push_str(line);
    }
    assert_eq!(text, expected);
}

#[test]
fn report_shows_only_the_first_feed_item() {
    let feed = vec![item("First headline", "Bullish"), item("Second headline", "Bearish")];
    let text = build_report(&sample_stock(), &news_with(feed));
    assert!(text.contains("Latest News: First headline\n"));
    assert!(text.contains("Sentiment: Bullish\n"));
    assert!(!text.contains("Second headline"));
    assert!(!text.contains("Bearish"));
}

#[test]
fn compose_fails_without_report_when_overview_fails() {
    let news = news_with(vec![item("First headline", "Bullish")]);
    let r = compose_report(Err(String::from("connection refused")), Ok(news));
    let msg = r.expect_err("overview failure must fail the whole run");
    assert_eq!(msg, "Request to Alpha Vantage failed: connection refused");
}

#[test]
fn compose_fails_when_news_fails() {
    let r = compose_report(Ok(sample_stock()), Err(String::from("status 503")));
    let msg = r.expect_err("news failure must fail the whole run");
    assert_eq!(msg, "Request to Alpha Vantage failed: status 503");
}

#[test]
fn compose_succeeds_when_both_succeed() {
    let news = news_with(vec![item("First headline", "Bullish")]);
    let text = compose_report(Ok(sample_stock()), Ok(news)).expect("both succeeded");
    assert!(text.contains("IBM - International Business Machines"));
    assert!(text.contains("Latest News: First headline"));
}
