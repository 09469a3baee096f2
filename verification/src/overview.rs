//! The company overview model: fundamentals for one ticker, built from the
//! field/value pairs of one source document.  String-encoded numeric fields
//! are coerced at load time; a missing required field or a malformed number
//! fails the whole parse, so no partial overview ever exists.

use crate::decimal::{dec_parse_chars, dec_wf, Dec, DecV};
use crate::digits::{chars_to_nat, digits_valid, parse_digits_u64};
use vstd::prelude::*;
use vstd::string::*;

verus! {

/// Parsed fundamentals for one ticker, immutable after construction.
/// Market capitalization and the five analyst rating counts are non-negative
/// integers; ratio and amount fields are exact decimals.
#[derive(Clone, Debug)]
pub struct Stock {
    pub symbol: String,
    pub asset_type: String,
    pub name: String,
    pub description: String,
    pub cik: String,
    pub exchange: String,
    pub currency: String,
    pub country: String,
    pub sector: String,
    pub industry: String,
    pub address: String,
    pub official_site: String,
    pub fiscal_year_end: String,
    pub latest_quarter: String,
    pub market_capitalization: i64,
    pub ebitda: Dec,
    pub pe_ratio: Dec,
    pub peg_ratio: Dec,
    pub book_value: Dec,
    pub dividend_per_share: Dec,
    pub dividend_yield: Dec,
    pub eps: Dec,
    pub revenue_per_share_ttm: Dec,
    pub profit_margin: Dec,
    pub operating_margin_ttm: Dec,
    pub return_on_assets_ttm: Dec,
    pub return_on_equity_ttm: Dec,
    pub revenue_ttm: Dec,
    pub gross_profit_ttm: Dec,
    pub diluted_eps_ttm: Dec,
    pub quarterly_earnings_growth_yoy: Dec,
    pub quarterly_revenue_growth_yoy: Dec,
    pub analyst_target_price: Dec,
    pub analyst_rating_strong_buy: i32,
    pub analyst_rating_buy: i32,
    pub analyst_rating_hold: i32,
    pub analyst_rating_sell: i32,
    pub analyst_rating_strong_sell: i32,
    pub trailing_pe: Dec,
    pub forward_pe: Dec,
    pub price_to_sales_ratio_ttm: Dec,
    pub price_to_book_ratio: Dec,
    pub ev_to_revenue: Dec,
    pub ev_to_ebitda: Dec,
    pub beta: Dec,
    pub week_high_52: Dec,
    pub week_low_52: Dec,
    pub day_moving_average_50: Dec,
    pub day_moving_average_200: Dec,
    pub shares_outstanding: Dec,
    pub dividend_date: String,
    pub ex_dividend_date: String,
}

/// Why an overview document was rejected: a required field was absent, or a
/// string-encoded numeric field held something that is not a number of the
/// expected kind.
#[derive(Clone, Debug)]
pub enum ParseError {
    MissingField(String),
    BadNumber(String),
}

impl ParseError {
    /// A one-line diagnostic naming the offending field.
    pub fn message(&self) -> (r: String)
        ensures
            (self matches ParseError::MissingField(n) ==> r@ == "missing required field: "@
                + n@),
            (self matches ParseError::BadNumber(n) ==> r@ == "invalid numeric value in field: "@
                + n@),
    {
        match self {
            ParseError::MissingField(n) => {
                let mut s = String::from_str("missing required field: ");
                s.append(n.as_str());
                s
            },
            ParseError::BadNumber(n) => {
                let mut s = String::from_str("invalid numeric value in field: ");
                s.append(n.as_str());
                s
            },
        }
    }
}

/// The value of the first field with the given name, if any.
pub open spec fn spec_get(dv: Seq<(Seq<char>, Seq<char>)>, name: Seq<char>) -> Option<Seq<char>>
    decreases dv.len(),
{
    if dv.len() == 0 {
        None
    } else if dv[0].0 == name {
        Some(dv[0].1)
    } else {
        spec_get(dv.drop_first(), name)
    }
}

pub open spec fn got(dv: Seq<(Seq<char>, Seq<char>)>, name: Seq<char>) -> Seq<char> {
    match spec_get(dv, name) {
        Some(v) => v,
        None => Seq::empty(),
    }
}

pub open spec fn str_field_ok(dv: Seq<(Seq<char>, Seq<char>)>, name: Seq<char>) -> bool {
    spec_get(dv, name) is Some
}

/// A decimal field is present and parses as exact decimal text.
pub open spec fn dec_field_ok(dv: Seq<(Seq<char>, Seq<char>)>, name: Seq<char>) -> bool {
    spec_get(dv, name) is Some && dec_parse_chars(got(dv, name)) is Some
}

pub open spec fn got_dec(dv: Seq<(Seq<char>, Seq<char>)>, name: Seq<char>) -> DecV {
    match dec_parse_chars(got(dv, name)) {
        Some(d) => d,
        None => DecV { neg: false, int_digits: Seq::empty(), frac_digits: Seq::empty() },
    }
}

/// A count field is present, all digits, and fits the signed 64-bit range;
/// counts are non-negative by contract, so no sign is accepted.
pub open spec fn i64_field_ok(dv: Seq<(Seq<char>, Seq<char>)>, name: Seq<char>) -> bool {
    spec_get(dv, name) is Some && digits_valid(got(dv, name)) && chars_to_nat(got(dv, name))
        <= i64::MAX
}

pub open spec fn i32_field_ok(dv: Seq<(Seq<char>, Seq<char>)>, name: Seq<char>) -> bool {
    spec_get(dv, name) is Some && digits_valid(got(dv, name)) && chars_to_nat(got(dv, name))
        <= i32::MAX
}

/// Every required field is present and every numeric field parses.
pub open spec fn overview_ok(dv: Seq<(Seq<char>, Seq<char>)>) -> bool {
    &&& str_field_ok(dv, "Symbol"@)
    &&& str_field_ok(dv, "AssetType"@)
    &&& str_field_ok(dv, "Name"@)
    &&& str_field_ok(dv, "Description"@)
    &&& str_field_ok(dv, "CIK"@)
    &&& str_field_ok(dv, "Exchange"@)
    &&& str_field_ok(dv, "Currency"@)
    &&& str_field_ok(dv, "Country"@)
    &&& str_field_ok(dv, "Sector"@)
    &&& str_field_ok(dv, "Industry"@)
    &&& str_field_ok(dv, "Address"@)
    &&& str_field_ok(dv, "OfficialSite"@)
    &&& str_field_ok(dv, "FiscalYearEnd"@)
    &&& str_field_ok(dv, "LatestQuarter"@)
    &&& i64_field_ok(dv, "MarketCapitalization"@)
    &&& dec_field_ok(dv, "EBITDA"@)
    &&& dec_field_ok(dv, "PERatio"@)
    &&& dec_field_ok(dv, "PEGRatio"@)
    &&& dec_field_ok(dv, "BookValue"@)
    &&& dec_field_ok(dv, "DividendPerShare"@)
    &&& dec_field_ok(dv, "DividendYield"@)
    &&& dec_field_ok(dv, "EPS"@)
    &&& dec_field_ok(dv, "RevenuePerShareTTM"@)
    &&& dec_field_ok(dv, "ProfitMargin"@)
    &&& dec_field_ok(dv, "OperatingMarginTTM"@)
    &&& dec_field_ok(dv, "ReturnOnAssetsTTM"@)
    &&& dec_field_ok(dv, "ReturnOnEquityTTM"@)
    &&& dec_field_ok(dv, "RevenueTTM"@)
    &&& dec_field_ok(dv, "GrossProfitTTM"@)
    &&& dec_field_ok(dv, "DilutedEPSTTM"@)
    &&& dec_field_ok(dv, "QuarterlyEarningsGrowthYOY"@)
    &&& dec_field_ok(dv, "QuarterlyRevenueGrowthYOY"@)
    &&& dec_field_ok(dv, "AnalystTargetPrice"@)
    &&& i32_field_ok(dv, "AnalystRatingStrongBuy"@)
    &&& i32_field_ok(dv, "AnalystRatingBuy"@)
    &&& i32_field_ok(dv, "AnalystRatingHold"@)
    &&& i32_field_ok(dv, "AnalystRatingSell"@)
    &&& i32_field_ok(dv, "AnalystRatingStrongSell"@)
    &&& dec_field_ok(dv, "TrailingPE"@)
    &&& dec_field_ok(dv, "ForwardPE"@)
    &&& dec_field_ok(dv, "PriceToSalesRatioTTM"@)
    &&& dec_field_ok(dv, "PriceToBookRatio"@)
    &&& dec_field_ok(dv, "EVToRevenue"@)
    &&& dec_field_ok(dv, "EVToEBITDA"@)
    &&& dec_field_ok(dv, "Beta"@)
    &&& dec_field_ok(dv, "52WeekHigh"@)
    &&& dec_field_ok(dv, "52WeekLow"@)
    &&& dec_field_ok(dv, "50DayMovingAverage"@)
    &&& dec_field_ok(dv, "200DayMovingAverage"@)
    &&& dec_field_ok(dv, "SharesOutstanding"@)
    &&& str_field_ok(dv, "DividendDate"@)
    &&& str_field_ok(dv, "ExDividendDate"@)
}

/// The invariant every parsed overview satisfies: non-negative counts and
/// well-formed decimals.
pub open spec fn stock_wf(st: Stock) -> bool {
    &&& st.market_capitalization >= 0
    &&& st.analyst_rating_strong_buy >= 0
    &&& st.analyst_rating_buy >= 0
    &&& st.analyst_rating_hold >= 0
    &&& st.analyst_rating_sell >= 0
    &&& st.analyst_rating_strong_sell >= 0
    &&& dec_wf(st.ebitda@)
    &&& dec_wf(st.pe_ratio@)
    &&& dec_wf(st.peg_ratio@)
    &&& dec_wf(st.book_value@)
    &&& dec_wf(st.dividend_per_share@)
    &&& dec_wf(st.dividend_yield@)
    &&& dec_wf(st.eps@)
    &&& dec_wf(st.revenue_per_share_ttm@)
    &&& dec_wf(st.profit_margin@)
    &&& dec_wf(st.operating_margin_ttm@)
    &&& dec_wf(st.return_on_assets_ttm@)
    &&& dec_wf(st.return_on_equity_ttm@)
    &&& dec_wf(st.revenue_ttm@)
    &&& dec_wf(st.gross_profit_ttm@)
    &&& dec_wf(st.diluted_eps_ttm@)
    &&& dec_wf(st.quarterly_earnings_growth_yoy@)
    &&& dec_wf(st.quarterly_revenue_growth_yoy@)
    &&& dec_wf(st.analyst_target_price@)
    &&& dec_wf(st.trailing_pe@)
    &&& dec_wf(st.forward_pe@)
    &&& dec_wf(st.price_to_sales_ratio_ttm@)
    &&& dec_wf(st.price_to_book_ratio@)
    &&& dec_wf(st.ev_to_revenue@)
    &&& dec_wf(st.ev_to_ebitda@)
    &&& dec_wf(st.beta@)
    &&& dec_wf(st.week_high_52@)
    &&& dec_wf(st.week_low_52@)
    &&& dec_wf(st.day_moving_average_50@)
    &&& dec_wf(st.day_moving_average_200@)
    &&& dec_wf(st.shares_outstanding@)
}

/// Each field of the parsed overview is exactly the coerced value of the
/// document field of the matching wire name.
pub open spec fn stock_matches(st: Stock, dv: Seq<(Seq<char>, Seq<char>)>) -> bool {
    &&& st.symbol@ == got(dv, "Symbol"@)
    &&& st.asset_type@ == got(dv, "AssetType"@)
    &&& st.name@ == got(dv, "Name"@)
    &&& st.description@ == got(dv, "Description"@)
    &&& st.cik@ == got(dv, "CIK"@)
    &&& st.exchange@ == got(dv, "Exchange"@)
    &&& st.currency@ == got(dv, "Currency"@)
    &&& st.country@ == got(dv, "Country"@)
    &&& st.sector@ == got(dv, "Sector"@)
    &&& st.industry@ == got(dv, "Industry"@)
    &&& st.address@ == got(dv, "Address"@)
    &&& st.official_site@ == got(dv, "OfficialSite"@)
    &&& st.fiscal_year_end@ == got(dv, "FiscalYearEnd"@)
    &&& st.latest_quarter@ == got(dv, "LatestQuarter"@)
    &&& st.market_capitalization as nat == chars_to_nat(got(dv, "MarketCapitalization"@))
    &&& st.ebitda@ == got_dec(dv, "EBITDA"@)
    &&& st.pe_ratio@ == got_dec(dv, "PERatio"@)
    &&& st.peg_ratio@ == got_dec(dv, "PEGRatio"@)
    &&& st.book_value@ == got_dec(dv, "BookValue"@)
    &&& st.dividend_per_share@ == got_dec(dv, "DividendPerShare"@)
    &&& st.dividend_yield@ == got_dec(dv, "DividendYield"@)
    &&& st.eps@ == got_dec(dv, "EPS"@)
    &&& st.revenue_per_share_ttm@ == got_dec(dv, "RevenuePerShareTTM"@)
    &&& st.profit_margin@ == got_dec(dv, "ProfitMargin"@)
    &&& st.operating_margin_ttm@ == got_dec(dv, "OperatingMarginTTM"@)
    &&& st.return_on_assets_ttm@ == got_dec(dv, "ReturnOnAssetsTTM"@)
    &&& st.return_on_equity_ttm@ == got_dec(dv, "ReturnOnEquityTTM"@)
    &&& st.revenue_ttm@ == got_dec(dv, "RevenueTTM"@)
    &&& st.gross_profit_ttm@ == got_dec(dv, "GrossProfitTTM"@)
    &&& st.diluted_eps_ttm@ == got_dec(dv, "DilutedEPSTTM"@)
    &&& st.quarterly_earnings_growth_yoy@ == got_dec(dv, "QuarterlyEarningsGrowthYOY"@)
    &&& st.quarterly_revenue_growth_yoy@ == got_dec(dv, "QuarterlyRevenueGrowthYOY"@)
    &&& st.analyst_target_price@ == got_dec(dv, "AnalystTargetPrice"@)
    &&& st.analyst_rating_strong_buy as nat == chars_to_nat(got(dv, "AnalystRatingStrongBuy"@))
    &&& st.analyst_rating_buy as nat == chars_to_nat(got(dv, "AnalystRatingBuy"@))
    &&& st.analyst_rating_hold as nat == chars_to_nat(got(dv, "AnalystRatingHold"@))
    &&& st.analyst_rating_sell as nat == chars_to_nat(got(dv, "AnalystRatingSell"@))
    &&& st.analyst_rating_strong_sell as nat == chars_to_nat(got(dv, "AnalystRatingStrongSell"@))
    &&& st.trailing_pe@ == got_dec(dv, "TrailingPE"@)
    &&& st.forward_pe@ == got_dec(dv, "ForwardPE"@)
    &&& st.price_to_sales_ratio_ttm@ == got_dec(dv, "PriceToSalesRatioTTM"@)
    &&& st.price_to_book_ratio@ == got_dec(dv, "PriceToBookRatio"@)
    &&& st.ev_to_revenue@ == got_dec(dv, "EVToRevenue"@)
    &&& st.ev_to_ebitda@ == got_dec(dv, "EVToEBITDA"@)
    &&& st.beta@ == got_dec(dv, "Beta"@)
    &&& st.week_high_52@ == got_dec(dv, "52WeekHigh"@)
    &&& st.week_low_52@ == got_dec(dv, "52WeekLow"@)
    &&& st.day_moving_average_50@ == got_dec(dv, "50DayMovingAverage"@)
    &&& st.day_moving_average_200@ == got_dec(dv, "200DayMovingAverage"@)
    &&& st.shares_outstanding@ == got_dec(dv, "SharesOutstanding"@)
    &&& st.dividend_date@ == got(dv, "DividendDate"@)
    &&& st.ex_dividend_date@ == got(dv, "ExDividendDate"@)
}

/// What any rejection attests: the named field is absent, or is present but
/// fails every numeric reading used for coerced fields.
pub open spec fn error_witness(e: ParseError, dv: Seq<(Seq<char>, Seq<char>)>) -> bool {
    match e {
        ParseError::MissingField(n) => spec_get(dv, n@) is None,
        ParseError::BadNumber(n) => spec_get(dv, n@) is Some && !(dec_field_ok(dv, n@)
            && i64_field_ok(dv, n@) && i32_field_ok(dv, n@)),
    }
}

fn str_eq(a: &str, b: &str) -> (r: bool)
    ensures
        r == (a@ == b@),
{
    let n = a.unicode_len();
    let m = b.unicode_len();
    if n != m {
        return false;
    }
    let mut i: usize = 0;
    while i < n
        invariant
            n == a@.len() && n == b@.len(),
            0 <= i <= n,
            forall|k: int| 0 <= k < i ==> a@[k] == b@[k],
        decreases n - i,
    {
        if a.get_char(i) != b.get_char(i) {
            return false;
        }
        i = i + 1;
    }
    proof {
        assert(a@ =~= b@);
    }
    true
}

/// The value of the first field with the given name, copied out.
fn find_field(fields: &Vec<(String, String)>, name: &str) -> (r: Option<String>)
    ensures
        r matches Some(v) ==> spec_get(fields.deep_view(), name@) == Some(v@),
        r is None ==> spec_get(fields.deep_view(), name@) is None,
{
    let ghost dv = fields.deep_view();
    let n = fields.len();
    proof {
        assert(dv.len() == fields@.len());
    }
    proof {
        assert(dv.skip(0) =~= dv);
    }
    let mut i: usize = 0;
    while i < n
        invariant
            n == dv.len(),
            dv == fields.deep_view(),
            dv.len() == fields@.len(),
            0 <= i <= n,
            spec_get(dv, name@) == spec_get(dv.skip(i as int), name@),
            forall|k: int| 0 <= k < dv.len() ==> dv[k] == (fields@[k].0@, fields@[k].1@),
        decreases n - i,
    {
        proof {
            assert(dv.skip(i as int)[0] == dv[i as int]);
        }
        if str_eq(fields[i].0.as_str(), name) {
            let v = fields[i].1.clone();
            return Some(v);
        }
        proof {
            assert(dv.skip(i as int).drop_first() =~= dv.skip(i + 1));
        }
        i = i + 1;
    }
    proof {
        assert(dv.skip(n as int) =~= Seq::<(Seq<char>, Seq<char>)>::empty());
    }
    None
}

/// A required plain-text field.
fn req_string(fields: &Vec<(String, String)>, name: &str) -> (r: Result<String, ParseError>)
    ensures
        r matches Ok(v) ==> spec_get(fields.deep_view(), name@) == Some(v@),
        r is Err ==> !str_field_ok(fields.deep_view(), name@),
        r matches Err(e) ==> error_witness(e, fields.deep_view()) && (e
            matches ParseError::MissingField(n) && n@ == name@),
    {
    match find_field(fields, name) {
        Some(v) => Ok(v),
        None => Err(ParseError::MissingField(String::from_str(name))),
    }
}

/// A required exact-decimal field.
fn req_dec(fields: &Vec<(String, String)>, name: &str) -> (r: Result<Dec, ParseError>)
    ensures
        r matches Ok(d) ==> dec_field_ok(fields.deep_view(), name@) && d@ == got_dec(
            fields.deep_view(),
            name@,
        ) && dec_wf(d@),
        r is Err ==> !dec_field_ok(fields.deep_view(), name@),
        r matches Err(e) ==> error_witness(e, fields.deep_view()),
    {
    match find_field(fields, name) {
        Some(v) => match Dec::parse_text(v.as_str()) {
            Some(d) => Ok(d),
            None => Err(ParseError::BadNumber(String::from_str(name))),
        },
        None => Err(ParseError::MissingField(String::from_str(name))),
    }
}

/// A required non-negative count that must fit in a signed 64-bit integer.
fn req_i64(fields: &Vec<(String, String)>, name: &str) -> (r: Result<i64, ParseError>)
    ensures
        r matches Ok(v) ==> i64_field_ok(fields.deep_view(), name@) && v >= 0 && v as nat
            == chars_to_nat(got(fields.deep_view(), name@)),
        r is Err ==> !i64_field_ok(fields.deep_view(), name@),
        r matches Err(e) ==> error_witness(e, fields.deep_view()),
    {
    match find_field(fields, name) {
        Some(v) => match parse_digits_u64(v.as_str()) {
            Some(u) => {
                if u <= i64::MAX as u64 {
                    Ok(u as i64)
                } else {
                    Err(ParseError::BadNumber(String::from_str(name)))
                }
            },
            None => Err(ParseError::BadNumber(String::from_str(name))),
        },
        None => Err(ParseError::MissingField(String::from_str(name))),
    }
}

/// A required non-negative count that must fit in a signed 32-bit integer.
fn req_i32(fields: &Vec<(String, String)>, name: &str) -> (r: Result<i32, ParseError>)
    ensures
        r matches Ok(v) ==> i32_field_ok(fields.deep_view(), name@) && v >= 0 && v as nat
            == chars_to_nat(got(fields.deep_view(), name@)),
        r is Err ==> !i32_field_ok(fields.deep_view(), name@),
        r matches Err(e) ==> error_witness(e, fields.deep_view()),
    {
    match find_field(fields, name) {
        Some(v) => match parse_digits_u64(v.as_str()) {
            Some(u) => {
                if u <= i32::MAX as u64 {
                    Ok(u as i32)
                } else {
                    Err(ParseError::BadNumber(String::from_str(name)))
                }
            },
            None => Err(ParseError::BadNumber(String::from_str(name))),
        },
        None => Err(ParseError::MissingField(String::from_str(name))),
    }
}

/// Builds a company overview from the field/value pairs of one document.
/// Succeeds exactly when every required field is present and every
/// string-encoded numeric field parses; otherwise the whole parse fails and
/// no partial overview is produced.
#[verifier::rlimit(60)]
pub fn parse_overview(fields: &Vec<(String, String)>) -> (r: Result<Stock, ParseError>)
    ensures
        r is Ok <==> overview_ok(fields.deep_view()),
        r matches Ok(st) ==> stock_matches(st, fields.deep_view()) && stock_wf(st),
        r matches Err(e) ==> error_witness(e, fields.deep_view()),
{
    let symbol = match req_string(fields, "Symbol") {
        Ok(v) => v,
        Err(e) => return Err(e),
    };
    let asset_type = match req_string(fields, "AssetType") {
        Ok(v) => v,
        Err(e) => return Err(e),
    };
    let name = match req_string(fields, "Name") {
        Ok(v) => v,
        Err(e) => return Err(e),
    };
    let description = match req_string(fields, "Description") {
        Ok(v) => v,
        Err(e) => return Err(e),
    };
    let cik = match req_string(fields, "CIK") {
        Ok(v) => v,
        Err(e) => return Err(e),
    };
    let exchange = match req_string(fields, "Exchange") {
        Ok(v) => v,
        Err(e) => return Err(e),
    };
    let currency = match req_string(fields, "Currency") {
        Ok(v) => v,
        Err(e) => return Err(e),
    };
    let country = match req_string(fields, "Country") {
        Ok(v) => v,
        Err(e) => return Err(e),
    };
    let sector = match req_string(fields, "Sector") {
        Ok(v) => v,
        Err(e) => return Err(e),
    };
    let industry = match req_string(fields, "Industry") {
        Ok(v) => v,
        Err(e) => return Err(e),
    };
    let address = match req_string(fields, "Address") {
        Ok(v) => v,
        Err(e) => return Err(e),
    };
    let official_site = match req_string(fields, "OfficialSite") {
        Ok(v) => v,
        Err(e) => return Err(e),
    };
    let fiscal_year_end = match req_string(fields, "FiscalYearEnd") {
        Ok(v) => v,
        Err(e) => return Err(e),
    };
    let latest_quarter = match req_string(fields, "LatestQuarter") {
        Ok(v) => v,
        Err(e) => return Err(e),
    };
    let market_capitalization = match req_i64(fields, "MarketCapitalization") {
        Ok(v) => v,
        Err(e) => return Err(e),
    };
    let ebitda = match req_dec(fields, "EBITDA") {
        Ok(v) => v,
        Err(e) => return Err(e),
    };
    let pe_ratio = match req_dec(fields, "PERatio") {
        Ok(v) => v,
        Err(e) => return Err(e),
    };
    let peg_ratio = match req_dec(fields, "PEGRatio") {
        Ok(v) => v,
        Err(e) => return Err(e),
    };
    let book_value = match req_dec(fields, "BookValue") {
        Ok(v) => v,
        Err(e) => return Err(e),
    };
    let dividend_per_share = match req_dec(fields, "DividendPerShare") {
        Ok(v) => v,
        Err(e) => return Err(e),
    };
    let dividend_yield = match req_dec(fields, "DividendYield") {
        Ok(v) => v,
        Err(e) => return Err(e),
    };
    let eps = match req_dec(fields, "EPS") {
        Ok(v) => v,
        Err(e) => return Err(e),
    };
    let revenue_per_share_ttm = match req_dec(fields, "RevenuePerShareTTM") {
        Ok(v) => v,
        Err(e) => return Err(e),
    };
    let profit_margin = match req_dec(fields, "ProfitMargin") {
        Ok(v) => v,
        Err(e) => return Err(e),
    };
    let operating_margin_ttm = match req_dec(fields, "OperatingMarginTTM") {
        Ok(v) => v,
        Err(e) => return Err(e),
    };
    let return_on_assets_ttm = match req_dec(fields, "ReturnOnAssetsTTM") {
        Ok(v) => v,
        Err(e) => return Err(e),
    };
    let return_on_equity_ttm = match req_dec(fields, "ReturnOnEquityTTM") {
        Ok(v) => v,
        Err(e) => return Err(e),
    };
    let revenue_ttm = match req_dec(fields, "RevenueTTM") {
        Ok(v) => v,
        Err(e) => return Err(e),
    };
    let gross_profit_ttm = match req_dec(fields, "GrossProfitTTM") {
        Ok(v) => v,
        Err(e) => return Err(e),
    };
    let diluted_eps_ttm = match req_dec(fields, "DilutedEPSTTM") {
        Ok(v) => v,
        Err(e) => return Err(e),
    };
    let quarterly_earnings_growth_yoy = match req_dec(fields, "QuarterlyEarningsGrowthYOY") {
        Ok(v) => v,
        Err(e) => return Err(e),
    };
    let quarterly_revenue_growth_yoy = match req_dec(fields, "QuarterlyRevenueGrowthYOY") {
        Ok(v) => v,
        Err(e) => return Err(e),
    };
    let analyst_target_price = match req_dec(fields, "AnalystTargetPrice") {
        Ok(v) => v,
        Err(e) => return Err(e),
    };
    let analyst_rating_strong_buy = match req_i32(fields, "AnalystRatingStrongBuy") {
        Ok(v) => v,
        Err(e) => return Err(e),
    };
    let analyst_rating_buy = match req_i32(fields, "AnalystRatingBuy") {
        Ok(v) => v,
        Err(e) => return Err(e),
    };
    let analyst_rating_hold = match req_i32(fields, "AnalystRatingHold") {
        Ok(v) => v,
        Err(e) => return Err(e),
    };
    let analyst_rating_sell = match req_i32(fields, "AnalystRatingSell") {
        Ok(v) => v,
        Err(e) => return Err(e),
    };
    let analyst_rating_strong_sell = match req_i32(fields, "AnalystRatingStrongSell") {
        Ok(v) => v,
        Err(e) => return Err(e),
    };
    let trailing_pe = match req_dec(fields, "TrailingPE") {
        Ok(v) => v,
        Err(e) => return Err(e),
    };
    let forward_pe = match req_dec(fields, "ForwardPE") {
        Ok(v) => v,
        Err(e) => return Err(e),
    };
    let price_to_sales_ratio_ttm = match req_dec(fields, "PriceToSalesRatioTTM") {
        Ok(v) => v,
        Err(e) => return Err(e),
    };
    let price_to_book_ratio = match req_dec(fields, "PriceToBookRatio") {
        Ok(v) => v,
        Err(e) => return Err(e),
    };
    let ev_to_revenue = match req_dec(fields, "EVToRevenue") {
        Ok(v) => v,
        Err(e) => return Err(e),
    };
    let ev_to_ebitda = match req_dec(fields, "EVToEBITDA") {
        Ok(v) => v,
        Err(e) => return Err(e),
    };
    let beta = match req_dec(fields, "Beta") {
        Ok(v) => v,
        Err(e) => return Err(e),
    };
    let week_high_52 = match req_dec(fields, "52WeekHigh") {
        Ok(v) => v,
        Err(e) => return Err(e),
    };
    let week_low_52 = match req_dec(fields, "52WeekLow") {
        Ok(v) => v,
        Err(e) => return Err(e),
    };
    let day_moving_average_50 = match req_dec(fields, "50DayMovingAverage") {
        Ok(v) => v,
        Err(e) => return Err(e),
    };
    let day_moving_average_200 = match req_dec(fields, "200DayMovingAverage") {
        Ok(v) => v,
        Err(e) => return Err(e),
    };
    let shares_outstanding = match req_dec(fields, "SharesOutstanding") {
        Ok(v) => v,
        Err(e) => return Err(e),
    };
    let dividend_date = match req_string(fields, "DividendDate") {
        Ok(v) => v,
        Err(e) => return Err(e),
    };
    let ex_dividend_date = match req_string(fields, "ExDividendDate") {
        Ok(v) => v,
        Err(e) => return Err(e),
    };
    Ok(
        Stock {
            symbol,
            asset_type,
            name,
            description,
            cik,
            exchange,
            currency,
            country,
            sector,
            industry,
            address,
            official_site,
            fiscal_year_end,
            latest_quarter,
            market_capitalization,
            ebitda,
            pe_ratio,
            peg_ratio,
            book_value,
            dividend_per_share,
            dividend_yield,
            eps,
            revenue_per_share_ttm,
            profit_margin,
            operating_margin_ttm,
            return_on_assets_ttm,
            return_on_equity_ttm,
            revenue_ttm,
            gross_profit_ttm,
            diluted_eps_ttm,
            quarterly_earnings_growth_yoy,
            quarterly_revenue_growth_yoy,
            analyst_target_price,
            analyst_rating_strong_buy,
            analyst_rating_buy,
            analyst_rating_hold,
            analyst_rating_sell,
            analyst_rating_strong_sell,
            trailing_pe,
            forward_pe,
            price_to_sales_ratio_ttm,
            price_to_book_ratio,
            ev_to_revenue,
            ev_to_ebitda,
            beta,
            week_high_52,
            week_low_52,
            day_moving_average_50,
            day_moving_average_200,
            shares_outstanding,
            dividend_date,
            ex_dividend_date,
        },
    )
}

} // verus!
