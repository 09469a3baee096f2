//! Presentation: currency-aware market-capitalization and EPS strings, the
//! fixed-layout report text, and the composition rule that produces a report
//! only when both fetches succeeded.

use crate::currency::{get_symbol, symbol_for, upper_chars};
use crate::decimal::{dec_to_chars, dec_wf, Dec, DecV};
use crate::digits::{char_of_digit, digit_str, nat_to_chars, u128_to_string};
use crate::news::News;
use crate::overview::{stock_wf, Stock};
use vstd::prelude::*;
use vstd::string::*;

verus! {

/// The scaled market capitalization in hundredths (two decimal places).
/// Note: the million branch divides by one billion just as the billion
/// branch does, so million-range values display as fractions below one;
/// out-of-range values are shown raw, unscaled.
pub open spec fn cap_cents(v: int) -> int {
    if 1000000 <= v < 1000000000 {
        (v + 5000000) / 10000000
    } else if 1000000000 <= v < 1000000000000 {
        (v + 5000000) / 10000000
    } else if 1000000000000 <= v < 1000000000000000 {
        (v + 5000000000) / 10000000000
    } else {
        v * 100
    }
}

/// The magnitude suffix that goes with the scaled value; none outside the
/// scaled ranges.
pub open spec fn cap_suffix(v: int) -> Seq<char> {
    if 1000000 <= v < 1000000000 {
        "M"@
    } else if 1000000000 <= v < 1000000000000 {
        "B"@
    } else if 1000000000000 <= v < 1000000000000000 {
        "T"@
    } else {
        Seq::<char>::empty()
    }
}

/// A hundredths count rendered with exactly two decimal places.
pub open spec fn cents_chars(q: int) -> Seq<char> {
    nat_to_chars((q / 100) as nat) + seq!['.'] + seq![
        char_of_digit(((q / 10) % 10) as u8),
        char_of_digit((q % 10) as u8),
    ]
}

/// The market-capitalization display: scaled amount and suffix, prefixed
/// with the currency symbol when the code resolves, else followed by a space
/// and the raw code.
pub open spec fn market_cap_chars(v: int, cur: Seq<char>) -> Seq<char> {
    let amount = cents_chars(cap_cents(v)) + cap_suffix(v);
    match symbol_for(upper_chars(cur)) {
        Some(sym) => sym + amount,
        None => amount + " "@ + cur,
    }
}

/// The EPS display: never scaled, symbol-prefixed when the currency code
/// resolves, else followed by a space and the raw code.
pub open spec fn eps_chars(d: DecV, cur: Seq<char>) -> Seq<char> {
    match symbol_for(upper_chars(cur)) {
        Some(sym) => sym + dec_to_chars(d),
        None => dec_to_chars(d) + " "@ + cur,
    }
}

/// The news block: absent for an empty feed; otherwise only the first
/// item's title and sentiment label, whatever the feed length.
pub open spec fn news_block_chars(n: News) -> Seq<char> {
    if n.feed@.len() == 0 {
        Seq::<char>::empty()
    } else {
        "----------------------------------------------------------\n"@ + "Latest News: "@
            + n.feed@[0].title@ + "\n"@ + "Sentiment: "@ + n.feed@[0].overall_sentiment_label@
            + "\n"@
    }
}

/// The full fixed-layout report.
pub open spec fn report_chars(st: Stock, n: News) -> Seq<char> {
    "==========================================================\n"@ + st.symbol@ + " - "@
        + st.name@ + "\n"@ + "==========================================================\n"@
        + "Sector: "@ + st.sector@ + " | Industry: "@ + st.industry@ + "\n"@ + "Market Cap: "@
        + market_cap_chars(st.market_capitalization as int, st.currency@) + "\n"@ + "P/E Ratio: "@
        + dec_to_chars(st.pe_ratio@) + " | EPS: "@ + eps_chars(st.eps@, st.currency@) + "\n"@
        + news_block_chars(n) + "----------------------------------------------------------\n"@
        + "Chart:\n"@ + " ▲\n"@ + " |\n"@ + " |\n"@ + " |\n"@ + " |\n"@
        + " ---------------------------> (30 days)\n"@
        + "==========================================================\n"@
}

/// Formats a market capitalization for display under the scaling rule.
pub fn format_market_cap(v: i64, currency: &str) -> (s: String)
    requires
        v >= 0,
    ensures
        s@ == market_cap_chars(v as int, currency@),
{
    proof {
        reveal_strlit(".");
        reveal_strlit("");
        assert("."@ =~= seq!['.']);
        assert(""@ =~= Seq::<char>::empty());
    }
    let q: u128 = if 1000000 <= v && v < 1000000000 {
        ((v as u128) + 5000000) / 10000000
    } else if 1000000000 <= v && v < 1000000000000 {
        ((v as u128) + 5000000) / 10000000
    } else if 1000000000000 <= v && v < 1000000000000000 {
        ((v as u128) + 5000000000) / 10000000000
    } else {
        (v as u128) * 100
    };
    proof {
        assert(q as int == cap_cents(v as int));
    }
    let suffix: &'static str = if 1000000 <= v && v < 1000000000 {
        "M"
    } else if 1000000000 <= v && v < 1000000000000 {
        "B"
    } else if 1000000000000 <= v && v < 1000000000000000 {
        "T"
    } else {
        ""
    };
    proof {
        assert(suffix@ == cap_suffix(v as int));
    }
    let whole = u128_to_string(q / 100);
    let d1 = digit_str(((q / 10) % 10) as u8);
    let d0 = digit_str((q % 10) as u8);
    match get_symbol(currency) {
        Some(sym) => {
            let mut out = String::from_str(sym);
            out.append(whole.as_str());
            out.append(".");
            out.append(d1);
            out.append(d0);
            out.append(suffix);
            proof {
                assert(out@ =~= market_cap_chars(v as int, currency@));
            }
            out
        },
        None => {
            let mut out = whole;
            out.append(".");
            out.append(d1);
            out.append(d0);
            out.append(suffix);
            out.append(" ");
            out.append(currency);
            proof {
                assert(out@ =~= market_cap_chars(v as int, currency@));
            }
            out
        },
    }
}

/// Formats an EPS value for display; the value itself is never scaled.
pub fn format_eps(eps: &Dec, currency: &str) -> (s: String)
    requires
        dec_wf(eps@),
    ensures
        s@ == eps_chars(eps@, currency@),
{
    let text = eps.to_text();
    match get_symbol(currency) {
        Some(sym) => {
            let mut out = String::from_str(sym);
            out.append(text.as_str());
            proof {
                assert(out@ =~= eps_chars(eps@, currency@));
            }
            out
        },
        None => {
            let mut out = text;
            out.append(" ");
            out.append(currency);
            proof {
                assert(out@ =~= eps_chars(eps@, currency@));
            }
            out
        },
    }
}

/// Builds the whole report text: banners, header, fundamentals lines, the
/// optional news block, and the placeholder chart.
pub fn build_report(st: &Stock, n: &News) -> (s: String)
    requires
        stock_wf(*st),
    ensures
        s@ == report_chars(*st, *n),
{
    let mut out = String::from_str("==========================================================\n");
    out.append(st.symbol.as_str());
    out.append(" - ");
    out.append(st.name.as_str());
    out.append("\n");
    out.append("==========================================================\n");
    out.append("Sector: ");
    out.append(st.sector.as_str());
    out.append(" | Industry: ");
    out.append(st.industry.as_str());
    out.append("\n");
    out.append("Market Cap: ");
    let cap = format_market_cap(st.market_capitalization, st.currency.as_str());
    out.append(cap.as_str());
    out.append("\n");
    out.append("P/E Ratio: ");
    let pe = st.pe_ratio.to_text();
    out.append(pe.as_str());
    out.append(" | EPS: ");
    let eps = format_eps(&st.eps, st.currency.as_str());
    out.append(eps.as_str());
    out.append("\n");
    if n.feed.len() > 0 {
        out.append("----------------------------------------------------------\n");
        out.append("Latest News: ");
        out.append(n.feed[0].title.as_str());
        out.append("\n");
        out.append("Sentiment: ");
        out.append(n.feed[0].overall_sentiment_label.as_str());
        out.append("\n");
    }
    out.append("----------------------------------------------------------\n");
    out.append("Chart:\n");
    out.append(" ▲\n");
    out.append(" |\n");
    out.append(" |\n");
    out.append(" |\n");
    out.append(" |\n");
    out.append(" ---------------------------> (30 days)\n");
    out.append("==========================================================\n");
    proof {
        if n.feed@.len() == 0 {
            assert(news_block_chars(*n) =~= Seq::<char>::empty());
        }
        assert(out@ =~= report_chars(*st, *n));
    }
    out
}

/// Joins the two fetch outcomes.  A report is produced exactly when both
/// succeeded; any failure yields the one-line diagnostic instead, with the
/// overview failure taking precedence, and no report text at all.
pub fn compose_report(overview: Result<Stock, String>, news: Result<News, String>) -> (r: Result<
    String,
    String,
>)
    requires
        overview matches Ok(st) ==> stock_wf(st),
    ensures
        r is Ok <==> (overview is Ok && news is Ok),
        r matches Ok(text) ==> (overview matches Ok(st) && news matches Ok(n) && text@
            == report_chars(st, n)),
        overview matches Err(e) ==> (r matches Err(m) && m@ == "Request to Alpha Vantage failed: "@
            + e@),
        overview is Ok ==> (news matches Err(e) ==> (r matches Err(m) && m@
            == "Request to Alpha Vantage failed: "@ + e@)),
{
    match overview {
        Ok(st) => match news {
            Ok(n) => {
                let text = build_report(&st, &n);
                Ok(text)
            },
            Err(e) => {
                let mut m = String::from_str("Request to Alpha Vantage failed: ");
                m.append(e.as_str());
                Err(m)
            },
        },
        Err(e) => {
            let mut m = String::from_str("Request to Alpha Vantage failed: ");
            m.append(e.as_str());
            Err(m)
        },
    }
}

/// Law: the report depends on the news feed only through its first item —
/// two non-empty feeds with the same first item give the same report,
/// whatever else they hold and however long they are.
pub proof fn lemma_report_first_item_only(st: Stock, a: News, b: News)
    requires
        a.feed@.len() > 0,
        b.feed@.len() > 0,
        a.feed@[0] == b.feed@[0],
    ensures
        report_chars(st, a) == report_chars(st, b),
{
}

/// Law: an empty feed contributes no news block, and all empty-feed reports
/// for the same overview are the same text.
pub proof fn lemma_report_empty_feed(st: Stock, a: News, b: News)
    requires
        a.feed@.len() == 0,
        b.feed@.len() == 0,
    ensures
        news_block_chars(a) == Seq::<char>::empty(),
        report_chars(st, a) == report_chars(st, b),
{
    assert(news_block_chars(a) =~= Seq::<char>::empty());
}

} // verus!
