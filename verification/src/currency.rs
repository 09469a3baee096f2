//! The currency symbol table: a fixed, read-only mapping from currency and
//! asset codes to display symbols.  Lookup is case-insensitive over ASCII
//! letters; an unknown code is a normal absence, never an error.

use vstd::prelude::*;
use vstd::string::*;

verus! {

/// ASCII uppercase of one character; anything but a lowercase ASCII letter
/// stays as it is.
pub open spec fn upper_char(c: char) -> char {
    if c == 'a' {
        'A'
    } else if c == 'b' {
        'B'
    } else if c == 'c' {
        'C'
    } else if c == 'd' {
        'D'
    } else if c == 'e' {
        'E'
    } else if c == 'f' {
        'F'
    } else if c == 'g' {
        'G'
    } else if c == 'h' {
        'H'
    } else if c == 'i' {
        'I'
    } else if c == 'j' {
        'J'
    } else if c == 'k' {
        'K'
    } else if c == 'l' {
        'L'
    } else if c == 'm' {
        'M'
    } else if c == 'n' {
        'N'
    } else if c == 'o' {
        'O'
    } else if c == 'p' {
        'P'
    } else if c == 'q' {
        'Q'
    } else if c == 'r' {
        'R'
    } else if c == 's' {
        'S'
    } else if c == 't' {
        'T'
    } else if c == 'u' {
        'U'
    } else if c == 'v' {
        'V'
    } else if c == 'w' {
        'W'
    } else if c == 'x' {
        'X'
    } else if c == 'y' {
        'Y'
    } else if c == 'z' {
        'Z'
    } else {
        c
    }
}

pub open spec fn upper_chars(s: Seq<char>) -> Seq<char> {
    s.map_values(|c: char| upper_char(c))
}

/// The symbol the table holds for an already-uppercased code, if any.
pub open spec fn symbol_for(u: Seq<char>) -> Option<Seq<char>> {
    if u == "USD"@ {
        Some("$"@)
    } else if u == "EUR"@ {
        Some("€"@)
    } else if u == "JPY"@ {
        Some("¥"@)
    } else if u == "GBP"@ {
        Some("£"@)
    } else if u == "AUD"@ {
        Some("A$"@)
    } else if u == "CAD"@ {
        Some("CA$"@)
    } else if u == "CHF"@ {
        Some("CHF"@)
    } else if u == "CNY"@ {
        Some("¥"@)
    } else if u == "HKD"@ {
        Some("HK$"@)
    } else if u == "NZD"@ {
        Some("NZ$"@)
    } else if u == "SEK"@ {
        Some("kr"@)
    } else if u == "KRW"@ {
        Some("₩"@)
    } else if u == "SGD"@ {
        Some("S$"@)
    } else if u == "NOK"@ {
        Some("kr"@)
    } else if u == "MXN"@ {
        Some("MX$"@)
    } else if u == "INR"@ {
        Some("₹"@)
    } else if u == "RUB"@ {
        Some("₽"@)
    } else if u == "ZAR"@ {
        Some("R"@)
    } else if u == "TRY"@ {
        Some("₺"@)
    } else if u == "BRL"@ {
        Some("R$"@)
    } else if u == "DKK"@ {
        Some("kr"@)
    } else if u == "PLN"@ {
        Some("zł"@)
    } else if u == "THB"@ {
        Some("฿"@)
    } else if u == "IDR"@ {
        Some("Rp"@)
    } else if u == "HUF"@ {
        Some("Ft"@)
    } else if u == "CZK"@ {
        Some("Kč"@)
    } else if u == "ILS"@ {
        Some("₪"@)
    } else if u == "CLP"@ {
        Some("$"@)
    } else if u == "PHP"@ {
        Some("₱"@)
    } else if u == "AED"@ {
        Some("د.إ"@)
    } else if u == "SAR"@ {
        Some("ر.س"@)
    } else if u == "BTC"@ {
        Some("₿"@)
    } else if u == "ETH"@ {
        Some("Ξ"@)
    } else if u == "XRP"@ {
        Some("XRP"@)
    } else if u == "LTC"@ {
        Some("Ł"@)
    } else if u == "BCH"@ {
        Some("Ƀ"@)
    } else if u == "ADA"@ {
        Some("ADA"@)
    } else if u == "DOT"@ {
        Some("DOT"@)
    } else if u == "LINK"@ {
        Some("LINK"@)
    } else if u == "DOGE"@ {
        Some("Ð"@)
    } else if u == "USDT"@ {
        Some("₮"@)
    } else if u == "BNB"@ {
        Some("BNB"@)
    } else if u == "XAU"@ {
        Some("XAU"@)
    } else if u == "XAG"@ {
        Some("XAG"@)
    } else if u == "XPT"@ {
        Some("XPT"@)
    } else if u == "XPD"@ {
        Some("XPD"@)
    } else if u == "BTCUSD"@ {
        Some("BTC/USD"@)
    } else if u == "ETHUSD"@ {
        Some("ETH/USD"@)
    } else if u == "USDEUR"@ {
        Some("USD/EUR"@)
    } else {
        None
    }
}

fn upper_char_x(c: char) -> (r: char)
    ensures
        r == upper_char(c),
{
    if c == 'a' {
        'A'
    } else if c == 'b' {
        'B'
    } else if c == 'c' {
        'C'
    } else if c == 'd' {
        'D'
    } else if c == 'e' {
        'E'
    } else if c == 'f' {
        'F'
    } else if c == 'g' {
        'G'
    } else if c == 'h' {
        'H'
    } else if c == 'i' {
        'I'
    } else if c == 'j' {
        'J'
    } else if c == 'k' {
        'K'
    } else if c == 'l' {
        'L'
    } else if c == 'm' {
        'M'
    } else if c == 'n' {
        'N'
    } else if c == 'o' {
        'O'
    } else if c == 'p' {
        'P'
    } else if c == 'q' {
        'Q'
    } else if c == 'r' {
        'R'
    } else if c == 's' {
        'S'
    } else if c == 't' {
        'T'
    } else if c == 'u' {
        'U'
    } else if c == 'v' {
        'V'
    } else if c == 'w' {
        'W'
    } else if c == 'x' {
        'X'
    } else if c == 'y' {
        'Y'
    } else if c == 'z' {
        'Z'
    } else {
        c
    }
}

/// Whether the ASCII-uppercased form of `code` is exactly `key`.
fn eq_upper(code: &str, key: &str) -> (b: bool)
    ensures
        b == (upper_chars(code@) == key@),
{
    let n = code.unicode_len();
    let m = key.unicode_len();
    if n != m {
        proof {
            assert(upper_chars(code@).len() == code@.len());
        }
        return false;
    }
    let mut i: usize = 0;
    while i < n
        invariant
            n == code@.len() && n == key@.len(),
            0 <= i <= n,
            forall|k: int| 0 <= k < i ==> upper_chars(code@)[k] == key@[k],
        decreases n - i,
    {
        let c = upper_char_x(code.get_char(i));
        let k = key.get_char(i);
        if c != k {
            proof {
                assert(upper_chars(code@)[i as int] != key@[i as int]);
            }
            return false;
        }
        proof {
            assert(upper_chars(code@)[i as int] == key@[i as int]);
        }
        i = i + 1;
    }
    proof {
        assert(upper_chars(code@) =~= key@);
    }
    true
}

/// Looks a currency or asset code up in the symbol table, uppercasing ASCII
/// letters first.  A code outside the table yields nothing, never an error.
pub fn get_symbol(code: &str) -> (r: Option<&'static str>)
    ensures
        r matches Some(t) ==> symbol_for(upper_chars(code@)) == Some(t@),
        r is None ==> symbol_for(upper_chars(code@)) is None,
{
    if eq_upper(code, "USD") {
        Some("$")
    } else if eq_upper(code, "EUR") {
        Some("€")
    } else if eq_upper(code, "JPY") {
        Some("¥")
    } else if eq_upper(code, "GBP") {
        Some("£")
    } else if eq_upper(code, "AUD") {
        Some("A$")
    } else if eq_upper(code, "CAD") {
        Some("CA$")
    } else if eq_upper(code, "CHF") {
        Some("CHF")
    } else if eq_upper(code, "CNY") {
        Some("¥")
    } else if eq_upper(code, "HKD") {
        Some("HK$")
    } else if eq_upper(code, "NZD") {
        Some("NZ$")
    } else if eq_upper(code, "SEK") {
        Some("kr")
    } else if eq_upper(code, "KRW") {
        Some("₩")
    } else if eq_upper(code, "SGD") {
        Some("S$")
    } else if eq_upper(code, "NOK") {
        Some("kr")
    } else if eq_upper(code, "MXN") {
        Some("MX$")
    } else if eq_upper(code, "INR") {
        Some("₹")
    } else if eq_upper(code, "RUB") {
        Some("₽")
    } else if eq_upper(code, "ZAR") {
        Some("R")
    } else if eq_upper(code, "TRY") {
        Some("₺")
    } else if eq_upper(code, "BRL") {
        Some("R$")
    } else if eq_upper(code, "DKK") {
        Some("kr")
    } else if eq_upper(code, "PLN") {
        Some("zł")
    } else if eq_upper(code, "THB") {
        Some("฿")
    } else if eq_upper(code, "IDR") {
        Some("Rp")
    } else if eq_upper(code, "HUF") {
        Some("Ft")
    } else if eq_upper(code, "CZK") {
        Some("Kč")
    } else if eq_upper(code, "ILS") {
        Some("₪")
    } else if eq_upper(code, "CLP") {
        Some("$")
    } else if eq_upper(code, "PHP") {
        Some("₱")
    } else if eq_upper(code, "AED") {
        Some("د.إ")
    } else if eq_upper(code, "SAR") {
        Some("ر.س")
    } else if eq_upper(code, "BTC") {
        Some("₿")
    } else if eq_upper(code, "ETH") {
        Some("Ξ")
    } else if eq_upper(code, "XRP") {
        Some("XRP")
    } else if eq_upper(code, "LTC") {
        Some("Ł")
    } else if eq_upper(code, "BCH") {
        Some("Ƀ")
    } else if eq_upper(code, "ADA") {
        Some("ADA")
    } else if eq_upper(code, "DOT") {
        Some("DOT")
    } else if eq_upper(code, "LINK") {
        Some("LINK")
    } else if eq_upper(code, "DOGE") {
        Some("Ð")
    } else if eq_upper(code, "USDT") {
        Some("₮")
    } else if eq_upper(code, "BNB") {
        Some("BNB")
    } else if eq_upper(code, "XAU") {
        Some("XAU")
    } else if eq_upper(code, "XAG") {
        Some("XAG")
    } else if eq_upper(code, "XPT") {
        Some("XPT")
    } else if eq_upper(code, "XPD") {
        Some("XPD")
    } else if eq_upper(code, "BTCUSD") {
        Some("BTC/USD")
    } else if eq_upper(code, "ETHUSD") {
        Some("ETH/USD")
    } else if eq_upper(code, "USDEUR") {
        Some("USD/EUR")
    } else {
        None
    }
}

/// Law: lookup is case-insensitive — two codes with the same ASCII-uppercase
/// form resolve to the same table entry.
pub proof fn lemma_lookup_case_insensitive(a: Seq<char>, b: Seq<char>)
    requires
        upper_chars(a) == upper_chars(b),
    ensures
        symbol_for(upper_chars(a)) == symbol_for(upper_chars(b)),
{
}

/// Uppercasing is idempotent, so a code that is already uppercase resolves
/// as itself.
pub proof fn lemma_upper_idempotent(s: Seq<char>)
    ensures
        upper_chars(upper_chars(s)) == upper_chars(s),
{
    assert forall|i: int| 0 <= i < s.len() implies upper_chars(upper_chars(s))[i] == upper_chars(
        s,
    )[i] by {
        assert(upper_char(upper_char(s[i])) == upper_char(s[i]));
    }
    assert(upper_chars(upper_chars(s)) =~= upper_chars(s));
}

} // verus!

