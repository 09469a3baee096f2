//! Exact decimals kept as their decimal digits: a sign, integer digits and
//! fraction digits.  Values are display-oriented and arbitrary precision, so
//! the text a source supplies is preserved exactly, with no binary rounding.

use crate::digits::{
    all_digit_chars, char_of_digit, digit_of_char, digit_str, digit_val, digits_valid,
    is_digit_char,
};
use vstd::prelude::*;
use vstd::string::*;

verus! {

/// Mathematical form of a decimal: sign, integer digits, fraction digits,
/// each digit a value below ten.
#[verifier::ext_equal]
pub struct DecV {
    pub neg: bool,
    pub int_digits: Seq<u8>,
    pub frac_digits: Seq<u8>,
}

/// An exact decimal number, canonical: no leading zeros ahead of the integer
/// part, no trailing zeros in the fraction, and zero is never negative.
#[derive(Clone, Debug)]
pub struct Dec {
    pub neg: bool,
    pub int_digits: Vec<u8>,
    pub frac_digits: Vec<u8>,
}

impl View for Dec {
    type V = DecV;

    open spec fn view(&self) -> DecV {
        DecV { neg: self.neg, int_digits: self.int_digits@, frac_digits: self.frac_digits@ }
    }
}

pub open spec fn digits_ok(s: Seq<u8>) -> bool {
    forall|i: int| 0 <= i < s.len() ==> s[i] < 10
}

/// Well-formed decimal: digits below ten, a non-empty integer part without
/// leading zeros, a fraction without trailing zeros, and no negative zero.
pub open spec fn dec_wf(v: DecV) -> bool {
    &&& digits_ok(v.int_digits)
    &&& digits_ok(v.frac_digits)
    &&& v.int_digits.len() > 0
    &&& (v.int_digits.len() > 1 ==> v.int_digits[0] != 0)
    &&& (v.frac_digits.len() > 0 ==> v.frac_digits.last() != 0)
    &&& ((v.int_digits == seq![0u8] && v.frac_digits.len() == 0) ==> !v.neg)
}

pub open spec fn chars_of_digits(s: Seq<u8>) -> Seq<char> {
    s.map_values(|d: u8| char_of_digit(d))
}

pub open spec fn digit_vals(s: Seq<char>) -> Seq<u8> {
    s.map_values(|c: char| digit_of_char(c))
}

/// The text of a decimal: optional minus, integer digits, and, when the
/// fraction is non-empty, a dot and the fraction digits.
pub open spec fn dec_to_chars(v: DecV) -> Seq<char> {
    (if v.neg {
        seq!['-']
    } else {
        Seq::<char>::empty()
    }) + chars_of_digits(v.int_digits) + (if v.frac_digits.len() > 0 {
        seq!['.'] + chars_of_digits(v.frac_digits)
    } else {
        Seq::<char>::empty()
    })
}

/// Index of the first dot in a character sequence, or a negative number
/// when there is none.
pub open spec fn first_dot(s: Seq<char>) -> int
    decreases s.len(),
{
    if s.len() == 0 {
        -1
    } else if s[0] == '.' {
        0
    } else if first_dot(s.drop_first()) < 0 {
        -1
    } else {
        1 + first_dot(s.drop_first())
    }
}

pub proof fn lemma_first_dot_props(s: Seq<char>)
    ensures
        first_dot(s) >= 0 ==> 0 <= first_dot(s) < s.len() && s[first_dot(s)] == '.' && (forall|
            k: int,
        |
            0 <= k < first_dot(s) ==> s[k] != '.'),
        first_dot(s) < 0 ==> forall|k: int| 0 <= k < s.len() ==> s[k] != '.',
    decreases s.len(),
{
    if s.len() > 0 && s[0] != '.' {
        lemma_first_dot_props(s.drop_first());
        let t = s.drop_first();
        if first_dot(t) < 0 {
            assert forall|k: int| 0 <= k < s.len() implies s[k] != '.' by {
                if k > 0 {
                    assert(t[k - 1] == s[k]);
                }
            }
        } else {
            assert(s[first_dot(s)] == t[first_dot(t)]);
            assert forall|k: int| 0 <= k < first_dot(s) implies s[k] != '.' by {
                if k > 0 {
                    assert(t[k - 1] == s[k]);
                }
            }
        }
    }
}

pub open spec fn strip_leading_zeros(s: Seq<u8>) -> Seq<u8>
    decreases s.len(),
{
    if s.len() > 1 && s[0] == 0 {
        strip_leading_zeros(s.drop_first())
    } else {
        s
    }
}

pub open spec fn strip_trailing_zeros(s: Seq<u8>) -> Seq<u8>
    decreases s.len(),
{
    if s.len() > 0 && s.last() == 0 {
        strip_trailing_zeros(s.drop_last())
    } else {
        s
    }
}

/// Canonical decimal from a raw sign and digit runs: leading integer zeros
/// and trailing fraction zeros go, and zero itself is never negative.
pub open spec fn dec_norm(neg: bool, ints: Seq<u8>, fracs: Seq<u8>) -> DecV {
    let i2 = strip_leading_zeros(ints);
    let f2 = strip_trailing_zeros(fracs);
    let zero = i2 == seq![0u8] && f2.len() == 0;
    DecV { neg: neg && !zero, int_digits: i2, frac_digits: f2 }
}

/// What parsing decimal text yields: an optional leading minus, a non-empty
/// digit run, and optionally one dot with a non-empty digit run after it.
pub open spec fn dec_parse_chars(s: Seq<char>) -> Option<DecV> {
    let neg = s.len() > 0 && s[0] == '-';
    let body = if neg {
        s.drop_first()
    } else {
        s
    };
    let j = first_dot(body);
    if j < 0 {
        if digits_valid(body) {
            Some(dec_norm(neg, digit_vals(body), Seq::empty()))
        } else {
            None
        }
    } else {
        let ip = body.take(j);
        let fp = body.skip(j + 1);
        if digits_valid(ip) && digits_valid(fp) {
            Some(dec_norm(neg, digit_vals(ip), digit_vals(fp)))
        } else {
            None
        }
    }
}

proof fn lemma_strip_leading_at(s: Seq<u8>, k: int)
    requires
        0 <= k < s.len(),
        forall|i: int| 0 <= i < k ==> s[i] == 0,
        k == s.len() - 1 || s[k] != 0,
    ensures
        strip_leading_zeros(s) == s.skip(k),
    decreases k,
{
    if k == 0 {
        assert(s.skip(0) =~= s);
    } else {
        lemma_strip_leading_at(s.drop_first(), k - 1);
        assert(s.drop_first().skip(k - 1) =~= s.skip(k));
    }
}

proof fn lemma_strip_trailing_at(s: Seq<u8>, k: int)
    requires
        0 <= k <= s.len(),
        forall|i: int| k <= i < s.len() ==> s[i] == 0,
        k == 0 || s[k - 1] != 0,
    ensures
        strip_trailing_zeros(s) == s.take(k),
    decreases s.len(),
{
    if s.len() > k {
        lemma_strip_trailing_at(s.drop_last(), k);
        assert(s.drop_last().take(k) =~= s.take(k));
    } else {
        assert(s.take(k) =~= s);
    }
}

/// Collects the decimal digit values of the characters between two indexes;
/// fails when any character there is not a digit.
fn parse_digit_run(s: &str, from: usize, to: usize) -> (r: Option<Vec<u8>>)
    requires
        from <= to <= s@.len(),
    ensures
        r matches Some(v) ==> all_digit_chars(s@.subrange(from as int, to as int)) && v@
            == digit_vals(s@.subrange(from as int, to as int)),
        r is None ==> !all_digit_chars(s@.subrange(from as int, to as int)),
{
    let mut v: Vec<u8> = Vec::new();
    let mut i: usize = from;
    while i < to
        invariant
            from <= i <= to <= s@.len(),
            all_digit_chars(s@.subrange(from as int, i as int)),
            v@ == digit_vals(s@.subrange(from as int, i as int)),
        decreases to - i,
    {
        let c = s.get_char(i);
        match digit_val(c) {
            Some(d) => {
                v.push(d);
                proof {
                    assert(s@.subrange(from as int, i + 1).drop_last() =~= s@.subrange(
                        from as int,
                        i as int,
                    ));
                    assert(v@ =~= digit_vals(s@.subrange(from as int, i + 1)));
                }
            },
            None => {
                assert(s@.subrange(from as int, to as int)[i - from] == s@[i as int]);
                return None;
            },
        }
        i = i + 1;
    }
    proof {
        assert(s@.subrange(from as int, to as int) =~= s@.subrange(from as int, i as int));
    }
    Some(v)
}

/// Copies the digits with any leading zeros removed, keeping a last lone
/// zero.
fn strip_lead_vec(ints: &Vec<u8>) -> (r: Vec<u8>)
    requires
        digits_ok(ints@),
        ints@.len() > 0,
    ensures
        r@ == strip_leading_zeros(ints@),
        digits_ok(r@),
        r@.len() > 0,
        r@.len() > 1 ==> r@[0] != 0,
{
    let ilen = ints.len();
    let mut start: usize = 0;
    while start + 1 < ilen && ints[start] == 0
        invariant
            ilen == ints@.len(),
            0 <= start < ints@.len(),
            forall|k: int| 0 <= k < start ==> ints@[k] == 0,
        decreases ints@.len() - start,
    {
        start = start + 1;
    }
    proof {
        lemma_strip_leading_at(ints@, start as int);
    }
    let mut r: Vec<u8> = Vec::new();
    let mut i: usize = start;
    while i < ilen
        invariant
            ilen == ints@.len(),
            start <= i <= ints@.len(),
            r@ == ints@.subrange(start as int, i as int),
        decreases ints@.len() - i,
    {
        r.push(ints[i]);
        proof {
            assert(ints@.subrange(start as int, i + 1).drop_last() =~= ints@.subrange(
                start as int,
                i as int,
            ));
            assert(r@ =~= ints@.subrange(start as int, i + 1));
        }
        i = i + 1;
    }
    proof {
        assert(r@ =~= ints@.skip(start as int));
    }
    r
}

/// Copies the digits with any trailing zeros removed.
fn strip_trail_vec(fracs: &Vec<u8>) -> (r: Vec<u8>)
    requires
        digits_ok(fracs@),
    ensures
        r@ == strip_trailing_zeros(fracs@),
        digits_ok(r@),
        r@.len() > 0 ==> r@.last() != 0,
{
    let mut flen: usize = fracs.len();
    while flen > 0 && fracs[flen - 1] == 0
        invariant
            0 <= flen <= fracs@.len(),
            forall|k: int| flen <= k < fracs@.len() ==> fracs@[k] == 0,
        decreases flen,
    {
        flen = flen - 1;
    }
    proof {
        lemma_strip_trailing_at(fracs@, flen as int);
    }
    let mut r: Vec<u8> = Vec::new();
    let mut j: usize = 0;
    while j < flen
        invariant
            0 <= j <= flen <= fracs@.len(),
            r@ == fracs@.subrange(0, j as int),
        decreases flen - j,
    {
        r.push(fracs[j]);
        proof {
            assert(fracs@.subrange(0, j + 1).drop_last() =~= fracs@.subrange(0, j as int));
            assert(r@ =~= fracs@.subrange(0, j + 1));
        }
        j = j + 1;
    }
    proof {
        assert(r@ =~= fracs@.take(flen as int));
    }
    r
}

/// Builds the canonical decimal from raw digit runs.
fn normalize(neg: bool, ints: &Vec<u8>, fracs: &Vec<u8>) -> (d: Dec)
    requires
        digits_ok(ints@),
        digits_ok(fracs@),
        ints@.len() > 0,
    ensures
        d@ == dec_norm(neg, ints@, fracs@),
        dec_wf(d@),
{
    let i2 = strip_lead_vec(ints);
    let f2 = strip_trail_vec(fracs);
    let zero = i2.len() == 1 && i2[0] == 0 && f2.len() == 0;
    proof {
        if zero {
            assert(i2@ =~= seq![0u8]);
        }
        if i2@ == seq![0u8] && f2@.len() == 0 {
            assert(i2@.len() == 1 && i2@[0] == 0);
        }
    }
    Dec { neg: neg && !zero, int_digits: i2, frac_digits: f2 }
}

impl Dec {
    /// Parses decimal text.  Anything but an optional minus, digits, and at
    /// most one dot with digits on both sides of it is rejected.
    pub fn parse_text(s: &str) -> (r: Option<Dec>)
        ensures
            r matches Some(d) ==> dec_parse_chars(s@) == Some(d@) && dec_wf(d@),
            r is None ==> dec_parse_chars(s@) is None,
    {
        let n = s.unicode_len();
        let neg = n > 0 && s.get_char(0) == '-';
        let start: usize = if neg {
            1
        } else {
            0
        };
        let ghost body = if neg {
            s@.drop_first()
        } else {
            s@
        };
        proof {
            assert(body =~= s@.skip(start as int));
            lemma_first_dot_props(body);
        }
        // find the first dot, if any
        let mut j: usize = start;
        while j < n && s.get_char(j) != '.'
            invariant
                start <= j <= n == s@.len(),
                body == s@.skip(start as int),
                forall|k: int| start <= k < j ==> s@[k] != '.',
            decreases n - j,
        {
            j = j + 1;
        }
        proof {
            assert forall|k: int| 0 <= k < j - start implies body[k] != '.' by {
                assert(body[k] == s@[k + start]);
            }
        }
        if j == n {
            // no dot anywhere in the body
            proof {
                if first_dot(body) >= 0 {
                    assert(body[first_dot(body)] == '.');
                    assert(false);
                }
            }
            match parse_digit_run(s, start, n) {
                Some(ints) => {
                    proof {
                        assert(s@.subrange(start as int, n as int) =~= body);
                    }
                    if ints.len() == 0 {
                        return None;
                    }
                    let d = normalize(neg, &ints, &Vec::new());
                    proof {
                        assert(dec_norm(neg, ints@, Seq::<u8>::empty()) == dec_norm(
                            neg,
                            digit_vals(body),
                            Seq::<u8>::empty(),
                        ));
                    }
                    Some(d)
                },
                None => {
                    proof {
                        assert(s@.subrange(start as int, n as int) =~= body);
                    }
                    None
                },
            }
        } else {
            // dot at absolute index j
            proof {
                let fd = first_dot(body);
                assert(body[j - start] == s@[j as int]);
                if fd < 0 {
                    assert(false);
                }
                if fd < j - start {
                    assert(body[fd] == '.');
                    assert(false);
                }
                if fd > j - start {
                    assert(false);
                }
                assert(fd == j - start);
            }
            let ip = match parse_digit_run(s, start, j) {
                Some(v) => v,
                None => {
                    proof {
                        assert(s@.subrange(start as int, j as int) =~= body.take(j - start));
                    }
                    return None;
                },
            };
            let fp = match parse_digit_run(s, j + 1, n) {
                Some(v) => v,
                None => {
                    proof {
                        assert(s@.subrange(j + 1, n as int) =~= body.skip(j - start + 1));
                    }
                    return None;
                },
            };
            proof {
                assert(s@.subrange(start as int, j as int) =~= body.take(j - start));
                assert(s@.subrange(j + 1, n as int) =~= body.skip(j - start + 1));
            }
            if ip.len() == 0 || fp.len() == 0 {
                return None;
            }
            let d = normalize(neg, &ip, &fp);
            Some(d)
        }
    }

    /// Renders the decimal exactly as its text.
    pub fn to_text(&self) -> (s: String)
        requires
            dec_wf(self@),
        ensures
            s@ == dec_to_chars(self@),
    {
        proof {
            reveal_strlit("-");
            reveal_strlit(".");
            assert("-"@ =~= seq!['-']);
            assert("."@ =~= seq!['.']);
        }
        let mut s = String::new();
        if self.neg {
            s.append("-");
        }
        let ghost sign = if self.neg {
            seq!['-']
        } else {
            Seq::<char>::empty()
        };
        proof {
            assert(s@ =~= sign);
        }
        let mut i: usize = 0;
        let n = self.int_digits.len();
        while i < n
            invariant
                dec_wf(self@),
                n == self.int_digits@.len(),
                0 <= i <= n,
                sign == (if self.neg {
                    seq!['-']
                } else {
                    Seq::<char>::empty()
                }),
                s@ == sign + chars_of_digits(self.int_digits@.take(i as int)),
            decreases n - i,
        {
            s.append(digit_str(self.int_digits[i]));
            proof {
                assert(self.int_digits@.take(i + 1).drop_last() =~= self.int_digits@.take(i as int));
                assert(s@ =~= sign + chars_of_digits(self.int_digits@.take(i + 1)));
            }
            i = i + 1;
        }
        proof {
            assert(self.int_digits@.take(n as int) =~= self.int_digits@);
        }
        let m = self.frac_digits.len();
        if m > 0 {
            s.append(".");
            let mut k: usize = 0;
            while k < m
                invariant
                    dec_wf(self@),
                    m == self.frac_digits@.len(),
                    0 <= k <= m,
                    sign == (if self.neg {
                        seq!['-']
                    } else {
                        Seq::<char>::empty()
                    }),
                    s@ == sign + chars_of_digits(self.int_digits@) + seq!['.'] + chars_of_digits(
                        self.frac_digits@.take(k as int),
                    ),
                decreases m - k,
            {
                s.append(digit_str(self.frac_digits[k]));
                proof {
                    assert(self.frac_digits@.take(k + 1).drop_last() =~= self.frac_digits@.take(
                        k as int,
                    ));
                    assert(s@ =~= sign + chars_of_digits(self.int_digits@) + seq!['.']
                        + chars_of_digits(self.frac_digits@.take(k + 1)));
                }
                k = k + 1;
            }
            proof {
                assert(self.frac_digits@.take(m as int) =~= self.frac_digits@);
                assert(s@ =~= dec_to_chars(self@));
            }
        } else {
            proof {
                assert(s@ =~= dec_to_chars(self@));
            }
        }
        s
    }
}

/// Law: rendering a well-formed decimal and parsing the text back yields the
/// same decimal — the text form preserves the exact decimal value.
pub proof fn lemma_dec_round_trip(v: DecV)
    requires
        dec_wf(v),
    ensures
        dec_parse_chars(dec_to_chars(v)) == Some(v),
{
    let s = dec_to_chars(v);
    assert forall|d: u8| d < 10 implies digit_of_char(char_of_digit(d)) == d && char_of_digit(d)
        != '-' && char_of_digit(d) != '.' && is_digit_char(char_of_digit(d)) by {}
    let ints = chars_of_digits(v.int_digits);
    let fracs = chars_of_digits(v.frac_digits);
    assert(digit_vals(ints) =~= v.int_digits);
    assert(digit_vals(fracs) =~= v.frac_digits);
    // the rendered text starts with a minus exactly when the value is negative
    if v.neg {
        assert(s[0] == '-');
    } else {
        assert(s[0] == ints[0]);
        assert(s[0] != '-');
    }
    let body = if v.neg {
        s.drop_first()
    } else {
        s
    };
    lemma_first_dot_props(body);
    // normalizing canonical digit runs changes nothing
    assert(strip_leading_zeros(v.int_digits) == v.int_digits);
    assert(strip_trailing_zeros(v.frac_digits) == v.frac_digits);
    if v.frac_digits.len() == 0 {
        assert(body =~= ints);
        if first_dot(body) >= 0 {
            assert(body[first_dot(body)] == '.');
            assert(false);
        }
        assert(digits_valid(body));
        let w = dec_norm(v.neg, digit_vals(body), Seq::<u8>::empty());
        assert(strip_trailing_zeros(Seq::<u8>::empty()) =~= Seq::<u8>::empty());
        if v.int_digits == seq![0u8] {
            assert(!v.neg);
            assert(w =~= v);
        } else {
            assert(w =~= v);
        }
    } else {
        assert(body =~= ints + seq!['.'] + fracs);
        let j = ints.len() as int;
        assert(body[j] == '.');
        assert forall|k: int| 0 <= k < j implies body[k] != '.' by {
            assert(body[k] == ints[k]);
        }
        let fd = first_dot(body);
        if fd < 0 {
            assert(false);
        }
        if fd < j {
            assert(body[fd] == '.');
            assert(false);
        }
        if fd > j {
            assert(false);
        }
        assert(fd == j);
        assert(body.take(j) =~= ints);
        assert(body.skip(j + 1) =~= fracs);
        assert(digits_valid(ints));
        assert(digits_valid(fracs));
        let w = dec_norm(v.neg, digit_vals(ints), digit_vals(fracs));
        assert(w.frac_digits.len() > 0);
        assert(w =~= v);
    }
}

} // verus!
