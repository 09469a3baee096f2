//! Base-10 digit characters: reading digit strings as unsigned numbers and
//! rendering unsigned numbers as numerals.

use vstd::prelude::*;
use vstd::string::*;

verus! {

/// The character standing for a single decimal digit value below ten.
pub open spec fn char_of_digit(d: u8) -> char {
    if d == 0 {
        '0'
    } else if d == 1 {
        '1'
    } else if d == 2 {
        '2'
    } else if d == 3 {
        '3'
    } else if d == 4 {
        '4'
    } else if d == 5 {
        '5'
    } else if d == 6 {
        '6'
    } else if d == 7 {
        '7'
    } else if d == 8 {
        '8'
    } else {
        '9'
    }
}

/// The value of a decimal digit character; ten marks a non-digit.
pub open spec fn digit_of_char(c: char) -> u8 {
    if c == '0' {
        0
    } else if c == '1' {
        1
    } else if c == '2' {
        2
    } else if c == '3' {
        3
    } else if c == '4' {
        4
    } else if c == '5' {
        5
    } else if c == '6' {
        6
    } else if c == '7' {
        7
    } else if c == '8' {
        8
    } else if c == '9' {
        9
    } else {
        10
    }
}

pub open spec fn is_digit_char(c: char) -> bool {
    digit_of_char(c) < 10
}

pub open spec fn all_digit_chars(s: Seq<char>) -> bool {
    forall|i: int| 0 <= i < s.len() ==> is_digit_char(s[i])
}

/// A digit string is a numeral when it is non-empty and all digits.
pub open spec fn digits_valid(s: Seq<char>) -> bool {
    s.len() > 0 && all_digit_chars(s)
}

/// The number a digit-character sequence denotes in base 10.
pub open spec fn chars_to_nat(s: Seq<char>) -> nat
    decreases s.len(),
{
    if s.len() == 0 {
        0
    } else {
        chars_to_nat(s.drop_last()) * 10 + digit_of_char(s.last()) as nat
    }
}

/// The base-10 numeral of a number: most significant digit first, no leading
/// zeros (a lone zero stands for zero itself).
pub open spec fn nat_to_chars(n: nat) -> Seq<char>
    decreases n,
{
    if n < 10 {
        seq![char_of_digit(n as u8)]
    } else {
        nat_to_chars(n / 10) + seq![char_of_digit((n % 10) as u8)]
    }
}

/// Reading a prefix of a digit string never denotes more than the whole.
pub proof fn lemma_chars_to_nat_take(s: Seq<char>, k: int)
    requires
        0 <= k <= s.len(),
    ensures
        chars_to_nat(s.take(k)) <= chars_to_nat(s),
    decreases s.len() - k,
{
    if k == s.len() {
        assert(s.take(k) =~= s);
    } else {
        assert(s.take(k + 1).drop_last() =~= s.take(k));
        assert(chars_to_nat(s.take(k + 1)) == chars_to_nat(s.take(k)) * 10 + digit_of_char(
            s.take(k + 1).last(),
        ) as nat);
        lemma_chars_to_nat_take(s, k + 1);
    }
}

/// The digit value of a character, for decimal digit characters only.
pub fn digit_val(c: char) -> (r: Option<u8>)
    ensures
        r is Some <==> is_digit_char(c),
        r matches Some(d) ==> d == digit_of_char(c),
{
    if c == '0' {
        Some(0)
    } else if c == '1' {
        Some(1)
    } else if c == '2' {
        Some(2)
    } else if c == '3' {
        Some(3)
    } else if c == '4' {
        Some(4)
    } else if c == '5' {
        Some(5)
    } else if c == '6' {
        Some(6)
    } else if c == '7' {
        Some(7)
    } else if c == '8' {
        Some(8)
    } else if c == '9' {
        Some(9)
    } else {
        None
    }
}

/// A one-character string slice for a digit value.
pub fn digit_str(d: u8) -> (r: &'static str)
    requires
        d < 10,
    ensures
        r@ == seq![char_of_digit(d)],
{
    proof {
        reveal_strlit("0");
        reveal_strlit("1");
        reveal_strlit("2");
        reveal_strlit("3");
        reveal_strlit("4");
        reveal_strlit("5");
        reveal_strlit("6");
        reveal_strlit("7");
        reveal_strlit("8");
        reveal_strlit("9");
        assert("0"@ =~= seq!['0']);
        assert("1"@ =~= seq!['1']);
        assert("2"@ =~= seq!['2']);
        assert("3"@ =~= seq!['3']);
        assert("4"@ =~= seq!['4']);
        assert("5"@ =~= seq!['5']);
        assert("6"@ =~= seq!['6']);
        assert("7"@ =~= seq!['7']);
        assert("8"@ =~= seq!['8']);
        assert("9"@ =~= seq!['9']);
    }
    if d == 0 {
        "0"
    } else if d == 1 {
        "1"
    } else if d == 2 {
        "2"
    } else if d == 3 {
        "3"
    } else if d == 4 {
        "4"
    } else if d == 5 {
        "5"
    } else if d == 6 {
        "6"
    } else if d == 7 {
        "7"
    } else if d == 8 {
        "8"
    } else {
        "9"
    }
}

/// Reads a non-empty all-digit string as a u64.  Returns nothing for an
/// empty string, a non-digit character, or a value over u64::MAX.
pub fn parse_digits_u64(s: &str) -> (r: Option<u64>)
    ensures
        r is Some <==> digits_valid(s@) && chars_to_nat(s@) <= u64::MAX,
        r matches Some(v) ==> v as nat == chars_to_nat(s@),
{
    let n = s.unicode_len();
    if n == 0 {
        return None;
    }
    let mut acc: u64 = 0;
    let mut i: usize = 0;
    while i < n
        invariant
            0 < n == s@.len(),
            0 <= i <= n,
            all_digit_chars(s@.take(i as int)),
            acc as nat == chars_to_nat(s@.take(i as int)),
        decreases n - i,
    {
        let c = s.get_char(i);
        let d: u8;
        match digit_val(c) {
            Some(dv) => {
                d = dv;
            },
            None => {
                assert(!is_digit_char(s@[i as int]));
                return None;
            },
        }
        proof {
            assert(s@.take(i + 1).drop_last() =~= s@.take(i as int));
            assert(chars_to_nat(s@.take(i + 1)) == chars_to_nat(s@.take(i as int)) * 10
                + digit_of_char(s@[i as int]) as nat);
        }
        let acc10: u64;
        match acc.checked_mul(10) {
            Some(x) => {
                acc10 = x;
            },
            None => {
                proof {
                    lemma_chars_to_nat_take(s@, i + 1);
                }
                return None;
            },
        }
        match acc10.checked_add(d as u64) {
            Some(x) => {
                acc = x;
            },
            None => {
                proof {
                    lemma_chars_to_nat_take(s@, i + 1);
                }
                return None;
            },
        }
        i = i + 1;
    }
    proof {
        assert(s@.take(n as int) =~= s@);
    }
    Some(acc)
}

/// Renders a number as its base-10 numeral.
pub fn u128_to_string(n: u128) -> (s: String)
    ensures
        s@ == nat_to_chars(n as nat),
    decreases n,
{
    if n < 10 {
        String::from_str(digit_str(n as u8))
    } else {
        let mut s = u128_to_string(n / 10);
        s.append(digit_str((n % 10) as u8));
        s
    }
}

} // verus!
