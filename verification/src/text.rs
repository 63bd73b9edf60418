//! Small helpers on text.

use vstd::prelude::*;
use vstd::string::*;

verus! {

/// Whether two texts hold the same characters.
pub fn same_text(a: &str, b: &str) -> (r: bool)
    ensures
        r == (a@ == b@),
{
    let x = a.to_string();
    let y = b.to_string();
    x == y
}

/// What is left of a text once the white space at both ends is removed,
/// as the standard library's `str::trim` removes it.
pub uninterp spec fn trimmed(text: Seq<char>) -> Seq<char>;

/// Calls `str::trim`. Its result is known here only by the name `trimmed`.
#[verifier::external_body]
pub(crate) fn trim_text(s: &str) -> (r: &str)
    ensures
        r@ == trimmed(s@),
{
    s.trim()
}

/// Whether a text is empty once trimmed.
pub fn is_blank(s: &str) -> (r: bool)
    ensures
        r == (trimmed(s@).len() == 0),
{
    trim_text(s).is_empty()
}

/// The character of a decimal digit.
pub open spec fn digit_char(d: int) -> char {
    if d == 0 {
        '0'
    } else if d == 1 {
        '1'
    } else if d == 2 {
        '2'
    } else if d == 3 {
        '3'
    } else if d == 4 {
        '4'
    } else if d == 5 {
        '5'
    } else if d == 6 {
        '6'
    } else if d == 7 {
        '7'
    } else if d == 8 {
        '8'
    } else {
        '9'
    }
}

/// A number written in decimal digits, without leading zeros.
pub open spec fn decimal(n: nat) -> Seq<char>
    decreases n,
{
    if n < 10 {
        seq![digit_char(n as int)]
    } else {
        decimal(n / 10).push(digit_char((n % 10) as int))
    }
}

/// An amount of cents written as units and two decimals, as in `12.05`.
pub open spec fn money(cents: nat) -> Seq<char> {
    decimal(cents / 100) + seq!['.', digit_char(((cents % 100) / 10) as int), digit_char((cents % 10) as int)]
}

/// A number of tenths written with one decimal, as in `7.5`.
pub open spec fn tenths(n: nat) -> Seq<char> {
    decimal(n / 10) + seq!['.', digit_char((n % 10) as int)]
}

/// A number written in at least four digits, with zeros in front where it
/// has fewer.
pub open spec fn four_digits(n: nat) -> Seq<char> {
    if n < 10 {
        seq!['0', '0', '0'] + decimal(n)
    } else if n < 100 {
        seq!['0', '0'] + decimal(n)
    } else if n < 1000 {
        seq!['0'] + decimal(n)
    } else {
        decimal(n)
    }
}

fn digit_text(d: u8) -> (r: &'static str)
    requires
        d < 10,
    ensures
        r@ == seq![digit_char(d as int)],
{
    proof {
        reveal_strlit("0");
        reveal_strlit("1");
        reveal_strlit("2");
        reveal_strlit("3");
        reveal_strlit("4");
        reveal_strlit("5");
        reveal_strlit("6");
        reveal_strlit("7");
        reveal_strlit("8");
        reveal_strlit("9");
    }
    let r = if d == 0 {
        "0"
    } else if d == 1 {
        "1"
    } else if d == 2 {
        "2"
    } else if d == 3 {
        "3"
    } else if d == 4 {
        "4"
    } else if d == 5 {
        "5"
    } else if d == 6 {
        "6"
    } else if d == 7 {
        "7"
    } else if d == 8 {
        "8"
    } else {
        "9"
    };
    assert(r@ =~= seq![digit_char(d as int)]);
    r
}

/// Writes a number in decimal digits.
pub fn decimal_text(n: u128) -> (r: String)
    ensures
        r@ == decimal(n as nat),
    decreases n,
{
    if n < 10 {
        digit_text(n as u8).to_string()
    } else {
        let front = decimal_text(n / 10);
        let r = front.concat(digit_text((n % 10) as u8));
        assert(r@ =~= decimal(n as nat));
        r
    }
}

/// Writes an amount of cents as units and two decimals.
pub fn money_text(cents: u128) -> (r: String)
    ensures
        r@ == money(cents as nat),
{
    proof {
        reveal_strlit(".");
    }
    let r = decimal_text(cents / 100).concat(".").concat(
        digit_text(((cents % 100) / 10) as u8),
    ).concat(digit_text((cents % 10) as u8));
    assert(r@ =~= money(cents as nat));
    r
}

/// Writes a number of tenths with one decimal.
pub fn tenths_text(n: u128) -> (r: String)
    ensures
        r@ == tenths(n as nat),
{
    proof {
        reveal_strlit(".");
    }
    let r = decimal_text(n / 10).concat(".").concat(digit_text((n % 10) as u8));
    assert(r@ =~= tenths(n as nat));
    r
}

/// Writes a number in at least four digits.
pub fn four_digit_text(n: u128) -> (r: String)
    ensures
        r@ == four_digits(n as nat),
{
    proof {
        reveal_strlit("000");
        reveal_strlit("00");
        reveal_strlit("0");
    }
    let digits = decimal_text(n);
    let r = if n < 10 {
        "000".to_string().concat(digits.as_str())
    } else if n < 100 {
        "00".to_string().concat(digits.as_str())
    } else if n < 1000 {
        "0".to_string().concat(digits.as_str())
    } else {
        digits
    };
    assert(r@ =~= four_digits(n as nat));
    r
}

} // verus!
