//! Fixed-point values: an unsigned integer `v` stands for the number
//! `v / 1_000_000`. Probabilities and trust weights are held this way, so
//! every reduction is exact integer arithmetic.

use vstd::prelude::*;
use vstd::string::*;

verus! {

/// The fixed-point unit: the integer that stands for 1.0.
pub const ONE: u32 = 1_000_000;

/// The product of two fixed-point values, rounded down.
pub open spec fn scale(value: nat, factor: nat) -> nat {
    value * factor / (ONE as nat)
}

/// The character of one decimal digit.
pub open spec fn digit_char(d: nat) -> char {
    if d == 0 {
        '0'
    } else if d == 1 {
        '1'
    } else if d == 2 {
        '2'
    } else if d == 3 {
        '3'
    } else if d == 4 {
        '4'
    } else if d == 5 {
        '5'
    } else if d == 6 {
        '6'
    } else if d == 7 {
        '7'
    } else if d == 8 {
        '8'
    } else {
        '9'
    }
}

/// The decimal numeral of `n`, without leading zeros.
pub open spec fn decimal_text(n: nat) -> Seq<char>
    decreases n,
{
    if n < 10 {
        seq![digit_char(n)]
    } else {
        decimal_text(n / 10).push(digit_char(n % 10))
    }
}

/// A fixed-point value in hundredths of a percent, rounded half up.
pub open spec fn percent_hundredths(value: nat) -> nat {
    (value + 50) / 100
}

/// A fixed-point value as a percentage with two decimals, such as `31.45%`.
pub open spec fn percent_text(value: nat) -> Seq<char> {
    let h = percent_hundredths(value);
    decimal_text(h / 100) + seq!['.', digit_char(h % 100 / 10), digit_char(h % 10), '%']
}

/// The product of a fixed-point value and a factor of at most 1.0, rounded
/// down.
pub fn scaled(value: u32, factor: u32) -> (r: u32)
    requires
        factor <= ONE,
    ensures
        r == scale(value as nat, factor as nat),
        r <= value,
{
    assert(value * factor <= value * ONE <= 0xffff_ffff * 1_000_000) by (nonlinear_arith)
        requires
            factor <= ONE,
            ONE == 1_000_000,
            value <= 0xffff_ffff,
    ;
    let product: u64 = (value as u64) * (factor as u64);
    let quotient: u64 = product / 1_000_000;
    quotient as u32
}

fn digit_str(d: u32) -> (s: &'static str)
    requires
        d < 10,
    ensures
        s@ == seq![digit_char(d as nat)],
{
    proof {
        reveal_strlit("0");
        reveal_strlit("1");
        reveal_strlit("2");
        reveal_strlit("3");
        reveal_strlit("4");
        reveal_strlit("5");
        reveal_strlit("6");
        reveal_strlit("7");
        reveal_strlit("8");
        reveal_strlit("9");
    }
    let s = if d == 0 {
        "0"
    } else if d == 1 {
        "1"
    } else if d == 2 {
        "2"
    } else if d == 3 {
        "3"
    } else if d == 4 {
        "4"
    } else if d == 5 {
        "5"
    } else if d == 6 {
        "6"
    } else if d == 7 {
        "7"
    } else if d == 8 {
        "8"
    } else {
        "9"
    };
    assert(s@ =~= seq![digit_char(d as nat)]);
    s
}

/// The decimal numeral of `n`.
pub fn decimal_string(n: u32) -> (s: String)
    ensures
        s@ == decimal_text(n as nat),
    decreases n,
{
    if n < 10 {
        String::from_str(digit_str(n))
    } else {
        let mut s = decimal_string(n / 10);
        s.append(digit_str(n % 10));
        assert(s@ =~= decimal_text(n as nat));
        s
    }
}

/// A fixed-point value as a percentage with two decimals, rounded half up.
pub fn format_percent(value: u32) -> (s: String)
    ensures
        s@ == percent_text(value as nat),
{
    let h: u64 = (value as u64 + 50) / 100;
    let whole: u32 = (h / 100) as u32;
    let tenths: u32 = (h % 100 / 10) as u32;
    let hundredths: u32 = (h % 10) as u32;
    proof {
        reveal_strlit(".");
        reveal_strlit("%");
    }
    let mut s = decimal_string(whole);
    s.append(".");
    s.append(digit_str(tenths));
    s.append(digit_str(hundredths));
    s.append("%");
    assert(s@ =~= percent_text(value as nat));
    s
}

} // verus!
