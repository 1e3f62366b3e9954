//! Decimal rendering of integers.

use vstd::prelude::*;
use vstd::string::StringExecFns;

verus! {

/// The character that stands for the digit `d`.
pub open spec fn digit_char(d: nat) -> char
    recommends
        d < 10,
{
    if d == 0 {
        '0'
    } else if d == 1 {
        '1'
    } else if d == 2 {
        '2'
    } else if d == 3 {
        '3'
    } else if d == 4 {
        '4'
    } else if d == 5 {
        '5'
    } else if d == 6 {
        '6'
    } else if d == 7 {
        '7'
    } else if d == 8 {
        '8'
    } else {
        '9'
    }
}

/// The decimal digits of `n`, most significant first, without leading
/// zeros; zero is the single digit `0`.
pub open spec fn decimal_digits(n: nat) -> Seq<char>
    decreases n,
{
    if n < 10 {
        seq![digit_char(n)]
    } else {
        decimal_digits(n / 10).push(digit_char(n % 10))
    }
}

/// The decimal text of `v`: a minus sign if it is negative, then the digits
/// of its magnitude.
pub open spec fn decimal(v: int) -> Seq<char> {
    if v < 0 {
        seq!['-'] + decimal_digits((-v) as nat)
    } else {
        decimal_digits(v as nat)
    }
}

/// The text of one digit.
fn digit_str(d: u64) -> (s: &'static str)
    requires
        d < 10,
    ensures
        s@ == seq![digit_char(d as nat)],
{
    proof {
        reveal_strlit("0");
        reveal_strlit("1");
        reveal_strlit("2");
        reveal_strlit("3");
        reveal_strlit("4");
        reveal_strlit("5");
        reveal_strlit("6");
        reveal_strlit("7");
        reveal_strlit("8");
        reveal_strlit("9");
    }
    let s = match d {
        0 => "0",
        1 => "1",
        2 => "2",
        3 => "3",
        4 => "4",
        5 => "5",
        6 => "6",
        7 => "7",
        8 => "8",
        _ => "9",
    };
    assert(s@ =~= seq![digit_char(d as nat)]);
    s
}

/// Renders an unsigned number in decimal.
pub fn unsigned_to_decimal(n: u64) -> (s: String)
    ensures
        s@ == decimal_digits(n as nat),
    decreases n,
{
    if n < 10 {
        String::from_str(digit_str(n))
    } else {
        let mut s = unsigned_to_decimal(n / 10);
        s.append(digit_str(n % 10));
        assert(s@ =~= decimal_digits(n as nat));
        s
    }
}

/// Renders a signed number in decimal, with a leading minus sign if it is
/// negative.
pub fn signed_to_decimal(v: i64) -> (s: String)
    ensures
        s@ == decimal(v as int),
{
    if v < 0 {
        let magnitude: u64 = (-(v + 1)) as u64 + 1;
        proof {
            reveal_strlit("-");
        }
        let mut s = String::from_str("-");
        let digits = unsigned_to_decimal(magnitude);
        s.append(digits.as_str());
        assert(s@ =~= decimal(v as int));
        s
    } else {
        unsigned_to_decimal(v as u64)
    }
}

} // verus!
