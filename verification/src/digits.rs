//! Decimal rendering of integers, verified against recursive digit
//! specifications. The diary's file names, headings and commit messages are
//! all built from these pieces.

use vstd::prelude::*;

verus! {

/// The character for a single decimal digit.
pub open spec fn digit_char(d: nat) -> char {
    if d == 0 {
        '0'
    } else if d == 1 {
        '1'
    } else if d == 2 {
        '2'
    } else if d == 3 {
        '3'
    } else if d == 4 {
        '4'
    } else if d == 5 {
        '5'
    } else if d == 6 {
        '6'
    } else if d == 7 {
        '7'
    } else if d == 8 {
        '8'
    } else {
        '9'
    }
}

/// The decimal digits of a natural number, most significant first, with no
/// leading zeros (except for the number zero itself, written "0").
pub open spec fn dec_digits(n: nat) -> Seq<char>
    decreases n,
{
    if n < 10 {
        seq![digit_char(n)]
    } else {
        dec_digits(n / 10).push(digit_char(n % 10))
    }
}

/// The decimal rendering of an integer: a leading '-' for negative values,
/// plain digits otherwise.
pub open spec fn int_digits(i: int) -> Seq<char> {
    if i < 0 {
        seq!['-'] + dec_digits((-i) as nat)
    } else {
        dec_digits(i as nat)
    }
}

/// The decimal digits of a natural number below 100, left-padded with '0'
/// to two characters.
pub open spec fn padded2_digits(n: nat) -> Seq<char> {
    if n < 10 {
        seq!['0'] + dec_digits(n)
    } else {
        dec_digits(n)
    }
}

/// The one-character string for a single decimal digit.
fn digit_str(d: u64) -> (r: &'static str)
    requires
        d < 10,
    ensures
        r@ == seq![digit_char(d as nat)],
{
    proof {
        reveal_strlit("0");
        reveal_strlit("1");
        reveal_strlit("2");
        reveal_strlit("3");
        reveal_strlit("4");
        reveal_strlit("5");
        reveal_strlit("6");
        reveal_strlit("7");
        reveal_strlit("8");
        reveal_strlit("9");
    }
    if d == 0 {
        "0"
    } else if d == 1 {
        "1"
    } else if d == 2 {
        "2"
    } else if d == 3 {
        "3"
    } else if d == 4 {
        "4"
    } else if d == 5 {
        "5"
    } else if d == 6 {
        "6"
    } else if d == 7 {
        "7"
    } else if d == 8 {
        "8"
    } else {
        "9"
    }
}

/// Renders an unsigned number in decimal.
pub fn u64_string(n: u64) -> (r: String)
    ensures
        r@ == dec_digits(n as nat),
    decreases n,
{
    if n < 10 {
        String::from_str(digit_str(n))
    } else {
        let mut s = u64_string(n / 10);
        s.append(digit_str(n % 10));
        proof {
            assert(dec_digits(n as nat) =~= dec_digits(n as nat / 10) + seq![
                digit_char(n as nat % 10),
            ]);
        }
        s
    }
}

/// Renders a signed number in decimal, with a '-' sign when negative.
pub fn i32_string(n: i32) -> (r: String)
    ensures
        r@ == int_digits(n as int),
{
    if n >= 0 {
        u64_string(n as u64)
    } else {
        let mag: i64 = -(n as i64);
        let mut s = String::from_str("-");
        let digits = u64_string(mag as u64);
        s.append(digits.as_str());
        proof {
            reveal_strlit("-");
            assert(s@ =~= seq!['-'] + dec_digits((-(n as int)) as nat));
        }
        s
    }
}

/// Renders a number below 100 as exactly two decimal digits.
pub fn padded2_string(n: u32) -> (r: String)
    requires
        n < 100,
    ensures
        r@ == padded2_digits(n as nat),
{
    if n < 10 {
        let mut s = String::from_str("0");
        s.append(digit_str(n as u64));
        proof {
            reveal_strlit("0");
            assert(s@ =~= seq!['0'] + dec_digits(n as nat));
        }
        s
    } else {
        u64_string(n as u64)
    }
}

} // verus!
