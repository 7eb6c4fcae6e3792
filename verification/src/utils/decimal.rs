//! Decimal rendering of integers, specified digit by digit.

use vstd::prelude::*;

verus! {

/// The digit character for one value below ten.
pub open spec fn spec_digit_char(d: nat) -> char {
    if d == 0 {
        '0'
    } else if d == 1 {
        '1'
    } else if d == 2 {
        '2'
    } else if d == 3 {
        '3'
    } else if d == 4 {
        '4'
    } else if d == 5 {
        '5'
    } else if d == 6 {
        '6'
    } else if d == 7 {
        '7'
    } else if d == 8 {
        '8'
    } else {
        '9'
    }
}

/// The decimal digits of `n`, most significant first, without leading
/// zeros (except for `n == 0`, which is the single digit `0`).
pub open spec fn spec_nat_digits(n: nat) -> Seq<char>
    decreases n,
{
    if n < 10 {
        seq![spec_digit_char(n)]
    } else {
        spec_nat_digits(n / 10) + seq![spec_digit_char(n % 10)]
    }
}

/// The decimal rendering of `v`: a minus sign for negative values,
/// then the digits of the magnitude.
pub open spec fn spec_i32_string(v: i32) -> Seq<char> {
    if v < 0 {
        seq!['-'] + spec_nat_digits((-(v as int)) as nat)
    } else {
        spec_nat_digits(v as nat)
    }
}

/// The decimal rendering of `v`.
pub open spec fn spec_u32_string(v: u32) -> Seq<char> {
    spec_nat_digits(v as nat)
}

/// The one-character string for a value below ten.
fn digit_str(d: u32) -> (s: &'static str)
    requires
        d < 10,
    ensures
        s@ == seq![spec_digit_char(d as nat)],
{
    let s: &'static str = match d {
        0 => "0",
        1 => "1",
        2 => "2",
        3 => "3",
        4 => "4",
        5 => "5",
        6 => "6",
        7 => "7",
        8 => "8",
        _ => "9",
    };
    proof {
        reveal_strlit("0");
        reveal_strlit("1");
        reveal_strlit("2");
        reveal_strlit("3");
        reveal_strlit("4");
        reveal_strlit("5");
        reveal_strlit("6");
        reveal_strlit("7");
        reveal_strlit("8");
        reveal_strlit("9");
        assert(s@ =~= seq![spec_digit_char(d as nat)]);
    }
    s
}

/// Appends the decimal digits of `n` to `out`.
fn push_digits(n: u32, out: &mut String)
    ensures
        final(out)@ == old(out)@ + spec_nat_digits(n as nat),
    decreases n,
{
    if n < 10 {
        out.append(digit_str(n));
    } else {
        push_digits(n / 10, out);
        out.append(digit_str(n % 10));
    }
    proof {
        assert(out@ =~= old(out)@ + spec_nat_digits(n as nat));
    }
}

/// The decimal rendering of `v` as a fresh string.
pub fn u32_to_string(v: u32) -> (s: String)
    ensures
        s@ == spec_u32_string(v),
{
    let mut s = String::new();
    push_digits(v, &mut s);
    proof {
        assert(s@ =~= spec_u32_string(v));
    }
    s
}

/// The decimal rendering of `v` as a fresh string, with a minus sign for
/// negative values.
pub fn i32_to_string(v: i32) -> (s: String)
    ensures
        s@ == spec_i32_string(v),
{
    let mut s = String::new();
    if v < 0 {
        let magnitude: u32 = (-(v as i64)) as u32;
        s.append("-");
        push_digits(magnitude, &mut s);
        proof {
            reveal_strlit("-");
            assert(s@ =~= spec_i32_string(v));
        }
    } else {
        push_digits(v as u32, &mut s);
        proof {
            assert(s@ =~= spec_i32_string(v));
        }
    }
    s
}

} // verus!
