//! Exact decimal and fixed-point rendering of unsigned integers.

use vstd::prelude::*;
use vstd::string::StringExecFns;

verus! {

/// The character a single decimal digit prints as.
pub open spec fn spec_digit_char(d: nat) -> char {
    if d == 0 {
        '0'
    } else if d == 1 {
        '1'
    } else if d == 2 {
        '2'
    } else if d == 3 {
        '3'
    } else if d == 4 {
        '4'
    } else if d == 5 {
        '5'
    } else if d == 6 {
        '6'
    } else if d == 7 {
        '7'
    } else if d == 8 {
        '8'
    } else {
        '9'
    }
}

/// The decimal digit string of `n`, most significant digit first,
/// with no leading zeros (`0` prints as "0").
pub open spec fn spec_dec(n: nat) -> Seq<char>
    decreases n,
{
    if n < 10 {
        seq![spec_digit_char(n)]
    } else {
        spec_dec(n / 10).push(spec_digit_char(n % 10))
    }
}

/// A scaled value rendered with one decimal place: `deci` tenths
/// print as `deci / 10`, a dot, and the remaining tenth.
pub open spec fn spec_fixed1(deci: nat) -> Seq<char> {
    spec_dec(deci / 10) + seq!['.', spec_digit_char(deci % 10)]
}

/// A scaled value rendered with two decimal places: `centi` hundredths
/// print as `centi / 100`, a dot, and the two remaining digits.
pub open spec fn spec_fixed2(centi: nat) -> Seq<char> {
    spec_dec(centi / 100) + seq!['.', spec_digit_char((centi / 10) % 10), spec_digit_char(centi % 10)]
}

fn digit_str(d: u128) -> (s: &'static str)
    requires
        d < 10,
    ensures
        s@ =~= seq![spec_digit_char(d as nat)],
{
    proof {
        reveal_strlit("0");
        reveal_strlit("1");
        reveal_strlit("2");
        reveal_strlit("3");
        reveal_strlit("4");
        reveal_strlit("5");
        reveal_strlit("6");
        reveal_strlit("7");
        reveal_strlit("8");
        reveal_strlit("9");
    }
    match d {
        0 => "0",
        1 => "1",
        2 => "2",
        3 => "3",
        4 => "4",
        5 => "5",
        6 => "6",
        7 => "7",
        8 => "8",
        _ => "9",
    }
}

/// Renders `n` in decimal.
pub fn dec_u128(n: u128) -> (s: String)
    ensures
        s@ == spec_dec(n as nat),
    decreases n,
{
    if n < 10 {
        let s = String::from_str(digit_str(n));
        assert(s@ =~= spec_dec(n as nat));
        s
    } else {
        let mut s = dec_u128(n / 10);
        s.append(digit_str(n % 10));
        assert(s@ =~= spec_dec(n as nat));
        s
    }
}

/// Renders `n` in decimal.
pub fn dec_u64(n: u64) -> (s: String)
    ensures
        s@ == spec_dec(n as nat),
{
    dec_u128(n as u128)
}

/// Renders a count of tenths with one decimal place.
pub fn fixed1_u128(deci: u128) -> (s: String)
    ensures
        s@ == spec_fixed1(deci as nat),
{
    let mut s = dec_u128(deci / 10);
    proof {
        reveal_strlit(".");
    }
    s.append(".");
    s.append(digit_str(deci % 10));
    assert(s@ =~= spec_fixed1(deci as nat));
    s
}

/// A possibly negative count of tenths rendered with one decimal place:
/// a leading minus sign for negative values, then the magnitude.
pub open spec fn spec_fixed1_signed(deci: int) -> Seq<char> {
    if deci < 0 {
        seq!['-'] + spec_fixed1((-deci) as nat)
    } else {
        spec_fixed1(deci as nat)
    }
}

/// Renders a possibly negative count of tenths with one decimal place.
pub fn fixed1_i64(deci: i64) -> (s: String)
    ensures
        s@ == spec_fixed1_signed(deci as int),
{
    if deci >= 0 {
        let s = fixed1_u128(deci as u128);
        assert(s@ =~= spec_fixed1_signed(deci as int));
        s
    } else {
        let magnitude: u128 = (-(deci as i128)) as u128;
        proof {
            reveal_strlit("-");
        }
        let mut s = "-".to_owned();
        s.append(fixed1_u128(magnitude).as_str());
        assert(s@ =~= spec_fixed1_signed(deci as int));
        s
    }
}

/// Renders a count of hundredths with two decimal places.
pub fn fixed2_u128(centi: u128) -> (s: String)
    ensures
        s@ == spec_fixed2(centi as nat),
{
    let mut s = dec_u128(centi / 100);
    proof {
        reveal_strlit(".");
    }
    s.append(".");
    s.append(digit_str((centi / 10) % 10));
    s.append(digit_str(centi % 10));
    assert(s@ =~= spec_fixed2(centi as nat));
    s
}

} // verus!
