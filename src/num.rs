use vstd::prelude::*;

use crate::text::{push_str, string_of_chars};

verus! {

/// Number of millionths in one whole unit.
pub const SCALE: i64 = 1000000;

/// A decimal quantity (a length in pixels, an angle in radians, a colour
/// channel, a weight) held as a whole number of millionths.
#[derive(Clone, Copy, Debug, PartialEq, Eq, Structural)]
pub struct Num {
    pub micros: i64,
}

/// The character of a decimal digit.
pub open spec fn digit_char(d: int) -> char {
    if d == 0 { '0' }
    else if d == 1 { '1' }
    else if d == 2 { '2' }
    else if d == 3 { '3' }
    else if d == 4 { '4' }
    else if d == 5 { '5' }
    else if d == 6 { '6' }
    else if d == 7 { '7' }
    else if d == 8 { '8' }
    else { '9' }
}

/// Decimal digits of a natural number, most significant first, no leading zeros.
pub open spec fn nat_digits(n: nat) -> Seq<char>
    decreases n,
{
    if n < 10 {
        seq![digit_char(n as int)]
    } else {
        nat_digits(n / 10) + seq![digit_char((n % 10) as int)]
    }
}

/// Digits of the fraction `rem / (10 * unit)`, with the trailing zeros left out.
pub open spec fn frac_digits(rem: nat, unit: nat) -> Seq<char>
    decreases unit,
{
    if rem == 0 || unit == 0 {
        Seq::empty()
    } else {
        seq![digit_char((rem / unit) as int)] + frac_digits(rem % unit, unit / 10)
    }
}

/// Shortest decimal text of `v` millionths: an optional minus sign, the whole
/// part, and the fraction only where it is not zero (`25.5`, `51`, `-0.125`).
pub open spec fn decimal_text(v: int) -> Seq<char> {
    let mag: nat = if v < 0 { (-v) as nat } else { v as nat };
    let sign: Seq<char> = if v < 0 { seq!['-'] } else { Seq::empty() };
    let whole = nat_digits(mag / (SCALE as nat));
    let rem: nat = mag % (SCALE as nat);
    if rem == 0 {
        sign + whole
    } else {
        sign + whole + seq!['.'] + frac_digits(rem, (SCALE / 10) as nat)
    }
}

/// Text of a whole number.
pub open spec fn int_text(n: int) -> Seq<char> {
    decimal_text(n * SCALE)
}

/// `n / d` rounded to the nearest integer, halves away from zero.
pub open spec fn round_div(n: int, d: int) -> int {
    if n >= 0 {
        (2 * n + d) / (2 * d)
    } else {
        -((2 * (-n) + d) / (2 * d))
    }
}

fn digit(d: u128) -> (c: char)
    requires
        d < 10,
    ensures
        c == digit_char(d as int),
{
    if d == 0 { '0' }
    else if d == 1 { '1' }
    else if d == 2 { '2' }
    else if d == 3 { '3' }
    else if d == 4 { '4' }
    else if d == 5 { '5' }
    else if d == 6 { '6' }
    else if d == 7 { '7' }
    else if d == 8 { '8' }
    else { '9' }
}

fn push_nat_digits(out: &mut Vec<char>, n: u128)
    ensures
        final(out)@ == old(out)@ + nat_digits(n as nat),
    decreases n,
{
    if n < 10 {
        out.push(digit(n));
    } else {
        push_nat_digits(out, n / 10);
        out.push(digit(n % 10));
        assert(final(out)@ == old(out)@ + nat_digits(n as nat));
    }
}

/// One of 1, 10, ..., 100000: the place value of a fraction digit.
pub open spec fn is_place(u: int) -> bool {
    u == 1 || u == 10 || u == 100 || u == 1000 || u == 10000 || u == 100000
}

fn push_frac_digits(out: &mut Vec<char>, rem: u128, unit: u128)
    requires
        is_place(unit as int),
        rem < 10 * unit,
    ensures
        final(out)@ == old(out)@ + frac_digits(rem as nat, unit as nat),
    decreases unit,
{
    if rem == 0 {
    } else {
        out.push(digit(rem / unit));
        if unit == 1 {
            assert(rem % 1 == 0);
            assert(frac_digits(0, 0) == Seq::<char>::empty());
        } else {
            push_frac_digits(out, rem % unit, unit / 10);
        }
        assert(final(out)@ == old(out)@ + frac_digits(rem as nat, unit as nat));
    }
}

/// Shortest decimal text of `v` millionths, see `decimal_text`.
pub fn decimal_chars(v: i128) -> (r: Vec<char>)
    requires
        v > i128::MIN,
    ensures
        r@ == decimal_text(v as int),
{
    let mut out: Vec<char> = Vec::new();
    let mag: u128 = if v < 0 { (-v) as u128 } else { v as u128 };
    if v < 0 {
        out.push('-');
    }
    push_nat_digits(&mut out, mag / 1000000);
    let rem: u128 = mag % 1000000;
    if rem != 0 {
        out.push('.');
        push_frac_digits(&mut out, rem, 100000);
    }
    out
}

impl Num {
    /// Shortest decimal text of the quantity (`8`, `25.5`, `-0.125`).
    pub fn text(&self) -> (r: String)
        ensures
            r@ == decimal_text(self.micros as int),
    {
        string_of_chars(decimal_chars(self.micros as i128))
    }

    /// The quantity followed by the unit `px` (`8px`).
    pub fn px(&self) -> (r: String)
        ensures
            r@ == decimal_text(self.micros as int) + "px"@,
    {
        let mut v = decimal_chars(self.micros as i128);
        push_str(&mut v, "px");
        string_of_chars(v)
    }
}

/// Text of a whole number (`-90`).
pub fn int_chars(n: i64) -> (r: Vec<char>)
    ensures
        r@ == int_text(n as int),
{
    decimal_chars((n as i128) * 1000000)
}

/// `n / d` rounded to the nearest integer, halves away from zero.
pub fn round_div_exec(n: i128, d: i128) -> (r: i128)
    requires
        d > 0,
        -0x0100_0000_0000_0000_0000_0000_0000_0000 < n < 0x0100_0000_0000_0000_0000_0000_0000_0000,
        d < 0x0100_0000_0000_0000_0000_0000_0000_0000,
    ensures
        r == round_div(n as int, d as int),
{
    if n >= 0 {
        (2 * n + d) / (2 * d)
    } else {
        -((2 * (-n) + d) / (2 * d))
    }
}

} // verus!
