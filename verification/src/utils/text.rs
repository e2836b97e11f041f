//! Numbers as text: the decimal and hexadecimal digits that the image and
//! the placement keys are written with.

use crate::utils::coordinate::UNITS_PER_PIXEL;
use vstd::prelude::*;

verus! {

/// `String::push` of std appends the one character to the string and leaves
/// the rest as it was.
pub assume_specification[ String::push ](s: &mut String, c: char)
    ensures
        final(s)@ == old(s)@.push(c),
;

/// The digit for a number below ten.
pub open spec fn digit_char(d: int) -> char {
    if d == 0 {
        '0'
    } else if d == 1 {
        '1'
    } else if d == 2 {
        '2'
    } else if d == 3 {
        '3'
    } else if d == 4 {
        '4'
    } else if d == 5 {
        '5'
    } else if d == 6 {
        '6'
    } else if d == 7 {
        '7'
    } else if d == 8 {
        '8'
    } else {
        '9'
    }
}

/// The upper-case hexadecimal digit for a number below sixteen.
pub open spec fn hex_digit_char(d: int) -> char {
    if d < 10 {
        digit_char(d)
    } else if d == 10 {
        'A'
    } else if d == 11 {
        'B'
    } else if d == 12 {
        'C'
    } else if d == 13 {
        'D'
    } else if d == 14 {
        'E'
    } else {
        'F'
    }
}

/// A natural number in decimal, without leading zeros.
pub open spec fn decimal(n: nat) -> Seq<char>
    decreases n,
{
    if n < 10 {
        seq![digit_char(n as int)]
    } else {
        decimal(n / 10).push(digit_char((n % 10) as int))
    }
}

/// An integer in decimal, with a minus sign where it is negative.
pub open spec fn signed_decimal(n: int) -> Seq<char> {
    if n < 0 {
        seq!['-'] + decimal((-n) as nat)
    } else {
        decimal(n as nat)
    }
}

/// A byte as two upper-case hexadecimal digits.
pub open spec fn hex_byte(b: u8) -> Seq<char> {
    seq![hex_digit_char(b as int / 16), hex_digit_char(b as int % 16)]
}

/// The fraction of a pixel that `part` units are, `part` below
/// [`UNITS_PER_PIXEL`]: nothing for zero, else a point and up to three
/// digits, none of them a trailing zero.
pub open spec fn fraction_text(part: int) -> Seq<char> {
    if part == 0 {
        Seq::empty()
    } else if part % 100 == 0 {
        seq!['.', digit_char(part / 100)]
    } else if part % 10 == 0 {
        seq!['.', digit_char(part / 100), digit_char(part / 10 % 10)]
    } else {
        seq!['.', digit_char(part / 100), digit_char(part / 10 % 10), digit_char(part % 10)]
    }
}

/// A length of `v` units in pixels, as a decimal number: 1500 units are
/// "1.5", -250 units are "-0.25", 13000 units are "13".
pub open spec fn units_text(v: int) -> Seq<char> {
    let magnitude = if v < 0 {
        -v
    } else {
        v
    };
    let sign = if v < 0 {
        seq!['-']
    } else {
        Seq::empty()
    };
    sign + decimal((magnitude / UNITS_PER_PIXEL as int) as nat) + fraction_text(
        magnitude % (UNITS_PER_PIXEL as int),
    )
}

fn digit(d: u8) -> (c: char)
    requires
        d < 10,
    ensures
        c == digit_char(d as int),
{
    match d {
        0 => '0',
        1 => '1',
        2 => '2',
        3 => '3',
        4 => '4',
        5 => '5',
        6 => '6',
        7 => '7',
        8 => '8',
        _ => '9',
    }
}

fn hex_digit(d: u8) -> (c: char)
    requires
        d < 16,
    ensures
        c == hex_digit_char(d as int),
{
    match d {
        10 => 'A',
        11 => 'B',
        12 => 'C',
        13 => 'D',
        14 => 'E',
        15 => 'F',
        _ => digit(d),
    }
}

/// Appends `n` in decimal.
pub fn push_decimal(out: &mut String, n: u64)
    ensures
        final(out)@ == old(out)@ + decimal(n as nat),
    decreases n,
{
    if n >= 10 {
        push_decimal(out, n / 10);
    }
    out.push(digit((n % 10) as u8));
}

/// Appends `n` in decimal, with its sign where it is negative.
pub fn push_signed_decimal(out: &mut String, n: i64)
    ensures
        final(out)@ == old(out)@ + signed_decimal(n as int),
{
    if n < 0 {
        out.push('-');
        let magnitude: u64 = (-(n + 1)) as u64 + 1;
        push_decimal(out, magnitude);
    } else {
        push_decimal(out, n as u64);
    }
}

/// Appends a byte as two upper-case hexadecimal digits.
pub fn push_hex_byte(out: &mut String, b: u8)
    ensures
        final(out)@ == old(out)@ + hex_byte(b),
{
    out.push(hex_digit(b / 16));
    out.push(hex_digit(b % 16));
}

/// Appends a length of `v` units, written in pixels: see [`units_text`].
pub fn push_units(out: &mut String, v: i64)
    ensures
        final(out)@ == old(out)@ + units_text(v as int),
{
    let magnitude: u64 = if v < 0 {
        out.push('-');
        (-(v + 1)) as u64 + 1
    } else {
        v as u64
    };
    push_decimal(out, magnitude / 1000);
    let part: u64 = magnitude % 1000;
    if part != 0 {
        out.push('.');
        out.push(digit((part / 100) as u8));
        if part % 100 != 0 {
            out.push(digit((part / 10 % 10) as u8));
            if part % 10 != 0 {
                out.push(digit((part % 10) as u8));
            }
        }
    }
}

/// A length of `v` units, written in pixels: see [`units_text`].
pub fn units_to_string(v: i64) -> (text: String)
    ensures
        text@ == units_text(v as int),
{
    let mut text = String::new();
    push_units(&mut text, v);
    text
}

/// `n` in decimal.
pub fn decimal_to_string(n: u64) -> (text: String)
    ensures
        text@ == decimal(n as nat),
{
    let mut text = String::new();
    push_decimal(&mut text, n);
    text
}

} // verus!
