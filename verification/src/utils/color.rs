//! Colours of three bytes: reading and writing `#RRGGBB`, and mixing two.

use crate::utils::text::{hex_byte, push_hex_byte};
use vstd::prelude::*;
use vstd::std_specs::convert::TryFromSpecImpl;
use vstd::utf8::encode_utf8;

verus! {

#[derive(Debug, Clone, Copy)]
pub struct Rgb {
    pub red: u8,
    pub green: u8,
    pub blue: u8,
}

#[derive(Debug)]
pub enum RgbError {
    InvalidFormat,
    InvalidHexValue,
}

/// A whole share, in hundredths of a percent.
pub const FULL_SHARE: u32 = 10000;

/// The value of a hexadecimal digit in ASCII, of either case.
pub open spec fn hex_digit_value(b: u8) -> Option<int> {
    if 0x30 <= b <= 0x39 {
        Some(b - 0x30)
    } else if 0x41 <= b <= 0x46 {
        Some(b - 0x41 + 10)
    } else if 0x61 <= b <= 0x66 {
        Some(b - 0x61 + 10)
    } else {
        None
    }
}

/// The number that two bytes spell in base sixteen: two digits, or a plus
/// sign and one digit.
pub open spec fn hex_pair_value(high: u8, low: u8) -> Option<int> {
    match hex_digit_value(low) {
        Some(units) => {
            if high == 0x2b {
                Some(units)
            } else {
                match hex_digit_value(high) {
                    Some(sixteens) => Some(16 * sixteens + units),
                    None => None,
                }
            }
        },
        None => None,
    }
}

/// The colour that the bytes of a text spell. The text has seven bytes and
/// starts with `#`, or its format is invalid; each of the three pairs of
/// bytes that follow spells a number in base sixteen, or the value is
/// invalid.
pub open spec fn parsed_color(bytes: Seq<u8>) -> Result<Rgb, RgbError> {
    if bytes.len() != 7 || bytes[0] != 0x23 {
        Err(RgbError::InvalidFormat)
    } else {
        match hex_pair_value(bytes[1], bytes[2]) {
            Some(red) => match hex_pair_value(bytes[3], bytes[4]) {
                Some(green) => match hex_pair_value(bytes[5], bytes[6]) {
                    Some(blue) => Ok(Rgb { red: red as u8, green: green as u8, blue: blue as u8 }),
                    None => Err(RgbError::InvalidHexValue),
                },
                None => Err(RgbError::InvalidHexValue),
            },
            None => Err(RgbError::InvalidHexValue),
        }
    }
}

/// A number of ten-thousandths, rounded to the nearest whole, halves away
/// from zero.
pub open spec fn rounded_share(ten_thousandths: int) -> int {
    if ten_thousandths >= 0 {
        (ten_thousandths + 5000) / 10000
    } else {
        -((5000 - ten_thousandths) / 10000)
    }
}

/// One channel of a mix: `from + (to - from) * share / FULL_SHARE`, rounded
/// to the nearest integer, halves away from zero, and kept within a byte.
pub open spec fn mixed_channel(from: u8, to: u8, share: u32) -> u8 {
    let exact = rounded_share(from * 10000 + (to - from) * share);
    if exact < 0 {
        0u8
    } else if exact > 255 {
        255u8
    } else {
        exact as u8
    }
}

fn hex_digit_of(b: u8) -> (value: Option<u8>)
    ensures
        value is Some == hex_digit_value(b) is Some,
        value matches Some(v) ==> hex_digit_value(b) == Some(v as int) && v < 16,
{
    if 0x30 <= b && b <= 0x39 {
        Some(b - 0x30)
    } else if 0x41 <= b && b <= 0x46 {
        Some(b - 0x41 + 10)
    } else if 0x61 <= b && b <= 0x66 {
        Some(b - 0x61 + 10)
    } else {
        None
    }
}

fn parse_component(high: u8, low: u8) -> (value: Result<u8, RgbError>)
    ensures
        value is Ok == hex_pair_value(high, low) is Some,
        value matches Ok(v) ==> hex_pair_value(high, low) == Some(v as int),
        value matches Err(e) ==> e == RgbError::InvalidHexValue,
{
    match hex_digit_of(low) {
        Some(units) => {
            if high == 0x2b {
                Ok(units)
            } else {
                match hex_digit_of(high) {
                    Some(sixteens) => Ok(16 * sixteens + units),
                    None => Err(RgbError::InvalidHexValue),
                }
            }
        },
        None => Err(RgbError::InvalidHexValue),
    }
}

fn mix_channel(from: u8, to: u8, share: u32) -> (mixed: u8)
    ensures
        mixed == mixed_channel(from, to, share),
{
    let difference: i64 = to as i64 - from as i64;
    assert(-255 * 0xffff_ffff <= difference * (share as i64) <= 255 * 0xffff_ffff)
        by (nonlinear_arith)
        requires
            -255 <= difference <= 255,
            0 <= share as i64 <= 0xffff_ffff,
    ;
    let numerator: i64 = from as i64 * 10000 + difference * share as i64;
    let exact: i64 = if numerator >= 0 {
        (numerator + 5000) / 10000
    } else {
        -((5000 - numerator) / 10000)
    };
    if exact < 0 {
        0
    } else if exact > 255 {
        255
    } else {
        exact as u8
    }
}

impl RgbError {
    /// What went wrong, in words.
    pub open spec fn text(self) -> Seq<char> {
        match self {
            RgbError::InvalidFormat => "Invalid hex color format. Use #RRGGBB."@,
            RgbError::InvalidHexValue => "Invalid hex value."@,
        }
    }

    pub fn to_string(&self) -> (message: String)
        ensures
            message@ == self.text(),
    {
        match self {
            RgbError::InvalidFormat => "Invalid hex color format. Use #RRGGBB.".to_string(),
            RgbError::InvalidHexValue => "Invalid hex value.".to_string(),
        }
    }
}

impl Rgb {
    /// The colour as `#RRGGBB`, with upper-case digits.
    pub open spec fn hex(self) -> Seq<char> {
        seq!['#'] + hex_byte(self.red) + hex_byte(self.green) + hex_byte(self.blue)
    }

    /// The colour that lies `share` hundredths of a percent of the way from
    /// this colour to `color`.
    pub open spec fn mixed(self, color: Rgb, share: u32) -> Rgb {
        Rgb {
            red: mixed_channel(self.red, color.red, share),
            green: mixed_channel(self.green, color.green, share),
            blue: mixed_channel(self.blue, color.blue, share),
        }
    }

    pub fn new(red: u8, green: u8, blue: u8) -> (color: Self)
        ensures
            color == (Rgb { red, green, blue }),
    {
        Rgb { red, green, blue }
    }

    /// Interpolates between two colours; `percentage` counts hundredths of a
    /// percent, so 10000 gives `color` and 0 gives this colour.
    pub fn interpolate(&self, color: &Rgb, percentage: u32) -> (mix: Self)
        ensures
            mix == self.mixed(*color, percentage),
    {
        Rgb::new(
            mix_channel(self.red, color.red, percentage),
            mix_channel(self.green, color.green, percentage),
            mix_channel(self.blue, color.blue, percentage),
        )
    }

    pub fn to_string(&self) -> (text: String)
        ensures
            text@ == self.hex(),
    {
        let mut text = String::new();
        text.push('#');
        push_hex_byte(&mut text, self.red);
        push_hex_byte(&mut text, self.green);
        push_hex_byte(&mut text, self.blue);
        text
    }
}

impl TryFrom<&str> for Rgb {
    type Error = RgbError;

    fn try_from(hex: &str) -> (color: Result<Self, Self::Error>)
    {
        let bytes = hex.as_bytes();
        if bytes.len() != 7 || bytes[0] != 0x23 {
            return Err(RgbError::InvalidFormat);
        }
        let red = parse_component(bytes[1], bytes[2])?;
        let green = parse_component(bytes[3], bytes[4])?;
        let blue = parse_component(bytes[5], bytes[6])?;
        Ok(Rgb { red, green, blue })
    }
}

impl TryFromSpecImpl<&str> for Rgb {
    open spec fn obeys_try_from_spec() -> bool {
        true
    }

    open spec fn try_from_spec(hex: &str) -> Result<Self, Self::Error> {
        parsed_color(encode_utf8(hex@))
    }
}

/// Mixing ends where it says: no share of the way gives the first colour,
/// the whole way gives the second.
pub proof fn lemma_mix_reaches_both_ends(from: Rgb, to: Rgb)
    ensures
        from.mixed(to, 0) == from,
        from.mixed(to, FULL_SHARE) == to,
{
    lemma_mixed_channel_ends(from.red, to.red);
    lemma_mixed_channel_ends(from.green, to.green);
    lemma_mixed_channel_ends(from.blue, to.blue);
}

proof fn lemma_mixed_channel_ends(from: u8, to: u8)
    ensures
        mixed_channel(from, to, 0) == from,
        mixed_channel(from, to, FULL_SHARE) == to,
{
    assert(from * 10000 + (to - from) * FULL_SHARE == to * 10000) by (nonlinear_arith)
        requires
            FULL_SHARE == 10000,
    ;
}

/// A mix of up to the whole way lies between the two colours, channel by
/// channel.
pub proof fn lemma_mixed_channel_lies_between(from: u8, to: u8, share: u32)
    requires
        share <= FULL_SHARE,
    ensures
        from <= to ==> from <= mixed_channel(from, to, share) <= to,
        to <= from ==> to <= mixed_channel(from, to, share) <= from,
{
    let numerator = from * 10000 + (to - from) * share;
    assert(from <= to ==> from * 10000 <= numerator <= to * 10000) by (nonlinear_arith)
        requires
            numerator == from * 10000 + (to - from) * share,
            0 <= share <= 10000,
    ;
    assert(to <= from ==> to * 10000 <= numerator <= from * 10000) by (nonlinear_arith)
        requires
            numerator == from * 10000 + (to - from) * share,
            0 <= share <= 10000,
    ;
}

} // verus!
