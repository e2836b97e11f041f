//! Ages of cached responses: a number and a unit, such as `30s` or `1h`.

use crate::constants::date::{
    DAY_TO_SECONDS, HOUR_TO_SECONDS, MINUTE_TO_SECONDS, MONTH_TO_SECONDS, WEEK_TO_SECONDS,
    YEAR_TO_SECONDS,
};
use vstd::prelude::*;
use vstd::string::StringExecFns;
use vstd::utf8::encode_utf8;

verus! {

/// The byte is a decimal digit in ASCII.
pub open spec fn is_digit(b: u8) -> bool {
    0x30 <= b <= 0x39
}

/// Every byte is a decimal digit.
pub open spec fn all_digits(bytes: Seq<u8>) -> bool {
    forall|i: int| 0 <= i < bytes.len() ==> is_digit(#[trigger] bytes[i])
}

/// The number that decimal digits spell; nothing spells zero.
pub open spec fn digits_value(digits: Seq<u8>) -> nat
    decreases digits.len(),
{
    if digits.len() == 0 {
        0
    } else {
        (digits_value(digits.drop_last()) * 10 + (digits.last() - 0x30)) as nat
    }
}

/// The bytes without a plus sign in front.
pub open spec fn unsigned_part(bytes: Seq<u8>) -> Seq<u8> {
    if bytes.len() > 0 && bytes[0] == 0x2b {
        bytes.skip(1)
    } else {
        bytes
    }
}

/// The number that the bytes spell as a `u64`: at least one decimal digit
/// and nothing else but, at most, a plus sign in front, and a value that a
/// `u64` holds.
pub open spec fn parsed_u64(bytes: Seq<u8>) -> Option<u64> {
    let digits = unsigned_part(bytes);
    if digits.len() > 0 && all_digits(digits) && digits_value(digits) <= u64::MAX {
        Some(digits_value(digits) as u64)
    } else {
        None
    }
}

/// The seconds in the unit that a byte names.
pub open spec fn unit_seconds(unit: u8) -> Option<u64> {
    if unit == 0x73 {
        Some(1)
    } else if unit == 0x6d {
        Some(MINUTE_TO_SECONDS)
    } else if unit == 0x68 {
        Some(HOUR_TO_SECONDS)
    } else if unit == 0x64 {
        Some(DAY_TO_SECONDS)
    } else if unit == 0x77 {
        Some(WEEK_TO_SECONDS)
    } else if unit == 0x4d {
        Some(MONTH_TO_SECONDS)
    } else if unit == 0x79 {
        Some(YEAR_TO_SECONDS)
    } else {
        None
    }
}

/// The seconds that an age amounts to, before any limit of the machine, or
/// what is wrong with it. The last byte is the unit, one of `s m h d w M y`;
/// what stands before it is the number. A number that cannot be read is
/// reported before a unit that cannot.
pub open spec fn age_seconds(bytes: Seq<u8>) -> Result<nat, Seq<char>> {
    if bytes.len() == 0 {
        Err("Empty input"@)
    } else {
        match parsed_u64(bytes.drop_last()) {
            None => Err("Invalid number"@),
            Some(value) => match unit_seconds(bytes.last()) {
                None => Err("Invalid unit"@),
                Some(seconds) => Ok((value * seconds) as nat),
            },
        }
    }
}

/// The age does not amount to more seconds than a `u64` holds.
pub open spec fn age_fits(bytes: Seq<u8>) -> bool {
    age_seconds(bytes) matches Ok(seconds) ==> seconds <= u64::MAX
}

/// A digit more makes a number no smaller.
proof fn lemma_digits_value_grows(digits: Seq<u8>, n: int)
    requires
        0 <= n <= digits.len(),
        all_digits(digits),
    ensures
        digits_value(digits.take(n)) <= digits_value(digits),
    decreases digits.len() - n,
{
    if n == digits.len() {
        assert(digits.take(n) =~= digits);
    } else {
        lemma_digits_value_grows(digits.drop_last(), n);
        assert(digits.drop_last().take(n) =~= digits.take(n));
        assert(is_digit(digits[digits.len() - 1]));
        assert forall|i: int| 0 <= i < digits.drop_last().len() implies is_digit(
            #[trigger] digits.drop_last()[i],
        ) by {
            assert(is_digit(digits[i]));
        }
    }
}

/// Reads the first `end` bytes as a `u64`: see [`parsed_u64`].
pub fn parse_u64(bytes: &[u8], end: usize) -> (value: Option<u64>)
    requires
        end <= bytes.len(),
    ensures
        value == parsed_u64(bytes@.take(end as int)),
{
    let ghost text = bytes@.take(end as int);
    let start: usize = if end > 0 && bytes[0] == 0x2b {
        1
    } else {
        0
    };
    let ghost digits = unsigned_part(text);
    assert(digits =~= bytes@.subrange(start as int, end as int));
    if start == end {
        return None;
    }
    let mut value: u64 = 0;
    let mut i: usize = start;
    while i < end
        invariant
            start <= i <= end <= bytes.len(),
            digits == bytes@.subrange(start as int, end as int),
            digits == unsigned_part(bytes@.take(end as int)),
            all_digits(digits.take(i - start)),
            value == digits_value(digits.take(i - start)),
        decreases end - i,
    {
        let b = bytes[i];
        proof {
            assert(digits.take(i - start + 1).drop_last() =~= digits.take(i - start));
            assert(digits.take(i - start + 1).last() == b);
        }
        if b < 0x30 || b > 0x39 {
            assert(!is_digit(digits[i - start]));
            return None;
        }
        let d: u64 = (b - 0x30) as u64;
        if value > (u64::MAX - d) / 10 {
            proof {
                assert(digits_value(digits.take(i - start + 1)) == value * 10 + d);
                if all_digits(digits) {
                    lemma_digits_value_grows(digits, i - start + 1);
                }
            }
            return None;
        }
        value = value * 10 + d;
        i += 1;
        assert forall|k: int| 0 <= k < digits.take(i - start).len() implies is_digit(
            #[trigger] digits.take(i - start)[k],
        ) by {
            if k < i - start - 1 {
                assert(is_digit(digits.take(i - start - 1)[k]));
            }
        }
    }
    assert(digits.take(i - start) =~= digits);
    Some(value)
}

fn seconds_of_unit(unit: u8) -> (seconds: Option<u64>)
    ensures
        seconds == unit_seconds(unit),
{
    match unit {
        0x73 => Some(1),
        0x6d => Some(MINUTE_TO_SECONDS),
        0x68 => Some(HOUR_TO_SECONDS),
        0x64 => Some(DAY_TO_SECONDS),
        0x77 => Some(WEEK_TO_SECONDS),
        0x4d => Some(MONTH_TO_SECONDS),
        0x79 => Some(YEAR_TO_SECONDS),
        _ => None,
    }
}

/// Reads an age where it fits a `u64`, and says `None` where it does not.
pub fn checked_parse_age(age: &str) -> (seconds: Option<Result<u64, &'static str>>)
    ensures
        seconds is Some == age_fits(encode_utf8(age@)),
        seconds matches Some(Ok(s)) ==> age_seconds(encode_utf8(age@)) == Ok::<nat, Seq<char>>(
            s as nat,
        ),
        seconds matches Some(Err(e)) ==> age_seconds(encode_utf8(age@)) == Err::<nat, Seq<char>>(
            e@,
        ),
{
    let bytes = age.as_bytes();
    if bytes.len() == 0 {
        return Some(Err("Empty input"));
    }
    let end = bytes.len() - 1;
    assert(bytes@.take(end as int) =~= bytes@.drop_last());
    let value = match parse_u64(bytes, end) {
        Some(value) => value,
        None => {
            return Some(Err("Invalid number"));
        },
    };
    match seconds_of_unit(bytes[end]) {
        Some(unit) => match value.checked_mul(unit) {
            Some(seconds) => Some(Ok(seconds)),
            None => None,
        },
        None => Some(Err("Invalid unit")),
    }
}

/// Reads an age in seconds. The age is one whose seconds a `u64` holds.
pub fn parse_age(age: &str) -> (seconds: Result<u64, &'static str>)
    requires
        age_fits(encode_utf8(age@)),
    ensures
        seconds matches Ok(s) ==> age_seconds(encode_utf8(age@)) == Ok::<nat, Seq<char>>(s as nat),
        seconds matches Err(e) ==> age_seconds(encode_utf8(age@)) == Err::<nat, Seq<char>>(e@),
{
    match checked_parse_age(age) {
        Some(seconds) => seconds,
        None => Err("Invalid number"),
    }
}

/// The seconds for which a response may be kept: those of the age, and none
/// where the age cannot be read.
pub open spec fn lifetime(bytes: Seq<u8>) -> nat {
    match age_seconds(bytes) {
        Ok(seconds) => seconds,
        Err(_) => 0,
    }
}

/// The value of the `Cache-Control` header for an age: `no-cache` where the
/// response may not be kept, else `public, max-age=` and the age as given.
pub open spec fn cache_control_text(age: Seq<char>) -> Seq<char> {
    if lifetime(encode_utf8(age)) == 0 {
        "no-cache"@
    } else {
        "public, max-age="@ + age
    }
}

/// The value of the `Cache-Control` header and the seconds after which the
/// response expires, none for a response that may not be kept.
pub fn cache_policy(age: &str) -> (policy: (String, u64))
    requires
        age_fits(encode_utf8(age@)),
    ensures
        policy.0@ == cache_control_text(age@),
        policy.1 == lifetime(encode_utf8(age@)),
{
    let seconds = match parse_age(age) {
        Ok(seconds) => seconds,
        Err(_) => 0,
    };
    if seconds == 0 {
        ("no-cache".to_string(), 0)
    } else {
        let mut value = "public, max-age=".to_string();
        value.append(age);
        (value, seconds)
    }
}

} // verus!
