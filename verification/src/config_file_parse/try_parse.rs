//! Numeric fields of the configuration grammar: `0x…` hexadecimal, `0b…`
//! binary, or decimal, each optionally prefixed with `-` for
//! two's-complement wrap.

use vstd::prelude::*;

verus! {

/// Why a numeric field failed to parse.
#[derive(Debug, Clone, Copy, PartialEq, Eq, Structural)]
pub enum NumberParseError {
    /// Nothing stood where digits were expected.
    Empty,
    /// A character that is no digit of the chosen base.
    InvalidDigit,
    /// The digits name a value above `u64::MAX`.
    Overflow,
}

/// The value of one digit character in the given base: `0` through `9`,
/// then letters of either case, as `char::to_digit` reads them.
pub open spec fn spec_digit_value(c: char, radix: u64) -> Option<u64> {
    let v = c as u32;
    let d: u64 = if 48 <= v && v <= 57 {
        (v - 48) as u64
    } else if 97 <= v && v <= 122 {
        (v - 87) as u64
    } else if 65 <= v && v <= 90 {
        (v - 55) as u64
    } else {
        99
    };
    if d < radix {
        Some(d)
    } else {
        None
    }
}

/// Digits of `s` from position `i` on, folded left onto `acc` in the given
/// base; the first bad digit or the first overflow ends the parse.
pub open spec fn spec_parse_radix_from(s: Seq<char>, radix: u64, i: int, acc: u64) -> Result<
    u64,
    NumberParseError,
>
    decreases s.len() - i,
{
    if i < 0 || i >= s.len() {
        Ok(acc)
    } else {
        match spec_digit_value(s[i], radix) {
            None => Err(NumberParseError::InvalidDigit),
            Some(d) => if acc * radix + d > u64::MAX {
                Err(NumberParseError::Overflow)
            } else {
                spec_parse_radix_from(s, radix, i + 1, (acc * radix + d) as u64)
            },
        }
    }
}

/// A whole digit string in the given base; empty strings are rejected.
pub open spec fn spec_parse_radix(s: Seq<char>, radix: u64) -> Result<u64, NumberParseError> {
    if s.len() == 0 {
        Err(NumberParseError::Empty)
    } else {
        spec_parse_radix_from(s, radix, 0, 0)
    }
}

/// A field with the `0x` prefix; `Ok(None)` when the prefix is absent.
pub open spec fn spec_try_parse_hex(s: Seq<char>) -> Result<Option<u64>, NumberParseError> {
    if !(s.len() >= 2 && s[0] == '0' && s[1] == 'x') {
        Ok(None)
    } else {
        match spec_parse_radix(s.skip(2), 16) {
            Ok(v) => Ok(Some(v)),
            Err(e) => Err(e),
        }
    }
}

/// A field with the `0b` prefix; `Ok(None)` when the prefix is absent.
pub open spec fn spec_try_parse_binary(s: Seq<char>) -> Result<Option<u64>, NumberParseError> {
    if !(s.len() >= 2 && s[0] == '0' && s[1] == 'b') {
        Ok(None)
    } else {
        match spec_parse_radix(s.skip(2), 2) {
            Ok(v) => Ok(Some(v)),
            Err(e) => Err(e),
        }
    }
}

/// A whole numeric field: an optional `-`, then hexadecimal, binary or
/// decimal digits; a leading `-` wraps the value two's-complement.
pub open spec fn spec_try_parse_number(s: Seq<char>) -> Result<u64, NumberParseError> {
    let negative = s.len() >= 1 && s[0] == '-';
    let body = if negative {
        s.skip(1)
    } else {
        s
    };
    let parsed = match spec_try_parse_hex(body) {
        Ok(Some(v)) => Ok(v),
        Err(e) => Err(e),
        Ok(None) => match spec_try_parse_binary(body) {
            Ok(Some(v)) => Ok(v),
            Err(e) => Err(e),
            Ok(None) => spec_parse_radix(body, 10),
        },
    };
    match parsed {
        Ok(v) => Ok(
            if negative {
                0u64.wrapping_sub(v)
            } else {
                v
            },
        ),
        Err(e) => Err(e),
    }
}

/// The value of one digit character in the given base, if it is one.
fn digit_value(c: char, radix: u64) -> (r: Option<u64>)
    ensures
        r == spec_digit_value(c, radix),
{
    let v = c as u32;
    let d: u64 = if 48 <= v && v <= 57 {
        (v - 48) as u64
    } else if 97 <= v && v <= 122 {
        (v - 87) as u64
    } else if 65 <= v && v <= 90 {
        (v - 55) as u64
    } else {
        99
    };
    if d < radix {
        Some(d)
    } else {
        None
    }
}

/// Digits in the given base, folded into a `u64`.
fn parse_radix(s: &str, radix: u64) -> (r: Result<u64, NumberParseError>)
    requires
        radix >= 2,
    ensures
        r == spec_parse_radix(s@, radix),
{
    let n = s.unicode_len();
    if n == 0 {
        return Err(NumberParseError::Empty);
    }
    let mut acc: u64 = 0;
    let mut i: usize = 0;
    while i < n
        invariant
            i <= n,
            n == s@.len(),
            spec_parse_radix_from(s@, radix, 0, 0) == spec_parse_radix_from(
                s@,
                radix,
                i as int,
                acc,
            ),
        decreases n - i,
    {
        let c = s.get_char(i);
        match digit_value(c, radix) {
            None => {
                return Err(NumberParseError::InvalidDigit);
            },
            Some(d) => {
                let m = match acc.checked_mul(radix) {
                    Some(m) => m,
                    None => {
                        return Err(NumberParseError::Overflow);
                    },
                };
                let a = match m.checked_add(d) {
                    Some(a) => a,
                    None => {
                        return Err(NumberParseError::Overflow);
                    },
                };
                acc = a;
            },
        }
        i = i + 1;
    }
    Ok(acc)
}

/// A field with the `0x` prefix; `Ok(None)` when the prefix is absent.
pub fn try_parse_hex(hex: &str) -> (r: Result<Option<u64>, NumberParseError>)
    ensures
        r == spec_try_parse_hex(hex@),
{
    let n = hex.unicode_len();
    if n < 2 || hex.get_char(0) != '0' || hex.get_char(1) != 'x' {
        return Ok(None);
    }
    let rest = hex.substring_char(2, n);
    proof {
        assert(rest@ =~= hex@.skip(2));
    }
    match parse_radix(rest, 16) {
        Ok(v) => Ok(Some(v)),
        Err(e) => Err(e),
    }
}

/// A field with the `0b` prefix; `Ok(None)` when the prefix is absent.
pub fn try_parse_binary(bin: &str) -> (r: Result<Option<u64>, NumberParseError>)
    ensures
        r == spec_try_parse_binary(bin@),
{
    let n = bin.unicode_len();
    if n < 2 || bin.get_char(0) != '0' || bin.get_char(1) != 'b' {
        return Ok(None);
    }
    let rest = bin.substring_char(2, n);
    proof {
        assert(rest@ =~= bin@.skip(2));
    }
    match parse_radix(rest, 2) {
        Ok(v) => Ok(Some(v)),
        Err(e) => Err(e),
    }
}

/// A decimal field.
pub fn try_parse_decimal(dec: &str) -> (r: Result<u64, NumberParseError>)
    ensures
        r == spec_parse_radix(dec@, 10),
{
    parse_radix(dec, 10)
}

/// A whole numeric field: an optional `-`, then hexadecimal, binary or
/// decimal digits; a leading `-` wraps the value two's-complement.
pub fn try_parse_number(number: &str) -> (r: Result<u64, NumberParseError>)
    ensures
        r == spec_try_parse_number(number@),
{
    let n = number.unicode_len();
    let negative = n >= 1 && number.get_char(0) == '-';
    let body = if negative {
        number.substring_char(1, n)
    } else {
        number
    };
    proof {
        if negative {
            assert(body@ =~= number@.skip(1));
        }
    }
    let parsed = match try_parse_hex(body) {
        Ok(Some(v)) => Ok(v),
        Err(e) => Err(e),
        Ok(None) => match try_parse_binary(body) {
            Ok(Some(v)) => Ok(v),
            Err(e) => Err(e),
            Ok(None) => try_parse_decimal(body),
        },
    };
    match parsed {
        Ok(v) => Ok(
            if negative {
                0u64.wrapping_sub(v)
            } else {
                v
            },
        ),
        Err(e) => Err(e),
    }
}

} // verus!
