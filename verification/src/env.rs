//! Parsing the raw values that configuration variables carry. Reading the
//! process environment itself is left to the program around the library,
//! which hands the values in as they were found.

use vstd::prelude::*;

use crate::text::{all_digits, digits_val, parse_u64_digits};

verus! {

/// Why a configuration value was refused: the variable was absent, or its
/// value had the wrong shape.
#[derive(Debug, Clone, Copy, PartialEq, Eq, Structural)]
pub enum Error {
    MissingEnv,
    WrongFormat,
}

/// The signed 32-bit value a string denotes: an optional sign followed by
/// decimal digits, within the range of `i32`.
pub open spec fn i32_of_str(s: Seq<char>) -> Option<i32> {
    if s.len() > 0 && (s[0] == '-' || s[0] == '+') {
        let num = s.skip(1);
        let bound: int = if s[0] == '-' {
            0x8000_0000
        } else {
            0x7fff_ffff
        };
        if num.len() > 0 && all_digits(num) && digits_val(num) <= bound {
            if s[0] == '-' {
                Some((-(digits_val(num) as int)) as i32)
            } else {
                Some(digits_val(num) as i32)
            }
        } else {
            None
        }
    } else if s.len() > 0 && all_digits(s) && digits_val(s) <= 0x7fff_ffff {
        Some(digits_val(s) as i32)
    } else {
        None
    }
}

/// Parses a configuration value as an `i32`: `MissingEnv` when the variable
/// was absent, `WrongFormat` when its value is not a decimal 32-bit number.
pub fn get_env_parse(value: Option<String>) -> (r: Result<i32, Error>)
    ensures
        value is None ==> r == Err::<i32, Error>(Error::MissingEnv),
        value matches Some(v) ==> (match i32_of_str(v@) {
            Some(x) => r == Ok::<i32, Error>(x),
            None => r == Err::<i32, Error>(Error::WrongFormat),
        }),
{
    let v = match value {
        Some(v) => v,
        None => {
            return Err(Error::MissingEnv);
        },
    };
    let s = v.as_str();
    let n = s.unicode_len();
    if n == 0 {
        return Err(Error::WrongFormat);
    }
    let first = s.get_char(0);
    if first == '-' || first == '+' {
        proof {
            assert(s@.subrange(1, n as int) =~= s@.skip(1));
        }
        match parse_u64_digits(s, 1, n) {
            Some(mag) => {
                if first == '-' {
                    if mag > 0x8000_0000u64 {
                        Err(Error::WrongFormat)
                    } else if mag == 0x8000_0000u64 {
                        Ok(i32::MIN)
                    } else {
                        Ok(-(mag as i32))
                    }
                } else {
                    if mag > 0x7fff_ffffu64 {
                        Err(Error::WrongFormat)
                    } else {
                        Ok(mag as i32)
                    }
                }
            },
            None => Err(Error::WrongFormat),
        }
    } else {
        proof {
            assert(s@.subrange(0, n as int) =~= s@);
        }
        match parse_u64_digits(s, 0, n) {
            Some(mag) => {
                if mag > 0x7fff_ffffu64 {
                    Err(Error::WrongFormat)
                } else {
                    Ok(mag as i32)
                }
            },
            None => Err(Error::WrongFormat),
        }
    }
}

/// The duration in milliseconds a string denotes: digits followed by `ms`
/// for milliseconds or `s` for seconds. A value whose milliseconds do not
/// fit in 64 bits denotes nothing.
pub open spec fn duration_millis_of(s: Seq<char>) -> Option<u64> {
    if s.len() >= 3 && s[s.len() - 2] == 'm' && s[s.len() - 1] == 's' && all_digits(
        s.take(s.len() - 2),
    ) && s.take(s.len() - 2).len() > 0 {
        if digits_val(s.take(s.len() - 2)) <= u64::MAX {
            Some(digits_val(s.take(s.len() - 2)) as u64)
        } else {
            None
        }
    } else if s.len() >= 2 && s[s.len() - 1] == 's' && all_digits(s.take(s.len() - 1)) {
        let secs = digits_val(s.take(s.len() - 1));
        if secs * 1000 <= u64::MAX {
            Some((secs * 1000) as u64)
        } else {
            None
        }
    } else {
        None
    }
}

/// Parses a configuration value as a duration (`"30s"`, `"1500ms"`) into
/// milliseconds.
pub fn get_env_duration(value: Option<String>) -> (r: Result<u64, Error>)
    ensures
        value is None ==> r == Err::<u64, Error>(Error::MissingEnv),
        value matches Some(v) ==> (match duration_millis_of(v@) {
            Some(x) => r == Ok::<u64, Error>(x),
            None => r == Err::<u64, Error>(Error::WrongFormat),
        }),
{
    let v = match value {
        Some(v) => v,
        None => {
            return Err(Error::MissingEnv);
        },
    };
    let s = v.as_str();
    let n = s.unicode_len();
    if n >= 3 && s.get_char(n - 2) == 'm' && s.get_char(n - 1) == 's' {
        proof {
            assert(s@.subrange(0, n - 2 as int) =~= s@.take(n - 2));
        }
        match parse_u64_digits(s, 0, n - 2) {
            Some(ms) => {
                return Ok(ms);
            },
            None => {
                return Err(Error::WrongFormat);
            },
        }
    }
    if n >= 2 && s.get_char(n - 1) == 's' {
        proof {
            assert(s@.subrange(0, n - 1 as int) =~= s@.take(n - 1));
        }
        match parse_u64_digits(s, 0, n - 1) {
            Some(secs) => {
                if secs > u64::MAX / 1000 {
                    proof {
                        assert(u64::MAX as int == 1000 * (u64::MAX as int / 1000) + u64::MAX
                            as int % 1000);
                    }
                    return Err(Error::WrongFormat);
                }
                proof {
                    assert(u64::MAX as int == 1000 * (u64::MAX as int / 1000) + u64::MAX as int
                        % 1000);
                }
                return Ok(secs * 1000);
            },
            None => {
                return Err(Error::WrongFormat);
            },
        }
    }
    Err(Error::WrongFormat)
}

} // verus!
