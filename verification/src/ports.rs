//! Resolution of the listening port. The entry point reads an environment
//! variable: when it is unset the default port is used, and a set but
//! malformed value makes startup fail fast with a parse error.

use vstd::prelude::*;
use vstd::string::StrSliceExecFns;

verus! {

/// The port the service listens on when the environment names none.
pub const DEFAULT_SERVICE_PORT: u16 = 8080;

/// Why a port string was rejected.
#[derive(Debug, Clone, Copy, PartialEq, Eq, Structural)]
pub enum PortParseError {
    /// The string was empty.
    Empty,
    /// A character other than a decimal digit appeared where a digit was
    /// required, or no digit followed the sign.
    InvalidDigit,
    /// The digits read so far already exceeded the largest port number.
    Overflow,
}

/// A decimal digit.
pub open spec fn is_digit(c: char) -> bool {
    '0' <= c <= '9'
}

/// The value of a decimal digit.
pub open spec fn digit_value(c: char) -> int {
    c as int - '0' as int
}

/// Scans digits left to right, accumulating the value, and fails exactly
/// where the scan would: on the first non-digit character, or the moment
/// the accumulated value leaves the 16-bit range.
pub open spec fn spec_parse_digits(s: Seq<char>, acc: int) -> Result<int, PortParseError>
    decreases s.len(),
{
    if s.len() == 0 {
        Ok(acc)
    } else if !is_digit(s[0]) {
        Err(PortParseError::InvalidDigit)
    } else if acc * 10 + digit_value(s[0]) > u16::MAX {
        Err(PortParseError::Overflow)
    } else {
        spec_parse_digits(s.drop_first(), acc * 10 + digit_value(s[0]))
    }
}

/// What parsing a 16-bit port number from `s` yields: an optional leading
/// plus sign followed by at least one decimal digit, with a value no
/// larger than the largest port number.
pub open spec fn spec_parse_port(s: Seq<char>) -> Result<int, PortParseError> {
    if s.len() == 0 {
        Err(PortParseError::Empty)
    } else {
        let digits = if s[0] == '+' {
            s.drop_first()
        } else {
            s
        };
        if digits.len() == 0 {
            Err(PortParseError::InvalidDigit)
        } else {
            spec_parse_digits(digits, 0)
        }
    }
}

/// A port string is well formed exactly when the scan yields a value.
pub open spec fn valid_port_string(s: Seq<char>) -> bool {
    spec_parse_port(s) is Ok
}

/// Parses a port number: an optional leading plus sign, then decimal
/// digits valued at most the largest port number, as the standard decimal
/// parse of a 16-bit unsigned integer reads them.
pub fn parse_port(s: &str) -> (r: Result<u16, PortParseError>)
    ensures
        match spec_parse_port(s@) {
            Ok(v) => r matches Ok(p) && p == v,
            Err(e) => r == Err::<u16, PortParseError>(e),
        },
{
    let n: usize = s.unicode_len();
    if n == 0 {
        return Err(PortParseError::Empty);
    }
    let first: char = s.get_char(0);
    let start: usize = if first == '+' {
        1
    } else {
        0
    };
    if n == start {
        return Err(PortParseError::InvalidDigit);
    }
    let ghost digits: Seq<char> = if s@[0] == '+' {
        s@.drop_first()
    } else {
        s@
    };
    proof {
        assert(digits.skip(0) =~= digits);
    }
    let mut acc: u16 = 0;
    let mut i: usize = start;
    while i < n
        invariant
            start <= i <= n == s@.len(),
            start == (if s@[0] == '+' { 1int } else { 0int }),
            s@.len() > 0,
            digits == (if s@[0] == '+' { s@.drop_first() } else { s@ }),
            digits.len() == n - start,
            spec_parse_digits(digits, 0) == spec_parse_digits(
                digits.skip(i - start),
                acc as int,
            ),
        decreases n - i,
    {
        let ghost k: int = i - start;
        proof {
            assert(digits[k] == s@[i as int]);
            assert(digits.skip(k)[0] == digits[k]);
        }
        let c: char = s.get_char(i);
        if c < '0' || c > '9' {
            return Err(PortParseError::InvalidDigit);
        }
        let d: u32 = c as u32 - '0' as u32;
        let wide: u32 = acc as u32 * 10 + d;
        if wide > u16::MAX as u32 {
            return Err(PortParseError::Overflow);
        }
        proof {
            assert(digits.skip(k).drop_first() =~= digits.skip(k + 1));
        }
        acc = wide as u16;
        i = i + 1;
    }
    proof {
        assert(digits.skip(n - start) =~= Seq::<char>::empty());
    }
    Ok(acc)
}

/// Resolves the listening port from the optional environment value: an
/// unset variable yields the default port; a set value must parse as a
/// port number, and startup fails fast on one that does not.
pub fn resolve_port(env_value: Option<String>) -> (r: Result<u16, PortParseError>)
    ensures
        env_value is None ==> r == Ok::<u16, PortParseError>(DEFAULT_SERVICE_PORT),
        env_value matches Some(s) ==> match spec_parse_port(s@) {
            Ok(v) => r matches Ok(p) && p == v,
            Err(e) => r == Err::<u16, PortParseError>(e),
        },
{
    match env_value {
        None => Ok(DEFAULT_SERVICE_PORT),
        Some(s) => parse_port(s.as_str()),
    }
}

} // verus!
