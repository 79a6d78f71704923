//! Reading of the durations given on the command line.
use vstd::prelude::*;

verus! {

/// Why a duration could not be read.
#[derive(Clone, Copy, Debug, PartialEq, Eq, Structural)]
pub enum DurationError {
    /// The text is not a decimal number that fits in 64 bits.
    NotANumber,
    /// The duration does not fit in 64 bits of milliseconds.
    TooLong,
}

/// Whether `c` is an ASCII decimal digit.
pub open spec fn is_digit(c: char) -> bool {
    '0' <= c && c <= '9'
}

/// The value of a string of decimal digits.
pub open spec fn digits_value(s: Seq<char>) -> int
    decreases s.len(),
{
    if s.len() == 0 {
        0
    } else {
        digits_value(s.drop_last()) * 10 + (s.last() as u32 - '0' as u32)
    }
}

/// The digits of a decimal number, after an optional `+` sign.
pub open spec fn unsigned_digits(s: Seq<char>) -> Seq<char> {
    if s.len() > 0 && s[0] == '+' {
        s.drop_first()
    } else {
        s
    }
}

/// The number that `s` writes as an optional `+` sign followed by decimal
/// digits, if there is one and it fits in a `u64`.
pub open spec fn decimal_u64(s: Seq<char>) -> Option<u64> {
    let d = unsigned_digits(s);
    if d.len() > 0 && (forall|i: int| 0 <= i < d.len() ==> is_digit(#[trigger] d[i])) && digits_value(d)
        <= u64::MAX {
        Some(digits_value(d) as u64)
    } else {
        None
    }
}

/// Relies on `str::parse::<u64>`: an optional `+` sign followed by decimal
/// digits is read, if its value fits; any other text is an error.
#[verifier::external_body]
fn parse_u64(s: &str) -> (r: Option<u64>)
    ensures
        r == decimal_u64(s@),
{
    s.parse::<u64>().ok()
}

/// Reads a duration given in milliseconds, as milliseconds.
pub fn parse_duration_ms(arg: &str) -> (r: Result<u64, DurationError>)
    ensures
        match decimal_u64(arg@) {
            Some(ms) => r == Ok::<u64, DurationError>(ms),
            None => r == Err::<u64, DurationError>(DurationError::NotANumber),
        },
{
    match parse_u64(arg) {
        Some(ms) => Ok(ms),
        None => Err(DurationError::NotANumber),
    }
}

/// Reads a duration given in seconds, as milliseconds.
pub fn parse_duration_s(arg: &str) -> (r: Result<u64, DurationError>)
    ensures
        match decimal_u64(arg@) {
            Some(s) => if s * 1000 <= u64::MAX {
                r == Ok::<u64, DurationError>((s * 1000) as u64)
            } else {
                r == Err::<u64, DurationError>(DurationError::TooLong)
            },
            None => r == Err::<u64, DurationError>(DurationError::NotANumber),
        },
{
    match parse_u64(arg) {
        Some(s) => {
            if s <= u64::MAX / 1000 {
                Ok(s * 1000)
            } else {
                Err(DurationError::TooLong)
            }
        },
        None => Err(DurationError::NotANumber),
    }
}

} // verus!
