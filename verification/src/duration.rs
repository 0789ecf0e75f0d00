//! Lengths of time in a configuration file: a number of seconds, or a text such as `5m`.

use vstd::prelude::*;
use vstd::string::*;

use crate::text;
use crate::text::{join3, trim};
use crate::time::Duration;

verus! {

// ---------------------------------------------------------------------------
// Numbers
// ---------------------------------------------------------------------------
/// Whether a character is a decimal digit.
pub open spec fn is_digit(c: char) -> bool {
    '0' <= c <= '9'
}

/// The number that a text of digits stands for.
pub open spec fn decimal_value(digits: Seq<char>) -> nat
    decreases digits.len(),
{
    if digits.len() == 0 {
        0
    } else {
        (decimal_value(digits.drop_last()) * 10 + (digits.last() as int - '0' as int)) as nat
    }
}

/// Whether a text holds nothing but digits.
pub open spec fn all_digits(s: Seq<char>) -> bool {
    forall|i: int| 0 <= i < s.len() ==> is_digit(#[trigger] s[i])
}

/// The text behind a plus sign, if it begins with one.
pub open spec fn unsigned_part(s: Seq<char>) -> Seq<char> {
    if s.len() > 0 && s[0] == '+' {
        s.drop_first()
    } else {
        s
    }
}

/// The number that a text stands for, if it stands for one: digits, possibly behind a plus sign,
/// whose value fits.
pub open spec fn number_of(s: Seq<char>) -> Option<u64> {
    let digits = unsigned_part(s);
    if digits.len() > 0 && all_digits(digits) && decimal_value(digits) <= u64::MAX {
        Some(decimal_value(digits) as u64)
    } else {
        None
    }
}

proof fn lemma_value_grows(s: Seq<char>, i: int)
    requires
        all_digits(s),
        0 <= i <= s.len(),
    ensures
        decimal_value(s.take(i)) <= decimal_value(s),
    decreases s.len() - i,
{
    if i == s.len() {
        assert(s.take(i) =~= s);
    } else {
        lemma_value_grows(s, i + 1);
        assert(s.take(i + 1).drop_last() =~= s.take(i));
        assert(is_digit(s[i]));
        assert(s.take(i + 1).last() == s[i]);
    }
}

/// The number that the text stands for, if it stands for one.
pub fn parse_number(s: &str) -> (r: Option<u64>)
    ensures
        r == number_of(s@),
{
    let n: usize = s.unicode_len();
    let start: usize = if n > 0 && s.get_char(0) == '+' {
        1
    } else {
        0
    };
    let ghost digits = unsigned_part(s@);
    proof {
        assert(digits =~= s@.skip(start as int));
    }
    if start == n {
        return None;
    }
    let mut value: u64 = 0;
    let mut i: usize = start;
    while i < n
        invariant
            start <= i <= n,
            n == s@.len(),
            digits == s@.skip(start as int),
            digits == unsigned_part(s@),
            forall|k: int| 0 <= k < i - start ==> is_digit(#[trigger] digits[k]),
            value == decimal_value(digits.take(i - start)),
        decreases n - i,
    {
        let c: char = s.get_char(i);
        proof {
            assert(digits[i - start] == c);
            assert(digits.take(i - start + 1).drop_last() =~= digits.take(i - start));
            assert(digits.take(i - start + 1).last() == c);
        }
        if !('0' <= c && c <= '9') {
            return None;
        }
        let d: u64 = (c as u32 - '0' as u32) as u64;
        if value > (u64::MAX - d) / 10 {
            proof {
                if all_digits(digits) {
                    lemma_value_grows(digits, i - start + 1);
                }
            }
            return None;
        }
        value = value * 10 + d;
        i = i + 1;
    }
    proof {
        assert(digits.take(n - start) =~= digits);
    }
    Some(value)
}

// ---------------------------------------------------------------------------
// Durations
// ---------------------------------------------------------------------------
/// How many seconds a suffix stands for, if it stands for any.
pub open spec fn seconds_per(suffix: char) -> Option<u64> {
    if suffix == 's' {
        Some(1u64)
    } else if suffix == 'm' {
        Some(60u64)
    } else if suffix == 'h' {
        Some(3600u64)
    } else {
        None
    }
}

/// An error about a duration.
pub open spec fn invalid_duration(s: Seq<char>, reason: Seq<char>) -> Seq<char> {
    "invalid duration \""@ + s + reason
}

/// What a number with a suffix stands for, in seconds, or the error.
pub open spec fn suffixed_seconds(t: Seq<char>) -> Result<u64, Seq<char>> {
    match seconds_per(t.last()) {
        None => Err(
            invalid_duration(t, "\": expected a number with optional suffix (s, m, h)"@),
        ),
        Some(unit) => match number_of(text::trimmed(t.drop_last())) {
            None => Err(invalid_duration(t, "\": numeric part is not a valid integer"@)),
            Some(count) => if count * unit <= u64::MAX {
                Ok((count * unit) as u64)
            } else {
                Err(invalid_duration(t, "\": value overflows"@))
            },
        },
    }
}

/// What a text stands for as a duration, in seconds, or the error. White space around it does not
/// count; a bare number counts seconds.
pub open spec fn duration_seconds(s: Seq<char>) -> Result<u64, Seq<char>> {
    let t = text::trimmed(s);
    if t.len() == 0 {
        Err("empty duration string"@)
    } else if number_of(t) is Some {
        Ok(number_of(t)->0)
    } else {
        suffixed_seconds(t)
    }
}

fn complaint(s: &str, reason: &str) -> (r: String)
    ensures
        r@ == invalid_duration(s@, reason@),
{
    join3("invalid duration \"", s, reason)
}

/// Parses a duration such as `5m`, `300s`, `1h` or a bare number of seconds.
pub fn parse_duration_str(s: &str) -> (r: Result<Duration, String>)
    ensures
        match duration_seconds(s@) {
            Ok(secs) => r == Ok::<Duration, String>(Duration { secs, nanos: 0 }),
            Err(message) => r matches Err(e) && e@ == message,
        },
{
    let t: &str = trim(s);
    let n: usize = t.unicode_len();
    if n == 0 {
        return Err("empty duration string".to_owned());
    }
    if let Some(secs) = parse_number(t) {
        return Ok(Duration::from_secs(secs));
    }
    let suffix: char = t.get_char(n - 1);
    let unit: u64 = if suffix == 's' {
        1
    } else if suffix == 'm' {
        60
    } else if suffix == 'h' {
        3600
    } else {
        return Err(complaint(t, "\": expected a number with optional suffix (s, m, h)"));
    };
    proof {
        assert(t@.subrange(0, n - 1) =~= t@.drop_last());
    }
    match parse_number(trim(t.substring_char(0, n - 1))) {
        None => Err(complaint(t, "\": numeric part is not a valid integer")),
        Some(count) => match count.checked_mul(unit) {
            Some(secs) => Ok(Duration::from_secs(secs)),
            None => Err(complaint(t, "\": value overflows")),
        },
    }
}

/// A duration as it can stand in a configuration file.
pub enum DurationValue {
    /// A number of seconds.
    Unsigned(u64),
    /// A number of seconds, possibly negative.
    Signed(i64),
    /// A text.
    Text(String),
}

/// What a value stands for as a duration, in seconds, or the error.
pub open spec fn value_seconds(value: DurationValue) -> Result<u64, Seq<char>> {
    match value {
        DurationValue::Unsigned(secs) => Ok(secs),
        DurationValue::Signed(secs) => if secs >= 0 {
            Ok(secs as u64)
        } else {
            Err("duration must be non-negative"@)
        },
        DurationValue::Text(s) => duration_seconds(s@),
    }
}

/// Reads a duration from a configuration file: a number counts seconds and must not be negative.
pub fn deserialize_duration(value: DurationValue) -> (r: Result<Duration, String>)
    ensures
        match value_seconds(value) {
            Ok(secs) => r == Ok::<Duration, String>(Duration { secs, nanos: 0 }),
            Err(message) => r matches Err(e) && e@ == message,
        },
        match value {
            DurationValue::Unsigned(secs) => r == Ok::<Duration, String>(
                Duration { secs, nanos: 0 },
            ),
            DurationValue::Signed(secs) => if secs >= 0 {
                r == Ok::<Duration, String>(Duration { secs: secs as u64, nanos: 0 })
            } else {
                r matches Err(e) && e@ == "duration must be non-negative"@
            },
            DurationValue::Text(s) => match duration_seconds(s@) {
                Ok(secs) => r == Ok::<Duration, String>(Duration { secs, nanos: 0 }),
                Err(message) => r matches Err(e) && e@ == message,
            },
        },
{
    match value {
        DurationValue::Unsigned(secs) => Ok(Duration::from_secs(secs)),
        DurationValue::Signed(secs) => if secs >= 0 {
            Ok(Duration::from_secs(secs as u64))
        } else {
            Err("duration must be non-negative".to_owned())
        },
        DurationValue::Text(s) => parse_duration_str(s.as_str()),
    }
}

} // verus!
