//! Strict 24-hour `HH:MM` clock times.
use chrono::Timelike;
use vstd::prelude::*;

verus! {

/// The value of an ASCII decimal digit.
pub open spec fn digit_value(c: char) -> int {
    c as int - '0' as int
}

pub open spec fn is_digit(c: char) -> bool {
    '0' <= c && c <= '9'
}

/// Two digits, a colon and two digits, nothing else.
pub open spec fn has_clock_shape(s: Seq<char>) -> bool {
    &&& s.len() == 5
    &&& is_digit(s[0])
    &&& is_digit(s[1])
    &&& s[2] == ':'
    &&& is_digit(s[3])
    &&& is_digit(s[4])
}

pub open spec fn clock_hour(s: Seq<char>) -> int {
    10 * digit_value(s[0]) + digit_value(s[1])
}

pub open spec fn clock_minute(s: Seq<char>) -> int {
    10 * digit_value(s[3]) + digit_value(s[4])
}

/// A strict 24-hour clock time, `00:00` through `23:59`.
pub open spec fn is_clock_time(s: Seq<char>) -> bool {
    has_clock_shape(s) && clock_hour(s) < 24 && clock_minute(s) < 60
}

/// Relies on chrono's `NaiveTime::parse_from_str` with the format `%H:%M`: on
/// a text of two digits, a colon and two digits it succeeds exactly when the
/// hour is at most 23 and the minute at most 59, and the time it yields has
/// that hour and minute; any time it yields has an hour below 24 and a minute
/// below 60.
#[verifier::external_body]
fn parse_hour_minute(s: &str) -> (r: Option<(u32, u32)>)
    ensures
        has_clock_shape(s@) ==> (r is Some <==> (clock_hour(s@) < 24 && clock_minute(s@) < 60)),
        r matches Some((h, m)) ==> h < 24 && m < 60,
        r matches Some((h, m)) ==> (has_clock_shape(s@) ==> h == clock_hour(s@) && m
            == clock_minute(s@)),
{
    match chrono::NaiveTime::parse_from_str(s, "%H:%M") {
        Ok(t) => Some((t.hour(), t.minute())),
        Err(_) => None,
    }
}

/// Whether the byte is an ASCII decimal digit.
fn is_digit_byte(b: u8) -> (r: bool)
    ensures
        r == (48 <= b && b <= 57),
{
    48 <= b && b <= 57
}

/// Whether `s` has the shape of a clock time: two ASCII digits, a colon and
/// two ASCII digits.
pub fn check_clock_shape(s: &str) -> (r: bool)
    ensures
        r == has_clock_shape(s@),
{
    if !s.is_ascii() {
        proof {
            if has_clock_shape(s@) {
                assert forall|i| 0 <= i < s@.len() implies '\0' <= #[trigger] s@[i] <= '\u{7f}' by {}
            }
        }
        return false;
    }
    proof {
        vstd::string::is_ascii_spec_bytes(s);
    }
    let b = s.as_bytes();
    assert(b@.len() == s@.len());
    if b.len() != 5 {
        return false;
    }
    let r = is_digit_byte(b[0]) && is_digit_byte(b[1]) && b[2] == 58 && is_digit_byte(b[3])
        && is_digit_byte(b[4]);
    assert(forall|i| 0 <= i < 5 ==> b@[i] == s@[i] as u8);
    assert(forall|i| 0 <= i < 5 ==> (s@[i] as u8) as int == s@[i] as int);
    r
}

/// Whether `s` is a strict 24-hour clock time `HH:MM`, `00:00` through
/// `23:59`. The shape is checked here; the hour and minute ranges are those
/// that chrono's `%H:%M` parser enforces.
pub fn is_valid_clock_time(s: &str) -> (r: bool)
    ensures
        r == is_clock_time(s@),
{
    if !check_clock_shape(s) {
        return false;
    }
    match parse_hour_minute(s) {
        Some(_) => true,
        None => false,
    }
}

} // verus!
