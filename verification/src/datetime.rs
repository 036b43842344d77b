//! Naive local date and date-time parsing.
//!
//! Forecast payloads carry local times as fixed-layout strings: dates as
//! `YYYY-MM-DD` and minute-resolution timestamps as `YYYY-MM-DDTHH:MM`,
//! with no offset. The parsers here accept exactly those layouts, with a
//! four-digit year and calendar-valid components under the proleptic
//! Gregorian leap rule, and reject everything else.

use vstd::prelude::*;
use vstd::string::StrSliceExecFns;
use crate::error::IntegrationError;

verus! {

/// A calendar date with no timezone.
#[derive(Debug, Clone, Copy, PartialEq, Eq, Structural)]
pub struct LocalDate {
    pub year: u16,
    pub month: u8,
    pub day: u8,
}

/// A naive local timestamp: calendar date plus wall-clock hour and minute,
/// no offset.
#[derive(Debug, Clone, Copy, PartialEq, Eq, Structural)]
pub struct LocalStamp {
    pub year: u16,
    pub month: u8,
    pub day: u8,
    pub hour: u8,
    pub minute: u8,
}

/// Proleptic Gregorian leap-year rule.
pub open spec fn spec_is_leap_year(y: int) -> bool {
    (y % 4 == 0 && y % 100 != 0) || y % 400 == 0
}

/// Days in a month under the proleptic Gregorian calendar.
pub open spec fn spec_days_in_month(y: int, m: int) -> int {
    if m == 2 {
        if spec_is_leap_year(y) {
            29
        } else {
            28
        }
    } else if m == 4 || m == 6 || m == 9 || m == 11 {
        30
    } else {
        31
    }
}

impl LocalDate {
    /// Calendar validity: month in range and day within the month.
    pub open spec fn wf(&self) -> bool {
        1 <= self.month <= 12 && 1 <= self.day <= spec_days_in_month(
            self.year as int,
            self.month as int,
        )
    }
}

impl LocalStamp {
    /// Calendar validity plus wall-clock ranges.
    pub open spec fn wf(&self) -> bool {
        1 <= self.month <= 12 && 1 <= self.day <= spec_days_in_month(
            self.year as int,
            self.month as int,
        ) && self.hour <= 23 && self.minute <= 59
    }

    /// The calendar date part of the stamp.
    pub open spec fn spec_date(&self) -> LocalDate {
        LocalDate { year: self.year, month: self.month, day: self.day }
    }
}

/// Unicode scalar value of a character.
pub open spec fn spec_char_val(c: char) -> int {
    c as int
}

/// Whether a character is a decimal digit.
pub open spec fn spec_is_digit(c: char) -> bool {
    48 <= spec_char_val(c) <= 57
}

/// Numeric value of a decimal digit character.
pub open spec fn spec_digit_val(c: char) -> int {
    spec_char_val(c) - 48
}

/// The two-digit number at position `i`.
pub open spec fn spec_num2(s: Seq<char>, i: int) -> int
    recommends
        0 <= i && i + 2 <= s.len(),
{
    10 * spec_digit_val(s[i]) + spec_digit_val(s[i + 1])
}

/// The four-digit number at position `i`.
pub open spec fn spec_num4(s: Seq<char>, i: int) -> int
    recommends
        0 <= i && i + 4 <= s.len(),
{
    1000 * spec_digit_val(s[i]) + 100 * spec_digit_val(s[i + 1]) + 10 * spec_digit_val(
        s[i + 2],
    ) + spec_digit_val(s[i + 3])
}

/// Whether the first ten characters spell a date: four digits, a hyphen,
/// two digits, a hyphen, two digits.
pub open spec fn spec_date_shape(s: Seq<char>) -> bool {
    s.len() >= 10 && spec_is_digit(s[0]) && spec_is_digit(s[1]) && spec_is_digit(s[2])
        && spec_is_digit(s[3]) && spec_char_val(s[4]) == 45 && spec_is_digit(s[5])
        && spec_is_digit(s[6]) && spec_char_val(s[7]) == 45 && spec_is_digit(s[8])
        && spec_is_digit(s[9])
}

/// The date a `YYYY-MM-DD` string denotes: the parsed components when the
/// shape matches and the components are calendar-valid, nothing otherwise.
pub open spec fn spec_parse_date(s: Seq<char>) -> Option<LocalDate> {
    if s.len() == 10 && spec_date_shape(s) {
        let y = spec_num4(s, 0);
        let m = spec_num2(s, 5);
        let d = spec_num2(s, 8);
        if 1 <= m <= 12 && 1 <= d <= spec_days_in_month(y, m) {
            Some(LocalDate { year: y as u16, month: m as u8, day: d as u8 })
        } else {
            None
        }
    } else {
        None
    }
}

/// The timestamp a `YYYY-MM-DDTHH:MM` string denotes: the parsed components
/// when the shape matches and the components are valid, nothing otherwise.
pub open spec fn spec_parse_stamp(s: Seq<char>) -> Option<LocalStamp> {
    if s.len() == 16 && spec_date_shape(s) && spec_char_val(s[10]) == 84 && spec_is_digit(
        s[11],
    ) && spec_is_digit(s[12]) && spec_char_val(s[13]) == 58 && spec_is_digit(s[14])
        && spec_is_digit(s[15]) {
        let y = spec_num4(s, 0);
        let m = spec_num2(s, 5);
        let d = spec_num2(s, 8);
        let h = spec_num2(s, 11);
        let mi = spec_num2(s, 14);
        if 1 <= m <= 12 && 1 <= d <= spec_days_in_month(y, m) && h <= 23 && mi <= 59 {
            Some(
                LocalStamp {
                    year: y as u16,
                    month: m as u8,
                    day: d as u8,
                    hour: h as u8,
                    minute: mi as u8,
                },
            )
        } else {
            None
        }
    } else {
        None
    }
}

/// Days in a month under the proleptic Gregorian calendar.
pub fn days_in_month(year: u16, month: u8) -> (r: u8)
    ensures
        r as int == spec_days_in_month(year as int, month as int),
{
    if month == 2 {
        let leap = (year % 4 == 0 && year % 100 != 0) || year % 400 == 0;
        if leap {
            29
        } else {
            28
        }
    } else if month == 4 || month == 6 || month == 9 || month == 11 {
        30
    } else {
        31
    }
}

/// Reads the decimal digit at position `i`, if there is one.
fn digit_at(s: &str, i: usize) -> (r: Option<u32>)
    requires
        i < s@.len(),
    ensures
        match r {
            Some(v) => spec_is_digit(s@[i as int]) && v == spec_digit_val(s@[i as int]),
            None => !spec_is_digit(s@[i as int]),
        },
{
    let c = s.get_char(i);
    let v = c as u32;
    if 48 <= v && v <= 57 {
        Some(v - 48)
    } else {
        None
    }
}

/// Whether the character at position `i` has unicode scalar value `w`.
fn char_at_is(s: &str, i: usize, w: u32) -> (r: bool)
    requires
        i < s@.len(),
    ensures
        r == (spec_char_val(s@[i as int]) == w),
{
    let c = s.get_char(i);
    c as u32 == w
}

/// Reads the two-digit number at position `i`.
fn num2_at(s: &str, i: usize) -> (r: Option<u32>)
    requires
        i + 2 <= usize::MAX,
        i + 2 <= s@.len(),
    ensures
        match r {
            Some(v) => spec_is_digit(s@[i as int]) && spec_is_digit(s@[i as int + 1]) && v
                == spec_num2(s@, i as int),
            None => !(spec_is_digit(s@[i as int]) && spec_is_digit(s@[i as int + 1])),
        },
{
    let d0 = digit_at(s, i);
    let d1 = digit_at(s, i + 1);
    match (d0, d1) {
        (Some(a), Some(b)) => Some(10 * a + b),
        _ => None,
    }
}

/// Reads the four-digit number at position `i`.
fn num4_at(s: &str, i: usize) -> (r: Option<u32>)
    requires
        i + 4 <= usize::MAX,
        i + 4 <= s@.len(),
    ensures
        match r {
            Some(v) => spec_is_digit(s@[i as int]) && spec_is_digit(s@[i as int + 1])
                && spec_is_digit(s@[i as int + 2]) && spec_is_digit(s@[i as int + 3]) && v
                == spec_num4(s@, i as int),
            None => !(spec_is_digit(s@[i as int]) && spec_is_digit(s@[i as int + 1])
                && spec_is_digit(s@[i as int + 2]) && spec_is_digit(s@[i as int + 3])),
        },
{
    let hi = num2_at(s, i);
    let lo = num2_at(s, i + 2);
    match (hi, lo) {
        (Some(a), Some(b)) => Some(100 * a + b),
        _ => None,
    }
}

/// Parses a `YYYY-MM-DD` date, rejecting malformed shapes and
/// calendar-invalid components.
pub fn parse_local_date(s: &str) -> (r: Option<LocalDate>)
    ensures
        r == spec_parse_date(s@),
        r is Some ==> r->0.wf(),
{
    if s.unicode_len() != 10 {
        return None;
    }
    let y = num4_at(s, 0);
    let sep1 = char_at_is(s, 4, 45);
    let m = num2_at(s, 5);
    let sep2 = char_at_is(s, 7, 45);
    let d = num2_at(s, 8);
    match (y, m, d) {
        (Some(y), Some(m), Some(d)) if sep1 && sep2 => {
            if 1 <= m && m <= 12 && 1 <= d && d as u8 <= days_in_month(y as u16, m as u8) {
                Some(LocalDate { year: y as u16, month: m as u8, day: d as u8 })
            } else {
                None
            }
        },
        _ => None,
    }
}

/// Parses a `YYYY-MM-DDTHH:MM` naive timestamp, rejecting malformed shapes
/// and out-of-range components.
pub fn parse_local_stamp(s: &str) -> (r: Option<LocalStamp>)
    ensures
        r == spec_parse_stamp(s@),
        r is Some ==> r->0.wf(),
{
    if s.unicode_len() != 16 {
        return None;
    }
    let y = num4_at(s, 0);
    let sep1 = char_at_is(s, 4, 45);
    let m = num2_at(s, 5);
    let sep2 = char_at_is(s, 7, 45);
    let d = num2_at(s, 8);
    let sep3 = char_at_is(s, 10, 84);
    let h = num2_at(s, 11);
    let sep4 = char_at_is(s, 13, 58);
    let mi = num2_at(s, 14);
    match (y, m, d, h, mi) {
        (Some(y), Some(m), Some(d), Some(h), Some(mi)) if sep1 && sep2 && sep3 && sep4 => {
            if 1 <= m && m <= 12 && 1 <= d && d as u8 <= days_in_month(y as u16, m as u8)
                && h <= 23 && mi <= 59 {
                Some(
                    LocalStamp {
                        year: y as u16,
                        month: m as u8,
                        day: d as u8,
                        hour: h as u8,
                        minute: mi as u8,
                    },
                )
            } else {
                None
            }
        },
        _ => None,
    }
}

/// Parses a `YYYY-MM-DDTHH:MM` naive timestamp, reporting the offending
/// string on failure.
pub fn parse_iso8601_datetime(value: &str) -> (r: Result<LocalStamp, IntegrationError>)
    ensures
        match r {
            Ok(st) => Some(st) == spec_parse_stamp(value@) && st.wf(),
            Err(e) => spec_parse_stamp(value@) is None && (e
                matches IntegrationError::MalformedTimestamp(s) && s@ == value@),
        },
{
    match parse_local_stamp(value) {
        Some(st) => Ok(st),
        None => Err(IntegrationError::MalformedTimestamp(value.to_owned())),
    }
}

/// Parses a `YYYY-MM-DD` date, reporting the offending string on failure.
pub fn parse_iso8601_date(value: &str) -> (r: Result<LocalDate, IntegrationError>)
    ensures
        match r {
            Ok(d) => Some(d) == spec_parse_date(value@) && d.wf(),
            Err(e) => spec_parse_date(value@) is None && (e
                matches IntegrationError::MalformedTimestamp(s) && s@ == value@),
        },
{
    match parse_local_date(value) {
        Some(d) => Ok(d),
        None => Err(IntegrationError::MalformedTimestamp(value.to_owned())),
    }
}

/// Parses a `YYYY-MM-DDTHH:MM` naive timestamp; the minute-resolution
/// layout is the only date-time layout the forecast API emits.
pub fn parse_iso8601(value: &str) -> (r: Result<LocalStamp, IntegrationError>)
    ensures
        match r {
            Ok(st) => Some(st) == spec_parse_stamp(value@) && st.wf(),
            Err(e) => spec_parse_stamp(value@) is None && (e
                matches IntegrationError::MalformedTimestamp(s) && s@ == value@),
        },
{
    parse_iso8601_datetime(value)
}

} // verus!
