//! Stored dates: what the reader of a date accepts, and what it refuses.

use vstd::prelude::*;

use crate::json::{Json, JsonNumber, JsonView};
use crate::numbers::{in_range, parse_i64, signed_value};
use crate::time::{calendar_holds, from_millis, millis_in_calendar, millis_time, parse_rfc3339, rfc3339_value, UtcTime};

verus! {

/// Why a stored date cannot be read.
#[derive(Clone, Copy, Debug, PartialEq, Eq, Structural)]
pub enum DateError {
    /// A text that is no RFC 3339 date.
    Rfc3339,
    /// A text that is neither an RFC 3339 date nor a number of milliseconds.
    Text,
    /// A `$numberLong` text that is no integer.
    Integer,
    /// A number that is no integer.
    Number,
    /// A `$date` that is none of the accepted forms.
    Date,
    /// An object without `$date`.
    ExpectedDate,
    /// A value of another type.
    Type,
}

/// The moment that an RFC 3339 text writes.
pub open spec fn rfc3339_time(s: Seq<char>) -> Option<UtcTime> {
    match rfc3339_value(s) {
        Some((secs, nanos)) => Some(UtcTime { secs, nanos }),
        None => None,
    }
}

/// The 64-bit integer that a text writes.
pub open spec fn long_value(s: Seq<char>) -> Option<int> {
    in_range(signed_value(s), i64::MIN as int, i64::MAX as int)
}

pub open spec fn rfc3339_date(s: Seq<char>) -> Result<Option<UtcTime>, DateError> {
    match rfc3339_time(s) {
        Some(t) => Ok(Some(t)),
        None => Err(DateError::Rfc3339),
    }
}

pub open spec fn number_date(n: JsonNumber) -> Result<Option<UtcTime>, DateError> {
    match n.signed {
        Some(millis) => Ok(Some(millis_time(millis as int))),
        None => Err(DateError::Number),
    }
}

/// An RFC 3339 text, or milliseconds since 1970 written in digits.
pub open spec fn text_date(s: Seq<char>) -> Result<Option<UtcTime>, DateError> {
    match rfc3339_time(s) {
        Some(t) => Ok(Some(t)),
        None => match long_value(s) {
            Some(millis) => Ok(Some(millis_time(millis))),
            None => Err(DateError::Text),
        },
    }
}

/// The value of a `$date` member: an RFC 3339 text, milliseconds, or
/// milliseconds under `$numberLong`.
pub open spec fn dollar_date(v: JsonView) -> Result<Option<UtcTime>, DateError> {
    match v {
        JsonView::Text(s) => rfc3339_date(s),
        JsonView::Object(_) => match v.member("$numberLong"@) {
            Some(JsonView::Text(s)) => match long_value(s) {
                Some(millis) => Ok(Some(millis_time(millis))),
                None => Err(DateError::Integer),
            },
            Some(JsonView::Number(n)) => number_date(n),
            _ => Err(DateError::Date),
        },
        JsonView::Number(n) => number_date(n),
        _ => Err(DateError::Date),
    }
}

/// An object with a `$date` member.
pub open spec fn object_date(v: JsonView) -> Result<Option<UtcTime>, DateError> {
    match v.member("$date"@) {
        Some(inner) => dollar_date(inner),
        None => Err(DateError::ExpectedDate),
    }
}

/// The milliseconds that a `$date` member holds.
pub open spec fn dollar_millis(v: JsonView) -> Option<int> {
    match v {
        JsonView::Object(_) => match v.member("$numberLong"@) {
            Some(JsonView::Text(s)) => long_value(s),
            Some(JsonView::Number(n)) => match n.signed {
                Some(millis) => Some(millis as int),
                None => None,
            },
            _ => None,
        },
        JsonView::Number(n) => match n.signed {
            Some(millis) => Some(millis as int),
            None => None,
        },
        _ => None,
    }
}

/// The milliseconds, where a value holds any, are a moment of the calendar.
pub open spec fn object_in_calendar(v: JsonView) -> bool {
    match v.member("$date"@) {
        Some(inner) => dollar_millis(inner) matches Some(m) ==> millis_in_calendar(m),
        None => true,
    }
}

/// The milliseconds, where a text holds any, are a moment of the calendar.
pub open spec fn text_in_calendar(s: Seq<char>) -> bool {
    rfc3339_time(s) is None ==> (long_value(s) matches Some(m) ==> millis_in_calendar(m))
}

/// Whether milliseconds since 1970 are a moment of the calendar.
pub fn millis_fit(millis: i64) -> (r: bool)
    ensures
        r == millis_in_calendar(millis as int),
{
    calendar_holds(from_millis(millis).secs)
}

/// Whether `read_text` takes the text.
pub fn text_fits(s: &str) -> (r: bool)
    ensures
        r == text_in_calendar(s@),
{
    match parse_rfc3339(s) {
        Some(_) => true,
        None => match parse_i64(s) {
            Some(millis) => millis_fit(millis),
            None => true,
        },
    }
}

/// Whether `read_number` takes the number.
pub fn number_fits(n: &JsonNumber) -> (r: bool)
    ensures
        r == (n.signed matches Some(millis) ==> millis_in_calendar(millis as int)),
{
    match n.signed {
        Some(millis) => millis_fit(millis),
        None => true,
    }
}

/// Whether `read_object` takes the value.
pub fn object_fits(v: &Json) -> (r: bool)
    ensures
        r == object_in_calendar(v@),
{
    match v.get("$date") {
        Some(inner) => match inner {
            Json::Object(_) => match inner.get("$numberLong") {
                Some(Json::Text(s)) => match parse_i64(s.as_str()) {
                    Some(millis) => millis_fit(millis),
                    None => true,
                },
                Some(Json::Number(n)) => number_fits(n),
                _ => true,
            },
            Json::Number(n) => number_fits(n),
            _ => true,
        },
        None => true,
    }
}

pub fn read_rfc3339(s: &str) -> (r: Result<Option<UtcTime>, DateError>)
    ensures
        r == rfc3339_date(s@),
{
    match parse_rfc3339(s) {
        Some(t) => Ok(Some(t)),
        None => Err(DateError::Rfc3339),
    }
}

pub fn read_number(n: &JsonNumber) -> (r: Result<Option<UtcTime>, DateError>)
    requires
        n.signed matches Some(millis) ==> millis_in_calendar(millis as int),
    ensures
        r == number_date(*n),
{
    match n.signed {
        Some(millis) => Ok(Some(from_millis(millis))),
        None => Err(DateError::Number),
    }
}

pub fn read_text(s: &str) -> (r: Result<Option<UtcTime>, DateError>)
    requires
        text_in_calendar(s@),
    ensures
        r == text_date(s@),
{
    match parse_rfc3339(s) {
        Some(t) => Ok(Some(t)),
        None => match parse_i64(s) {
            Some(millis) => Ok(Some(from_millis(millis))),
            None => Err(DateError::Text),
        },
    }
}

pub fn read_object(v: &Json) -> (r: Result<Option<UtcTime>, DateError>)
    requires
        object_in_calendar(v@),
    ensures
        r == object_date(v@),
{
    match v.get("$date") {
        Some(inner) => match inner {
            Json::Text(s) => read_rfc3339(s.as_str()),
            Json::Object(_) => match inner.get("$numberLong") {
                Some(Json::Text(s)) => match parse_i64(s.as_str()) {
                    Some(millis) => Ok(Some(from_millis(millis))),
                    None => Err(DateError::Integer),
                },
                Some(Json::Number(n)) => read_number(n),
                _ => Err(DateError::Date),
            },
            Json::Number(n) => read_number(n),
            _ => Err(DateError::Date),
        },
        None => Err(DateError::ExpectedDate),
    }
}

} // verus!
