//! Optional dates in the database: a date, an RFC 3339 text, milliseconds, or
//! an Extended JSON `$date`.

use vstd::prelude::*;

use crate::json::{Json, JsonView};
use crate::models::dates::{millis_fit, number_date, number_fits, object_date, object_fits, object_in_calendar, read_number, read_object, read_text, rfc3339_time, text_date, text_fits, text_in_calendar, DateError};
use crate::models::Bson;
#[allow(unused_imports)]
use crate::time::{four_digit_year, from_millis, is_representable, millis_in_calendar, millis_time, rfc3339_form, to_rfc3339, UtcTime};

verus! {

/// Writes a date as RFC 3339 text, and no date as nothing. In the years 0 to
/// 9999 the text reads back as the date.
pub fn serialize(opt: &Option<UtcTime>) -> (r: Option<String>)
    requires
        *opt matches Some(t) ==> is_representable(t),
    ensures
        match *opt {
            Some(t) => r is Some && r->0@ == rfc3339_form(t.secs, t.nanos) && (four_digit_year(t)
                ==> rfc3339_time(r->0@) == Some(t) && text_date(r->0@) == Ok::<
                Option<UtcTime>,
                DateError,
            >(*opt)),
            None => r is None,
        },
{
    match opt {
        Some(t) => to_rfc3339(*t),
        None => None,
    }
}

/// What `deserialize_json_value` reads from a JSON value.
pub open spec fn json_value_date(value: JsonView) -> Result<Option<UtcTime>, DateError> {
    match value {
        JsonView::Null => Ok(None),
        JsonView::Text(s) => text_date(s),
        JsonView::Object(_) => object_date(value),
        JsonView::Number(n) => number_date(n),
        _ => Err(DateError::Type),
    }
}

/// The milliseconds, where a value holds any, are a moment of the calendar.
pub open spec fn value_in_calendar(value: JsonView) -> bool {
    match value {
        JsonView::Text(s) => text_in_calendar(s),
        JsonView::Number(n) => n.signed matches Some(m) ==> millis_in_calendar(m as int),
        _ => object_in_calendar(value),
    }
}

/// Reads an optional date from a JSON value.
pub fn deserialize_json_value(value: &Json) -> (r: Result<Option<UtcTime>, DateError>)
    requires
        value_in_calendar(value@),
    ensures
        r == json_value_date(value@),
{
    match value {
        Json::Null => Ok(None),
        Json::Text(s) => read_text(s.as_str()),
        Json::Object(_) => read_object(value),
        Json::Number(n) => read_number(n),
        _ => Err(DateError::Type),
    }
}

/// What `deserialize` reads from a stored value.
pub open spec fn stored_date(value: Bson) -> Result<Option<UtcTime>, DateError> {
    match value {
        Bson::DateTime(t) => Ok(Some(t)),
        Bson::Null => Ok(None),
        Bson::Text(s) => text_date(s@),
        Bson::Int64(n) => Ok(Some(millis_time(n as int))),
        Bson::Int32(n) => Ok(Some(millis_time(n as int))),
        Bson::Document(doc) => json_value_date(doc@),
        _ => Err(DateError::Type),
    }
}

/// The milliseconds, where a stored value holds any, are a moment of the
/// calendar.
pub open spec fn stored_in_calendar(value: Bson) -> bool {
    match value {
        Bson::Text(s) => text_in_calendar(s@),
        Bson::Int64(n) => millis_in_calendar(n as int),
        Bson::Document(doc) => value_in_calendar(doc@),
        _ => true,
    }
}

/// Reads an optional date from a stored value.
pub fn deserialize(value: &Bson) -> (r: Result<Option<UtcTime>, DateError>)
    requires
        stored_in_calendar(*value),
    ensures
        r == stored_date(*value),
{
    match value {
        Bson::DateTime(t) => Ok(Some(*t)),
        Bson::Null => Ok(None),
        Bson::Text(s) => read_text(s.as_str()),
        Bson::Int64(n) => Ok(Some(from_millis(*n))),
        Bson::Int32(n) => Ok(Some(from_millis(*n as i64))),
        Bson::Document(doc) => deserialize_json_value(doc),
        _ => Err(DateError::Type),
    }
}

/// Reads an optional date from a stored value, and gives nothing where
/// milliseconds are no moment of the calendar.
pub fn read(value: &Bson) -> (r: Option<Result<Option<UtcTime>, DateError>>)
    ensures
        r == if stored_in_calendar(*value) {
            Some(stored_date(*value))
        } else {
            None
        },
{
    let fits = match value {
        Bson::Text(s) => text_fits(s.as_str()),
        Bson::Int64(n) => millis_fit(*n),
        Bson::Document(doc) => match doc {
            Json::Text(s) => text_fits(s.as_str()),
            Json::Number(n) => number_fits(n),
            _ => object_fits(doc),
        },
        _ => true,
    };
    if fits {
        Some(deserialize(value))
    } else {
        None
    }
}

} // verus!
