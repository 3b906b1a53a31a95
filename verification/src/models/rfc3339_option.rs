//! Optional dates in JSON: an RFC 3339 text, or an Extended JSON `$date`.

use vstd::prelude::*;

use crate::json::{Json, JsonView};
#[allow(unused_imports)]
use crate::models::dates::{object_date, object_fits, object_in_calendar, read_object, read_rfc3339, rfc3339_date, rfc3339_time, DateError};
#[allow(unused_imports)]
use crate::time::{four_digit_year, is_representable, rfc3339_form, to_rfc3339, UtcTime};

verus! {

/// Writes a date as RFC 3339 text, and no date as nothing. In the years 0 to
/// 9999 the text reads back as the date.
pub fn serialize(opt: &Option<UtcTime>) -> (r: Option<String>)
    requires
        *opt matches Some(t) ==> is_representable(t),
    ensures
        match *opt {
            Some(t) => r is Some && r->0@ == rfc3339_form(t.secs, t.nanos) && (four_digit_year(t)
                ==> rfc3339_time(r->0@) == Some(t)),
            None => r is None,
        },
{
    match opt {
        Some(t) => to_rfc3339(*t),
        None => None,
    }
}

/// What `deserialize` reads from a JSON value.
pub open spec fn json_date(value: JsonView) -> Result<Option<UtcTime>, DateError> {
    match value {
        JsonView::Text(s) => rfc3339_date(s),
        JsonView::Object(_) => object_date(value),
        JsonView::Null => Ok(None),
        _ => Err(DateError::Type),
    }
}

/// Reads an optional date. Milliseconds must be a moment of the calendar.
pub fn deserialize(value: &Option<Json>) -> (r: Result<Option<UtcTime>, DateError>)
    requires
        *value matches Some(v) ==> object_in_calendar(v@),
    ensures
        match *value {
            Some(v) => r == json_date(v@),
            None => r == Ok::<Option<UtcTime>, DateError>(None),
        },
{
    match value {
        Some(v) => match v {
            Json::Text(s) => read_rfc3339(s.as_str()),
            Json::Object(_) => read_object(v),
            Json::Null => Ok(None),
            _ => Err(DateError::Type),
        },
        None => Ok(None),
    }
}

/// Reads an optional date, and gives nothing where milliseconds are no moment
/// of the calendar.
pub fn read(value: &Option<Json>) -> (r: Option<Result<Option<UtcTime>, DateError>>)
    ensures
        r == match *value {
            Some(v) => if object_in_calendar(v@) {
                Some(json_date(v@))
            } else {
                None
            },
            None => Some(Ok::<Option<UtcTime>, DateError>(None)),
        },
{
    match value {
        Some(v) => if object_fits(v) {
            Some(deserialize(value))
        } else {
            None
        },
        None => Some(Ok(None)),
    }
}

} // verus!
