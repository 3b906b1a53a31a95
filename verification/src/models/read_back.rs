//! What is written reads back.

use vstd::prelude::*;
#[allow(unused_imports)]
use vstd::string::*;

#[allow(unused_imports)]
use crate::json::{first_member, has_text_member, law_text_member_is_found};
use crate::json::{Json, JsonNumber, JsonView};
use crate::models::dates::DateError;
use crate::models::object_id_hex::IdError;
use crate::models::Bson;
#[allow(unused_imports)]
use crate::models::{bson_rfc3339_option, object_id_hex, rfc3339_option, vec_object_id_hex};
#[allow(unused_imports)]
use crate::numbers::{decimal, lemma_decimal_reads, signed_decimal};
#[allow(unused_imports)]
use crate::object_id::{hex_form, law_hex_reads_back};
use crate::object_id::ObjectId;
#[allow(unused_imports)]
use crate::text::is_digit;
use crate::time::UtcTime;
#[allow(unused_imports)]
use crate::time::{four_digit_year, in_calendar, is_representable, rfc3339_value};

verus! {

/// An identifier that is written reads back, as a text and under `$oid`; so does
/// one that may be missing.
pub proof fn law_identifier_reads_back(
    id: ObjectId,
    text: String,
    value: Json,
    r: Result<ObjectId, IdError>,
    o: Result<Option<ObjectId>, IdError>,
)
    requires
        call_ensures(object_id_hex::serialize, (&id,), text),
        value@ == JsonView::Text(text@) || has_text_member(value@, "$oid"@, text@),
        call_ensures(object_id_hex::deserialize, (&value,), r),
        call_ensures(object_id_hex::option::deserialize, (&Some(value),), o),
    ensures
        r matches Ok(i) && i@ == id@,
        o matches Ok(Some(i)) && i@ == id@,
{
    law_hex_reads_back(id@);
    law_text_member_is_found(value@, "$oid"@, text@);
}

/// A text that is not 24 hexadecimal digits is no identifier; nothing and null
/// are none.
pub proof fn law_other_texts_are_no_identifier(
    value: Json,
    text: Seq<char>,
    r: Result<ObjectId, IdError>,
    nothing: Result<Option<ObjectId>, IdError>,
    null: Result<Option<ObjectId>, IdError>,
)
    requires
        value@ == JsonView::Text(text) || has_text_member(value@, "$oid"@, text),
        text.len() != 24 || exists|i: int|
            0 <= i < 24 && !is_digit(#[trigger] text[i]) && !('a' <= text[i] <= 'f') && !('A'
                <= text[i] <= 'F'),
        call_ensures(object_id_hex::deserialize, (&value,), r),
        call_ensures(object_id_hex::option::deserialize, (&None,), nothing),
        call_ensures(object_id_hex::option::deserialize, (&Some(Json::Null),), null),
    ensures
        r is Err,
        nothing == Ok::<Option<ObjectId>, IdError>(None),
        null == Ok::<Option<ObjectId>, IdError>(None),
{
    law_text_member_is_found(value@, "$oid"@, text);
}

/// A list of identifiers reads back, in order.
pub proof fn law_identifiers_read_back(
    ids: Vec<ObjectId>,
    texts: Option<Vec<String>>,
    value: Json,
    r: Result<Option<Vec<ObjectId>>, IdError>,
)
    requires
        call_ensures(vec_object_id_hex::serialize, (&Some(ids),), texts),
        texts matches Some(t) && value@ == JsonView::Array(
            Seq::new(t@.len(), |i: int| JsonView::Text(t@[i]@)),
        ),
        call_ensures(vec_object_id_hex::deserialize, (&Some(value),), r),
    ensures
        r matches Ok(Some(back)) && back@.len() == ids@.len() && forall|i: int|
            0 <= i < ids@.len() ==> (#[trigger] back@[i])@ == ids@[i]@,
{
    let list = value@->Array_0;
    assert forall|i: int| 0 <= i < list.len() implies object_id_hex::json_id(#[trigger] list[i])
        == Ok::<Seq<u8>, IdError>(ids@[i]@) by {
        assert(texts->0@[i]@ == hex_form(ids@[i]@));
        law_hex_reads_back(ids@[i]@);
    }
    lemma_none_refused(list, 0);
    let back = r->Ok_0->0;
    assert forall|i: int| 0 <= i < ids@.len() implies (#[trigger] back@[i])@ == ids@[i]@ by {
        assert(object_id_hex::json_id(list[i]) == Ok::<Seq<u8>, IdError>(back@[i]@));
    }
}

proof fn lemma_none_refused(list: Seq<JsonView>, from: int)
    requires
        0 <= from <= list.len(),
        forall|i: int| 0 <= i < list.len() ==> object_id_hex::json_id(#[trigger] list[i]) is Ok,
    ensures
        vec_object_id_hex::first_refused(list, from) is None,
    decreases list.len() - from,
{
    if from < list.len() {
        lemma_none_refused(list, from + 1);
    }
}

/// A date that is written reads back in the years 0 to 9999, from the database
/// and from JSON, as a text and under `$date`. No date is written as nothing.
pub proof fn law_date_reads_back(
    t: UtcTime,
    text: Option<String>,
    none: Option<String>,
    value: Json,
    stored: Result<Option<UtcTime>, DateError>,
    read: Result<Option<UtcTime>, DateError>,
)
    requires
        is_representable(t),
        four_digit_year(t),
        call_ensures(bson_rfc3339_option::serialize, (&Some(t),), text),
        call_ensures(bson_rfc3339_option::serialize, (&None,), none),
        text matches Some(s) && (value@ == JsonView::Text(s@) || value@ == JsonView::Object(
            seq![("$date"@, JsonView::Text(s@))],
        )),
        call_ensures(bson_rfc3339_option::deserialize, (&Bson::Document(value),), stored),
        call_ensures(rfc3339_option::deserialize, (&Some(value),), read),
    ensures
        none is None,
        stored == Ok::<Option<UtcTime>, DateError>(Some(t)),
        read == Ok::<Option<UtcTime>, DateError>(Some(t)),
{
    let s = text->0@;
    if value@ != JsonView::Text(s) {
        lemma_only_member(value@, "$date"@, JsonView::Text(s));
    }
}

proof fn lemma_only_member(v: JsonView, name: Seq<char>, inner: JsonView)
    requires
        v == JsonView::Object(seq![(name, inner)]),
    ensures
        v.member(name) == Some(inner),
{
    reveal_with_fuel(first_member, 2);
    assert(v->Object_0[0] == (name, inner));
}

proof fn lemma_signed_reads(n: int)
    requires
        i64::MIN <= n <= i64::MAX,
    ensures
        crate::models::dates::long_value(signed_decimal(n)) == Some(n),
{
    let s = signed_decimal(n);
    if n < 0 {
        lemma_decimal_reads((-n) as nat);
        assert(s.skip(1) =~= decimal((-n) as nat));
    } else {
        lemma_decimal_reads(n as nat);
        assert(s.len() > 0 && is_digit(s[0]));
    }
}

/// Milliseconds since 1970 are one moment, however they are stored: as a number,
/// as digits that are no other date, and under `$date`, there too as a number
/// or as a `$numberLong`. That moment is as many milliseconds from 1970.
pub proof fn law_milliseconds_are_one_moment(
    millis: i64,
    digits: String,
    values: (Json, Json, Json),
    a: Result<Option<UtcTime>, DateError>,
    b: Result<Option<UtcTime>, DateError>,
    c: Result<Option<UtcTime>, DateError>,
    d: Result<Option<UtcTime>, DateError>,
    e: Result<Option<UtcTime>, DateError>,
)
    requires
        in_calendar(millis as int / 1000),
        digits@ == signed_decimal(millis as int),
        rfc3339_value(digits@) is None,
        values.0@ == JsonView::Object(
            seq![
                (
                    "$date"@,
                    JsonView::Object(seq![("$numberLong"@, JsonView::Text(digits@))]),
                ),
            ],
        ),
        values.1@ == JsonView::Object(
            seq![("$date"@, JsonView::Number(JsonNumber { signed: Some(millis), unsigned: None }))],
        ),
        values.2@ == JsonView::Number(JsonNumber { signed: Some(millis), unsigned: None }),
        call_ensures(bson_rfc3339_option::deserialize, (&Bson::Int64(millis),), a),
        call_ensures(bson_rfc3339_option::deserialize, (&Bson::Text(digits),), b),
        call_ensures(bson_rfc3339_option::deserialize, (&Bson::Document(values.0),), c),
        call_ensures(bson_rfc3339_option::deserialize, (&Bson::Document(values.1),), d),
        call_ensures(bson_rfc3339_option::deserialize, (&Bson::Document(values.2),), e),
    ensures
        a matches Ok(Some(t)) && t.secs * 1000 + t.nanos as int / 1_000_000 == millis && t.nanos
            < 1_000_000_000 && t.nanos % 1_000_000 == 0,
        b == a,
        c == a,
        d == a,
        e == a,
{
    lemma_signed_reads(millis as int);
    let inner = JsonView::Object(seq![("$numberLong"@, JsonView::Text(digits@))]);
    lemma_only_member(values.0@, "$date"@, inner);
    lemma_only_member(inner, "$numberLong"@, JsonView::Text(digits@));
    lemma_only_member(
        values.1@,
        "$date"@,
        JsonView::Number(JsonNumber { signed: Some(millis), unsigned: None }),
    );
    let s = millis as int / 1000;
    crate::time::lemma_calendar_bounds();
    let t = a->Ok_0->0;
    let n = (millis as int % 1000) * 1_000_000;
    assert(0 <= n < 1_000_000_000);
    assert(t.nanos == n);
    assert(t.secs == s);
    assert(n / 1_000_000 == millis as int % 1000);
    assert(n % 1_000_000 == 0);
}

/// A date of the database is that date; null is none, and what is no date is
/// refused.
pub proof fn law_stored_dates_are_read(
    t: UtcTime,
    n: i32,
    text: String,
    value: bool,
    date: Result<Option<UtcTime>, DateError>,
    null: Result<Option<UtcTime>, DateError>,
    short: Result<Option<UtcTime>, DateError>,
    other: Result<Option<UtcTime>, DateError>,
    flag: Result<Option<UtcTime>, DateError>,
)
    requires
        call_ensures(bson_rfc3339_option::deserialize, (&Bson::DateTime(t),), date),
        call_ensures(bson_rfc3339_option::deserialize, (&Bson::Null,), null),
        call_ensures(bson_rfc3339_option::deserialize, (&Bson::Int32(n),), short),
        call_ensures(bson_rfc3339_option::deserialize, (&Bson::Other(text),), other),
        call_ensures(bson_rfc3339_option::deserialize, (&Bson::Document(Json::Bool(value)),), flag),
    ensures
        date == Ok::<Option<UtcTime>, DateError>(Some(t)),
        null == Ok::<Option<UtcTime>, DateError>(None),
        short matches Ok(Some(m)) && m.secs * 1000 + m.nanos as int / 1_000_000 == n,
        other is Err,
        flag is Err,
{
    let m = short->Ok_0->0;
    let k = (n as int % 1000) * 1_000_000;
    assert(m.nanos == k);
    assert(k / 1_000_000 == n as int % 1000);
}

/// Every date that lies in the calendar is read; only milliseconds that do not
/// are passed over.
pub proof fn law_reading_passes_over_nothing_else(
    value: Bson,
    json: Option<Json>,
    stored: Option<Result<Option<UtcTime>, DateError>>,
    whole: Result<Option<UtcTime>, DateError>,
    read: Option<Result<Option<UtcTime>, DateError>>,
    full: Result<Option<UtcTime>, DateError>,
)
    requires
        call_ensures(bson_rfc3339_option::read, (&value,), stored),
        call_ensures(bson_rfc3339_option::deserialize, (&value,), whole),
        call_ensures(rfc3339_option::read, (&json,), read),
        call_ensures(rfc3339_option::deserialize, (&json,), full),
    ensures
        stored matches Some(x) ==> x == whole,
        read matches Some(x) ==> x == full,
        value is DateTime || value is Null || value is Int32 || value is ObjectId || value is Other
            ==> stored is Some,
        value matches Bson::Int64(n) ==> (stored is Some) == in_calendar(n as int / 1000),
        value matches Bson::Text(s) ==> rfc3339_value(s@) is Some ==> stored is Some,
        json is None ==> read == Some(Ok::<Option<UtcTime>, DateError>(None)),
        json matches Some(v) ==> v@ is Text || v@ is Null ==> read is Some,
{
}

} // verus!
