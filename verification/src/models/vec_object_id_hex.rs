//! Optional lists of identifiers in JSON.

use vstd::prelude::*;

use crate::json::{Json, JsonView};
use crate::models::object_id_hex::{json_id, IdError};
#[allow(unused_imports)]
use crate::object_id::{hex_form, ObjectId};

verus! {

/// Writes a list of identifiers as the list of their hexadecimal digits.
pub fn serialize(list: &Option<Vec<ObjectId>>) -> (r: Option<Vec<String>>)
    ensures
        match *list {
            Some(ids) => r is Some && r->0@.len() == ids@.len() && forall|i: int|
                0 <= i < ids@.len() ==> (#[trigger] r->0@[i])@ == hex_form(ids@[i]@),
            None => r is None,
        },
{
    match list {
        Some(ids) => {
            let mut out: Vec<String> = Vec::new();
            let mut i: usize = 0;
            while i < ids.len()
                invariant
                    i <= ids@.len(),
                    out@.len() == i,
                    forall|j: int| 0 <= j < i ==> (#[trigger] out@[j])@ == hex_form(ids@[j]@),
                decreases ids@.len() - i,
            {
                out.push(ids[i].to_hex());
                i += 1;
            }
            Some(out)
        },
        None => None,
    }
}

/// The first element of a list that is no identifier, from index `from` on.
pub open spec fn first_refused(list: Seq<JsonView>, from: int) -> Option<IdError>
    decreases list.len() - from,
{
    if from < 0 || from >= list.len() {
        None
    } else {
        match json_id(list[from]) {
            Ok(_) => first_refused(list, from + 1),
            Err(e) => Some(e),
        }
    }
}

/// Reads an optional list of identifiers. The first element that is none is
/// the error of the whole list.
pub fn deserialize(value: &Option<Json>) -> (r: Result<Option<Vec<ObjectId>>, IdError>)
    ensures
        match *value {
            Some(v) => match v@ {
                JsonView::Array(list) => match first_refused(list, 0) {
                    Some(e) => r == Err::<Option<Vec<ObjectId>>, IdError>(e),
                    None => r is Ok && r->Ok_0 is Some && r->Ok_0->0@.len() == list.len()
                        && forall|i: int|
                        0 <= i < list.len() ==> json_id(list[i]) == Ok::<Seq<u8>, IdError>(
                            (#[trigger] r->Ok_0->0@[i])@,
                        ),
                },
                JsonView::Null => r == Ok::<Option<Vec<ObjectId>>, IdError>(None),
                _ => r == Err::<Option<Vec<ObjectId>>, IdError>(IdError::Type),
            },
            None => r == Ok::<Option<Vec<ObjectId>>, IdError>(None),
        },
{
    match value {
        Some(v) => match v {
            Json::Array(items) => {
                let ghost list = v@->Array_0;
                let mut out: Vec<ObjectId> = Vec::new();
                let mut i: usize = 0;
                while i < items.len()
                    invariant
                        i <= items@.len(),
                        *value is Some,
                        value->0 == *v,
                        *v is Array,
                        v->Array_0 == *items,
                        list == v@->Array_0,
                        list.len() == items@.len(),
                        out@.len() == i,
                        first_refused(list, i as int) == first_refused(list, 0),
                        forall|j: int|
                            0 <= j < i ==> json_id(list[j]) == Ok::<Seq<u8>, IdError>(
                                (#[trigger] out@[j])@,
                            ),
                    decreases items@.len() - i,
                {
                    assert(list[i as int] == items@[i as int]@);
                    match crate::models::object_id_hex::deserialize(&items[i]) {
                        Ok(oid) => {
                            out.push(oid);
                        },
                        Err(e) => {
                            return Err(e);
                        },
                    }
                    i += 1;
                }
                Ok(Some(out))
            },
            Json::Null => Ok(None),
            _ => Err(IdError::Type),
        },
        None => Ok(None),
    }
}

} // verus!
