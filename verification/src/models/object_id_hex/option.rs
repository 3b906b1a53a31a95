//! Optional identifiers in JSON.

use vstd::prelude::*;

use crate::json::{Json, JsonView};
use crate::models::object_id_hex::{json_id, reads, IdError};
#[allow(unused_imports)]
use crate::object_id::{hex_form, ObjectId};

verus! {

/// Writes an identifier as its hexadecimal digits, and no identifier as
/// nothing.
pub fn serialize(opt: &Option<ObjectId>) -> (r: Option<String>)
    ensures
        match *opt {
            Some(oid) => r is Some && r->0@ == hex_form(oid@),
            None => r is None,
        },
{
    match opt {
        Some(oid) => Some(oid.to_hex()),
        None => None,
    }
}

/// Reads an optional identifier: nothing and `null` are no identifier.
pub fn deserialize(value: &Option<Json>) -> (r: Result<Option<ObjectId>, IdError>)
    ensures
        match *value {
            Some(v) => match v@ {
                JsonView::Null => r == Ok::<Option<ObjectId>, IdError>(None),
                _ => match r {
                    Ok(oid) => oid is Some && reads(Ok(oid->0), json_id(v@)),
                    Err(e) => reads(Err(e), json_id(v@)),
                },
            },
            None => r == Ok::<Option<ObjectId>, IdError>(None),
        },
{
    match value {
        Some(v) => match v {
            Json::Null => Ok(None),
            _ => match crate::models::object_id_hex::deserialize(v) {
                Ok(oid) => Ok(Some(oid)),
                Err(e) => Err(e),
            },
        },
        None => Ok(None),
    }
}

} // verus!
