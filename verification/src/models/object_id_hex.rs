//! Identifiers in JSON: 24 hexadecimal digits, or an Extended JSON `$oid`.

use vstd::prelude::*;

use crate::json::{Json, JsonView};
#[allow(unused_imports)]
use crate::object_id::{hex_form, is_object_id, object_id_bytes, ObjectId};
#[allow(unused_imports)]
use crate::json::text_member;

pub mod option;

verus! {

/// Why an identifier cannot be read.
#[derive(Clone, Copy, Debug, PartialEq, Eq, Structural)]
pub enum IdError {
    /// A text that is not 24 hexadecimal digits.
    Digits,
    /// An object without a `$oid` text.
    ExpectedOid,
    /// A value of another type.
    Type,
}

/// Writes an identifier as its hexadecimal digits.
pub fn serialize(oid: &ObjectId) -> (r: String)
    ensures
        r@ == hex_form(oid@),
{
    oid.to_hex()
}

/// The bytes of the identifier that a text writes.
pub open spec fn text_id(s: Seq<char>) -> Result<Seq<u8>, IdError> {
    if is_object_id(s) {
        Ok(object_id_bytes(s))
    } else {
        Err(IdError::Digits)
    }
}

/// The bytes of the identifier that a JSON value writes.
pub open spec fn json_id(value: JsonView) -> Result<Seq<u8>, IdError> {
    match value {
        JsonView::Text(s) => text_id(s),
        JsonView::Object(_) => match text_member(value, "$oid"@) {
            Some(s) => text_id(s),
            None => Err(IdError::ExpectedOid),
        },
        _ => Err(IdError::Type),
    }
}

/// `r` is the identifier that `expected` tells, or its error.
pub open spec fn reads(r: Result<ObjectId, IdError>, expected: Result<Seq<u8>, IdError>) -> bool {
    match expected {
        Ok(bytes) => r is Ok && r->Ok_0@ == bytes,
        Err(e) => r == Err::<ObjectId, IdError>(e),
    }
}

fn read_text(s: &str) -> (r: Result<ObjectId, IdError>)
    ensures
        reads(r, text_id(s@)),
{
    match ObjectId::parse(s) {
        Some(id) => Ok(id),
        None => Err(IdError::Digits),
    }
}

/// Reads an identifier from a JSON value.
pub fn deserialize(value: &Json) -> (r: Result<ObjectId, IdError>)
    ensures
        reads(r, json_id(value@)),
{
    match value {
        Json::Text(s) => read_text(s.as_str()),
        Json::Object(_) => match value.get_str("$oid") {
            Some(s) => read_text(s),
            None => Err(IdError::ExpectedOid),
        },
        _ => Err(IdError::Type),
    }
}

} // verus!
