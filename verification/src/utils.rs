//! Pieces that several handlers share.

use vstd::prelude::*;

use crate::http::{message, Body, Reply, INTERNAL_SERVER_ERROR};
#[allow(unused_imports)]
use crate::http::says;
#[allow(unused_imports)]
use crate::object_id::{is_object_id, lemma_same_bytes, object_id_bytes, object_id_of, ObjectId};

pub mod cookies;
pub mod crypto;
pub mod flag;
pub mod geo;
pub mod mail;
pub mod ratelimit;
pub mod totp;
pub mod webauthn;

verus! {

/// The identifier that a text writes, or `None` where it writes none.
pub fn object_id_from_str(s: &str) -> (r: Option<ObjectId>)
    ensures
        (r is Some) == is_object_id(s@),
        r is Some ==> r->0@ == object_id_bytes(s@) && r->0 == object_id_of(s@),
{
    let r = ObjectId::parse(s);
    proof {
        if r is Some {
            lemma_same_bytes(r->0, object_id_of(s@));
        }
    }
    r
}

/// The reply to a database failure, without what the driver says of it.
pub open spec fn db_failed(status: u16) -> Reply {
    says(status, "Database error, please try again later")
}

/// The reply to a failure that is not the database's.
pub open spec fn internal_failed() -> Reply {
    says(INTERNAL_SERVER_ERROR, "Internal error, please try again later")
}

/// What a client is told of a database failure.
pub fn db_err_json() -> (r: Body)
    ensures
        r == Body::Message("Database error, please try again later"),
{
    Body::Message("Database error, please try again later")
}

/// The reply to a database failure.
pub fn db_error(status: u16) -> (r: Reply)
    ensures
        r == db_failed(status),
{
    crate::http::reply(status, db_err_json())
}

/// The reply to a failure that is not the database's.
pub fn internal_err() -> (r: Reply)
    ensures
        r == internal_failed(),
{
    message(INTERNAL_SERVER_ERROR, "Internal error, please try again later")
}

} // verus!
