//! Who removes a second factor.

use vstd::prelude::*;

use crate::config::AppState;
#[allow(unused_imports)]
use crate::flow::{Action, Event, Step};
#[allow(unused_imports)]
use crate::handlers::session::current_token;
#[allow(unused_imports)]
use crate::handlers::user::changed::{has_no_token, has_session};
#[allow(unused_imports)]
use crate::handlers::user::factors::{are_factors, law_second_factor_is_removed};
use crate::handlers::user::tfa::RemoveTfa;
#[allow(unused_imports)]
use crate::handlers::user::tfa::{is_remove_start, remove_2fa, remove_owned};
use crate::handlers::user::Remove2FAReq;
#[allow(unused_imports)]
use crate::http::OK;
use crate::http::{Headers, Reply};
#[allow(unused_imports)]
use crate::middleware::auth::{is_bearer_start, BearerSession};
#[allow(unused_imports)]
use crate::models::User;
use crate::object_id::ObjectId;
#[allow(unused_imports)]
use crate::object_id::{is_object_id, object_id_of};
#[allow(unused_imports)]
use crate::store::{runs, unfailed};
use crate::store::{Rows, Turn};
use crate::time::UtcTime;
#[allow(unused_imports)]
use crate::utils::crypto::purpose_owner;

verus! {

/// What a request to remove the second factor `id` of an account comes to, for a
/// caller who is authorized or is not.
pub open spec fn factor_goes(
    payload: Remove2FAReq,
    authorized: bool,
    id: ObjectId,
    rows: Rows,
    reply: Reply,
    after: Rows,
) -> bool {
    let uid = object_id_of(payload.userId@);
    &&& (reply.status == OK) == (authorized && is_object_id(payload.userId@))
    &&& reply.status != OK ==> after == rows
    &&& reply.status == OK ==> after == (Rows {
        tfas: rows.tfas.remove(id),
        users: rows.users.insert(uid, User { tfa_status: None, ..rows.users[uid] }),
        ..rows
    })
}

/// Without a session a second factor is removed for whom a reset token proves the
/// ownership of the account, and for nobody else.
pub proof fn law_reset_token_removes_the_factor(
    headers: Headers,
    payload: Remove2FAReq,
    app: AppState,
    began: UtcTime,
    start: Step<RemoveTfa, Reply>,
    rows: Rows,
    turns: Seq<Turn<RemoveTfa>>,
    id: ObjectId,
    reply: Reply,
    after: Rows,
)
    requires
        call_ensures(remove_2fa, (&headers, payload, &app, began), start),
        runs(app, start, rows, turns, (reply, after)),
        unfailed(turns),
        has_no_token(headers),
        are_factors(rows),
        rows.tfas.dom().contains(id),
        rows.tfas[id].userId == object_id_of(payload.userId@),
        rows.users.dom().contains(object_id_of(payload.userId@)),
    ensures
        factor_goes(
            payload,
            payload.resetToken matches Some(t) && purpose_owner(
                t@,
                app.jwt_secret@,
                "reset"@,
                began,
            ) == Some(payload.userId@),
            id,
            rows,
            reply,
            after,
        ),
{
    law_second_factor_is_removed(None, payload, app, began, rows, turns, id, reply, after);
}

/// With a live session a second factor is removed for the account of the
/// session, and for no other.
pub proof fn law_session_removes_the_factor(
    headers: Headers,
    payload: Remove2FAReq,
    sub: Seq<char>,
    app: AppState,
    began: UtcTime,
    start: Step<RemoveTfa, Reply>,
    rows: Rows,
    turns: Seq<Turn<RemoveTfa>>,
    id: ObjectId,
    reply: Reply,
    after: Rows,
)
    requires
        call_ensures(remove_2fa, (&headers, payload, &app, began), start),
        runs(app, start, rows, turns, (reply, after)),
        unfailed(turns),
        has_session(headers, rows, sub, app.jwt_secret@, began, turns[0].now),
        are_factors(rows),
        rows.tfas.dom().contains(id),
        rows.tfas[id].userId == object_id_of(payload.userId@),
        rows.users.dom().contains(object_id_of(payload.userId@)),
    ensures
        factor_goes(payload, sub == payload.userId@, id, rows, reply, after),
{
    let lookup = choose|s: Step<BearerSession, Option<String>>|
        is_bearer_start(s, headers, app.jwt_secret@, began) && #[trigger] is_remove_start(
            start,
            s,
            payload,
            app,
            began,
        );
    let token = current_token(headers)->0;
    assert(lookup matches Step::Ask(Action::SessionByToken(t), BearerSession { sub: s }) && t@
        == token && s@ == sub);
    let t = turns[0];
    let k = choose|k: ObjectId| #[trigger]
        rows.sessions.dom().contains(k) && rows.sessions[k].token@ == token;
    assert(t.event matches Event::Session(Some(_)));
    let row = t.event->Session_0->0;
    let j = choose|j: ObjectId| #[trigger]
        rows.sessions.dom().contains(j) && rows.sessions[j] == row;
    assert(rows.sessions.dom().contains(j));
    let owner = Some(lookup->Ask_1.sub);
    assert(t.step == remove_owned(owner, payload, app, t.now));
    assert forall|i: int| 0 <= i < turns.skip(1).len() implies !((
    #[trigger] turns.skip(1)[i]).event is Failed) by {
        assert(turns.skip(1)[i] == turns[i + 1]);
    }
    law_second_factor_is_removed(
        owner,
        payload,
        app,
        t.now,
        t.rows,
        turns.skip(1),
        id,
        reply,
        after,
    );
}

} // verus!
