//! What becomes of the stored sessions when a request is answered.

use vstd::prelude::*;
#[allow(unused_imports)]
use vstd::string::*;

use crate::config::AppState;
#[allow(unused_imports)]
use crate::flow::{Event, Step};
#[allow(unused_imports)]
use crate::handlers::session::{current_token, delete_all, delete_one, view};
use crate::handlers::session::SessionFlow;
use crate::http::Headers;
#[allow(unused_imports)]
use crate::http::{says, Body, OK};
use crate::http::Reply;
#[allow(unused_imports)]
use crate::models::Session;
#[allow(unused_imports)]
use crate::object_id::{is_object_id, object_id_of, ObjectId};
#[allow(unused_imports)]
use crate::store::{is_of, runs, unfailed, Rows, Turn};
use crate::utils::crypto::Claims;

verus! {

/// A user who lists the sessions gets all of their own and no other, each with
/// what is stored of it but the token; the one that the request itself has is
/// marked. No row is changed.
pub proof fn law_sessions_are_listed(
    claims: Claims,
    headers: Headers,
    user: String,
    app: AppState,
    start: Step<SessionFlow, Reply>,
    rows: Rows,
    turns: Seq<Turn<SessionFlow>>,
    stored: ObjectId,
    reply: Reply,
    after: Rows,
)
    requires
        call_ensures(view, (&claims, &headers, user), start),
        runs(app, start, rows, turns, (reply, after)),
    ensures
        after == rows,
        reply.status == OK ==> {
            &&& claims.sub@ == user@
            &&& reply.cookies is Nothing
            &&& reply.body matches Body::Sessions(list)
            &&& forall|i: int| #![trigger list@[i]]
                0 <= i < list@.len() ==> exists|id: ObjectId| #[trigger]
                    rows.sessions.dom().contains(id) && is_of(
                        rows.sessions[id].userId,
                        object_id_of(user@),
                        user@,
                    ) && {
                        let s = rows.sessions[id];
                        let e = list@[i];
                        &&& e.id == s.id
                        &&& e.userId == s.userId
                        &&& e.expAt == s.expAt
                        &&& e.ip == s.ip
                        &&& e.browserData == s.browserData
                        &&& e.location == s.location
                        &&& e.countryFlag == s.countryFlag
                        &&& e.deviceData == s.deviceData
                        &&& e.clientData == s.clientData
                        &&& e.createdAt == s.createdAt
                        &&& e.current == (current_token(headers) == Some(s.token@))
                    }
            &&& rows.sessions.dom().contains(stored) && is_of(
                rows.sessions[stored].userId,
                object_id_of(user@),
                user@,
            ) ==> exists|i: int|
                0 <= i < list@.len() && (#[trigger] list@[i]).id == rows.sessions[stored].id
        },
        unfailed(turns) && claims.sub@ == user@ && is_object_id(user@)
            && rows.sessions.dom().contains(stored) && is_of(
            rows.sessions[stored].userId,
            object_id_of(user@),
            user@,
        ) ==> reply.status == OK,
{
    reveal_with_fuel(runs, 3);
    if start is Ask {
        if let Event::Sessions(sessions) = turns[0].event {
            if sessions@.len() > 0 {
                let list = reply.body->Sessions_0;
                assert forall|i: int| #![trigger list@[i]] 0 <= i < list@.len() implies exists|
                    id: ObjectId,
                | #[trigger]
                    rows.sessions.dom().contains(id) && is_of(
                        rows.sessions[id].userId,
                        object_id_of(user@),
                        user@,
                    ) && {
                        let s = rows.sessions[id];
                        let e = list@[i];
                        &&& e.id == s.id
                        &&& e.userId == s.userId
                        &&& e.expAt == s.expAt
                        &&& e.ip == s.ip
                        &&& e.browserData == s.browserData
                        &&& e.location == s.location
                        &&& e.countryFlag == s.countryFlag
                        &&& e.deviceData == s.deviceData
                        &&& e.clientData == s.clientData
                        &&& e.createdAt == s.createdAt
                        &&& e.current == (current_token(headers) == Some(s.token@))
                    } by {
                    let id = choose|id: ObjectId| #[trigger]
                        rows.sessions.dom().contains(id) && rows.sessions[id] == sessions@[i];
                    assert(rows.sessions.dom().contains(id));
                }
                if rows.sessions.dom().contains(stored) && is_of(
                    rows.sessions[stored].userId,
                    object_id_of(user@),
                    user@,
                ) {
                    assert(sessions@.contains(rows.sessions[stored]));
                    let i = choose|i: int|
                        0 <= i < sessions@.len() && sessions@[i] == rows.sessions[stored];
                    assert(list@[i].id == rows.sessions[stored].id);
                }
            }
        }
    }
}

/// A session that was ended is gone, and no other is; only the user it belongs
/// to ends it.
pub proof fn law_ended_session_is_gone(
    claims: Claims,
    user: String,
    session: &str,
    app: AppState,
    start: Step<SessionFlow, Reply>,
    rows: Rows,
    turns: Seq<Turn<SessionFlow>>,
    reply: Reply,
    after: Rows,
)
    requires
        call_ensures(delete_one, (&claims, user, session), start),
        runs(app, start, rows, turns, (reply, after)),
    ensures
        reply.status == OK ==> {
            let id = object_id_of(session@);
            &&& claims.sub@ == user@
            &&& reply == says(OK, "Session was terminated successfully!")
            &&& after == if rows.sessions.dom().contains(id) && is_of(
                rows.sessions[id].userId,
                object_id_of(user@),
                user@,
            ) {
                Rows { sessions: rows.sessions.remove(id), ..rows }
            } else {
                rows
            }
        },
        reply.status != OK ==> after == rows,
        unfailed(turns) && claims.sub@ == user@ && is_object_id(user@) && is_object_id(session@)
            ==> reply.status == OK,
{
    reveal_with_fuel(runs, 3);
}

/// After a user ended all sessions none of theirs is left, and all others are.
pub proof fn law_all_sessions_are_gone(
    claims: Claims,
    user: String,
    id: ObjectId,
    app: AppState,
    start: Step<SessionFlow, Reply>,
    rows: Rows,
    turns: Seq<Turn<SessionFlow>>,
    reply: Reply,
    after: Rows,
)
    requires
        call_ensures(delete_all, (&claims, user), start),
        runs(app, start, rows, turns, (reply, after)),
    ensures
        reply.status == OK ==> {
            &&& claims.sub@ == user@
            &&& reply == says(
                OK,
                "All sessions (including yours), were terminated, please sign in again!",
            )
            &&& after.sessions.dom().contains(id) == (rows.sessions.dom().contains(id) && !is_of(
                rows.sessions[id].userId,
                object_id_of(user@),
                user@,
            ))
            &&& after.sessions.dom().contains(id) ==> after.sessions[id] == rows.sessions[id]
            &&& after == (Rows { sessions: after.sessions, ..rows })
        },
        reply.status != OK ==> after == rows,
        unfailed(turns) && claims.sub@ == user@ && is_object_id(user@) ==> reply.status == OK,
{
    reveal_with_fuel(runs, 3);
}

} // verus!
