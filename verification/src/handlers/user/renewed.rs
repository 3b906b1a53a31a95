//! A token that came in a body moves into a cookie.

use vstd::prelude::*;

use crate::config::AppState;
#[allow(unused_imports)]
use crate::flow::Step;
#[allow(unused_imports)]
use crate::handlers::user::account::verify_token;
use crate::handlers::user::account::VerifyToken;
#[allow(unused_imports)]
use crate::handlers::user::kept::session_cookie_of;
use crate::handlers::user::VerifyTokenReq;
#[allow(unused_imports)]
use crate::http::OK;
use crate::http::{Headers, Reply};
#[allow(unused_imports)]
use crate::middleware::auth::{session_token, session_with};
#[allow(unused_imports)]
use crate::models::Session;
#[allow(unused_imports)]
use crate::object_id::{is_object_id, object_id_of};
use crate::object_id::ObjectId;
#[allow(unused_imports)]
use crate::store::{runs, unfailed};
use crate::store::{Rows, Turn};
#[allow(unused_imports)]
use crate::text::trimmed;
use crate::time::UtcTime;
use crate::utils::crypto::ClaimsView;
#[allow(unused_imports)]
use crate::utils::crypto::{token_claims, TokenError};

verus! {

/// A token that came in a body, of a live session, is replaced: the session goes
/// on under another token, which goes into a cookie that lasts as long as the
/// session and speaks for the same user. The old token names no session any
/// more, and every other session stays as it was.
pub proof fn law_body_token_is_renewed(
    headers: Headers,
    body: VerifyTokenReq,
    app: AppState,
    began: UtcTime,
    start: Step<VerifyToken, Reply>,
    rows: Rows,
    turns: Seq<Turn<VerifyToken>>,
    id: ObjectId,
    claims: ClaimsView,
    reply: Reply,
    after: Rows,
)
    requires
        call_ensures(verify_token, (&headers, Some(body), &app, began), start),
        runs(app, start, rows, turns, (reply, after)),
        unfailed(turns),
        session_token(headers) is None,
        body.token@.len() > 0,
        trimmed(body.token@) == body.token@,
        token_claims(body.token@, app.jwt_secret@) == Ok::<ClaimsView, TokenError>(claims),
        claims.user is Some,
        claims.exp >= began.secs,
        is_object_id(claims.sub),
        rows.users.dom().contains(object_id_of(claims.sub)),
        rows.sessions.dom().contains(id),
        rows.sessions[id].userId == object_id_of(claims.sub),
        rows.sessions[id].token@ == body.token@,
        0 <= turns[1].now.secs <= rows.sessions[id].expAt < i64::MAX,
        forall|i: ObjectId| #[trigger]
            rows.sessions.dom().contains(i) && rows.sessions[i].token@ == body.token@ ==> i == id,
    ensures
        reply.status == OK,
        reply.body is TokenVerified,
        after == (Rows { sessions: after.sessions, ..rows }),
        after.sessions.dom() =~= rows.sessions.dom(),
        forall|i: ObjectId| #[trigger]
            rows.sessions.dom().contains(i) && i != id ==> after.sessions[i] == rows.sessions[i],
        after.sessions[id] == (Session { token: after.sessions[id].token, ..rows.sessions[id] }),
        after.sessions[id].token@ != body.token@,
        session_cookie_of(reply.cookies) == Some(
            (
                after.sessions[id].token@,
                rows.sessions[id].expAt - turns[1].now.secs,
            ),
        ),
        token_claims(after.sessions[id].token@, app.jwt_secret@) matches Ok(c) && c.sub
            == claims.sub && c.exp >= rows.sessions[id].expAt && c.exp <= rows.sessions[id].expAt
            + 1 && (c.user matches Some(u) && u._id == claims.sub && u.name == claims.user->0.name
            && u.googleAccount == claims.user->0.googleAccount),
{
    reveal_with_fuel(runs, 5);
    let token = body.token@;
    let uid = object_id_of(claims.sub);
    assert(turns.len() > 1 ==> turns.skip(1)[0] == turns[1]);
    assert(turns.len() > 2 ==> turns.skip(1).skip(1)[0] == turns[2]);
    let sessions = turns[1].event->Sessions_0;
    assert(turns[1].event is Sessions);
    assert(sessions@.contains(rows.sessions[id]));
    let k = choose|k: int| 0 <= k < sessions@.len() && sessions@[k] == rows.sessions[id];
    lemma_found(sessions@, token, k);
    let s = session_with(sessions@, token)->0;
    let i = choose|i: int| 0 <= i < sessions@.len() && sessions@[i] == s;
    let j = choose|j: ObjectId| #[trigger]
        rows.sessions.dom().contains(j) && rows.sessions[j] == sessions@[i];
    assert(rows.sessions.dom().contains(j));
    assert(s == rows.sessions[id]);
    let sub = crate::handlers::user::account::renewed_subject(claims);
    let exp = crate::handlers::user::account::renewed_expiry(s.expAt, claims.exp);
    crate::utils::crypto::lemma_session_claims(sub, exp);
}

proof fn lemma_found(sessions: Seq<Session>, token: Seq<char>, k: int)
    requires
        0 <= k < sessions.len(),
        sessions[k].token@ == token,
    ensures
        session_with(sessions, token) matches Some(s) && s.token@ == token && sessions.contains(s),
    decreases sessions.len(),
{
    if sessions[0].token@ == token {
        assert(sessions.contains(sessions[0]));
    } else {
        let rest = sessions.skip(1);
        assert(rest[k - 1] == sessions[k]);
        lemma_found(rest, token, k - 1);
        let s = session_with(rest, token)->0;
        let i = choose|i: int| 0 <= i < rest.len() && rest[i] == s;
        assert(sessions[i + 1] == s);
    }
}

} // verus!
