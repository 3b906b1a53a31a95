//! Signed-in devices.

use vstd::prelude::*;
#[allow(unused_imports)]
use vstd::string::*;

use crate::config::AppState;
use crate::flow::{Action, Event, Flow, Step};
use crate::http::{message, reply, Body, Headers, Reply, SessionEntry, BAD_REQUEST, INTERNAL_SERVER_ERROR, OK, UNAUTHORIZED};
#[allow(unused_imports)]
use crate::http::{says, Cookies};
use crate::middleware::auth::{request_session_token, require_owner};
#[allow(unused_imports)]
use crate::middleware::auth::{forbidden, session_token};
use crate::models::Session;
#[allow(unused_imports)]
use crate::object_id::{is_object_id, object_id_of};
use crate::text::same;
use crate::time::UtcTime;
use crate::utils::crypto::Claims;
#[allow(unused_imports)]
use crate::utils::crypto::text_view;
use crate::utils::{db_error, object_id_from_str};
#[allow(unused_imports)]
use crate::utils::db_failed;

pub mod kept;

verus! {

/// What the handling of sessions waits for.
pub enum SessionFlow {
    /// The sessions of a user; `current` is the token of the request.
    List { current: Option<String> },
    /// The deletion.
    Delete { done: &'static str },
}

/// The token of a request, whatever it came with.
pub open spec fn current_token(headers: Headers) -> Option<Seq<char>> {
    match session_token(headers) {
        Some((token, _)) => Some(token),
        None => None,
    }
}

/// Lists the sessions of a user. Rows store the user as an identifier or, in
/// older rows, as text, so both are asked for.
pub fn view(claims: &Claims, headers: &Headers, userId: String) -> (r: Step<SessionFlow, Reply>)
    ensures
        if claims.sub@ != userId@ {
            r == Step::<SessionFlow, Reply>::Done(forbidden())
        } else if !is_object_id(userId@) {
            r == Step::<SessionFlow, Reply>::Done(says(BAD_REQUEST, "Invalid userId"))
        } else {
            r matches Step::Ask(
                Action::SessionsOfEither(user, text),
                SessionFlow::List { current },
            ) && user == object_id_of(userId@) && text == userId && text_view(current)
                == current_token(*headers)
        },
{
    match require_owner(claims, userId.as_str()) {
        Err(e) => {
            return Step::Done(e);
        },
        Ok(_) => {},
    }
    match object_id_from_str(userId.as_str()) {
        None => Step::Done(message(BAD_REQUEST, "Invalid userId")),
        Some(user) => {
            let current = match request_session_token(headers) {
                Some((token, _)) => Some(token),
                None => None,
            };
            Step::Ask(Action::SessionsOfEither(user, userId), SessionFlow::List { current })
        },
    }
}

/// Ends one session of a user.
pub fn delete_one(claims: &Claims, userId: String, sessionId: &str) -> (r: Step<
    SessionFlow,
    Reply,
>)
    ensures
        r == if claims.sub@ != userId@ {
            Step::Done(forbidden())
        } else if userId@.len() == 0 || sessionId@.len() == 0 {
            Step::Done(says(UNAUTHORIZED, "Invalid request"))
        } else if !is_object_id(userId@) {
            Step::Done(says(BAD_REQUEST, "Invalid userId"))
        } else if !is_object_id(sessionId@) {
            Step::Done(says(BAD_REQUEST, "Invalid sessionId"))
        } else {
            Step::Ask(
                Action::DeleteSession {
                    id: object_id_of(sessionId@),
                    user: object_id_of(userId@),
                    user_text: userId,
                },
                SessionFlow::Delete { done: "Session was terminated successfully!" },
            )
        },
{
    match require_owner(claims, userId.as_str()) {
        Err(e) => {
            return Step::Done(e);
        },
        Ok(_) => {},
    }
    if userId.as_str().unicode_len() == 0 || sessionId.unicode_len() == 0 {
        return Step::Done(message(UNAUTHORIZED, "Invalid request"));
    }
    match object_id_from_str(userId.as_str()) {
        None => Step::Done(message(BAD_REQUEST, "Invalid userId")),
        Some(user) => match object_id_from_str(sessionId) {
            None => Step::Done(message(BAD_REQUEST, "Invalid sessionId")),
            Some(id) => Step::Ask(
                Action::DeleteSession { id, user, user_text: userId },
                SessionFlow::Delete { done: "Session was terminated successfully!" },
            ),
        },
    }
}

/// Ends all sessions of a user.
pub fn delete_all(claims: &Claims, userId: String) -> (r: Step<SessionFlow, Reply>)
    ensures
        r == if claims.sub@ != userId@ {
            Step::Done(forbidden())
        } else if userId@.len() == 0 {
            Step::Done(says(UNAUTHORIZED, "Invalid request"))
        } else if !is_object_id(userId@) {
            Step::Done(says(BAD_REQUEST, "Invalid userId"))
        } else {
            Step::Ask(
                Action::DeleteSessions { user: object_id_of(userId@), user_text: userId },
                SessionFlow::Delete {
                    done: "All sessions (including yours), were terminated, please sign in again!",
                },
            )
        },
{
    match require_owner(claims, userId.as_str()) {
        Err(e) => {
            return Step::Done(e);
        },
        Ok(_) => {},
    }
    if userId.as_str().unicode_len() == 0 {
        return Step::Done(message(UNAUTHORIZED, "Invalid request"));
    }
    match object_id_from_str(userId.as_str()) {
        None => Step::Done(message(BAD_REQUEST, "Invalid userId")),
        Some(user) => Step::Ask(
            Action::DeleteSessions { user, user_text: userId },
            SessionFlow::Delete {
                done: "All sessions (including yours), were terminated, please sign in again!",
            },
        ),
    }
}

/// `entry` is the session without its token, marked where the request uses it.
pub open spec fn is_entry(entry: SessionEntry, s: Session, current: Option<Seq<char>>) -> bool {
    entry == (SessionEntry {
        id: s.id,
        userId: s.userId,
        expAt: s.expAt,
        ip: s.ip,
        browserData: s.browserData,
        location: s.location,
        countryFlag: s.countryFlag,
        deviceData: s.deviceData,
        clientData: s.clientData,
        createdAt: s.createdAt,
        current: current == Some(s.token@),
    })
}

fn entries(sessions: Vec<Session>, current: &Option<String>) -> (r: Vec<SessionEntry>)
    ensures
        r@.len() == sessions@.len(),
        forall|i: int|
            0 <= i < r@.len() ==> is_entry(
                #[trigger] r@[i],
                sessions@[i],
                text_view(*current),
            ),
{
    let mut out: Vec<SessionEntry> = Vec::new();
    for s in it: sessions
        invariant
            it.seq() == sessions@,
            out@.len() == it.index(),
            forall|i: int|
                0 <= i < out@.len() ==> is_entry(
                    #[trigger] out@[i],
                    sessions@[i],
                    text_view(*current),
                ),
    {
        let is_current = match current {
            Some(token) => same(token.as_str(), s.token.as_str()),
            None => false,
        };
        out.push(
            SessionEntry {
                id: s.id,
                userId: s.userId,
                expAt: s.expAt,
                ip: s.ip,
                browserData: s.browserData,
                location: s.location,
                countryFlag: s.countryFlag,
                deviceData: s.deviceData,
                clientData: s.clientData,
                createdAt: s.createdAt,
                current: is_current,
            },
        );
    }
    out
}

impl SessionFlow {
    /// `r` is what follows an answer. The tokens are not in it: with them page
    /// scripts could read the session secrets.
    pub open spec fn next(self, event: Event, r: Step<SessionFlow, Reply>) -> bool {
        match self {
            SessionFlow::List { current } => match event {
                Event::Sessions(sessions) => if sessions@.len() == 0 {
                    r == Step::<SessionFlow, Reply>::Done(
                        says(INTERNAL_SERVER_ERROR, "Error, no sessions found"),
                    )
                } else {
                    r matches Step::Done(
                        Reply { status, cookies: Cookies::Nothing, body: Body::Sessions(list) },
                    ) && status == OK && list@.len() == sessions@.len() && forall|i: int|
                        0 <= i < list@.len() ==> is_entry(
                            #[trigger] list@[i],
                            sessions@[i],
                            text_view(current),
                        )
                },
                _ => r == Step::<SessionFlow, Reply>::Done(db_failed(INTERNAL_SERVER_ERROR)),
            },
            SessionFlow::Delete { done } => r == Step::<SessionFlow, Reply>::Done(
                if event is Done {
                    says(OK, done)
                } else {
                    db_failed(INTERNAL_SERVER_ERROR)
                },
            ),
        }
    }
}

impl Flow for SessionFlow {
    type Out = Reply;

    open spec fn ready(self) -> bool {
        true
    }

    fn resume(self, app: &AppState, event: Event, now: UtcTime) -> (r: Step<SessionFlow, Reply>)
        ensures
            self.next(event, r),
    {
        match self {
            SessionFlow::List { current } => match event {
                Event::Sessions(sessions) => {
                    if sessions.len() == 0 {
                        return Step::Done(
                            message(INTERNAL_SERVER_ERROR, "Error, no sessions found"),
                        );
                    }
                    let list = entries(sessions, &current);
                    Step::Done(reply(OK, Body::Sessions(list)))
                },
                _ => Step::Done(db_error(INTERNAL_SERVER_ERROR)),
            },
            SessionFlow::Delete { done } => match event {
                Event::Done => Step::Done(message(OK, done)),
                _ => Step::Done(db_error(INTERNAL_SERVER_ERROR)),
            },
        }
    }
}

} // verus!
