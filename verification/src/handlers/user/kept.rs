//! What becomes of the stored accounts and sessions when somebody signs up or
//! in.

use vstd::prelude::*;
#[allow(unused_imports)]
use vstd::string::*;

use crate::config::AppState;
#[allow(unused_imports)]
use crate::flow::{Action, Event, GoogleAnswer, Step};
#[allow(unused_imports)]
use crate::handlers::user::sign_in::{google_login, sign_in, sign_up};
use crate::handlers::user::sign_in::{GoogleLogin, SignIn, SignUp};
use crate::handlers::user::{GoogleLoginReq, LoginReq, SignUpReq};
#[allow(unused_imports)]
use crate::http::{says, Body, Cookie, Cookies, BAD_REQUEST, OK};
use crate::http::{Headers, Reply};
#[allow(unused_imports)]
use crate::models::{Session, Tfa, User, UserSettings};
use crate::object_id::ObjectId;
#[allow(unused_imports)]
use crate::object_id::hex_form;
#[allow(unused_imports)]
use crate::store::{found, runs, unfailed, Rows, Turn};
#[allow(unused_imports)]
use crate::text::{ascii_lowercase, byte_len, trimmed, uppercase};
use crate::time::UtcTime;
#[allow(unused_imports)]
use crate::utils::crypto::{bcrypt_matches, hash_failed, law_purpose_token_lasts, purpose_owner, token_claims, ClaimsView, JwtSubView, TokenError};
#[allow(unused_imports)]
use crate::utils::flag::flag_of;
use crate::utils::geo::IpGeoResponse;

verus! {

/// Accounts are stored under their identifiers, and no two have one email.
pub open spec fn are_accounts(rows: Rows) -> bool {
    &&& forall|id: ObjectId| #[trigger]
        rows.users.dom().contains(id) ==> rows.users[id].id == Some(id)
    &&& forall|i: ObjectId, j: ObjectId| #[trigger]
        rows.users.dom().contains(i) && #[trigger] rows.users.dom().contains(j)
            && rows.users[i].email@ == rows.users[j].email@ ==> i == j
}

/// No account has the email.
pub open spec fn is_free(rows: Rows, email: Seq<char>) -> bool {
    forall|id: ObjectId| #[trigger] rows.users.dom().contains(id) ==> rows.users[id].email@ != email
}

/// The settings of a new account: the dark theme, and texts expanded.
pub open spec fn are_first_settings(settings: Option<UserSettings>) -> bool {
    settings matches Some(s) && s.theme matches Some(t) && t@ == "dark"@ && s.noteTextExpanded
        == Some(true) && s.showPinnedNotesInFolder is None && s.globalNoteBackgroundColor is None
        && s.onLoginGoToLastOpenedNote is None && s.noteVisualization is None && s.language is None
}

/// An account that was created has the name and the email of the request and a
/// hash that its password matches; nothing else is changed. For a free email, a
/// name, and a password of 6 to 128 bytes it is created unless the database
/// failed or hashing that password did; for no other request it is.
pub proof fn law_account_is_created(
    payload: SignUpReq,
    app: AppState,
    start: Step<SignUp, Reply>,
    rows: Rows,
    turns: Seq<Turn<SignUp>>,
    reply: Reply,
    after: Rows,
)
    requires
        call_ensures(sign_up, (payload,), start),
        runs(app, start, rows, turns, (reply, after)),
    ensures
        reply.status == OK ==> {
            &&& reply == says(OK, "User created successfully!")
            &&& exists|id: ObjectId|
                #![trigger after.users[id]]
                {
                    let user = after.users[id];
                    &&& !rows.users.dom().contains(id)
                    &&& after == (Rows { users: rows.users.insert(id, user), ..rows })
                    &&& user.id == Some(id)
                    &&& user.email == payload.email
                    &&& user.name == payload.name
                    &&& user.password matches Some(hash) && bcrypt_matches(
                        payload.password@,
                        hash@,
                    ) == Some(true)
                    &&& user.googleAccount == Some(false)
                    &&& user.googleId is None
                    &&& user.verified is None
                    &&& user.tfa_status is None
                    &&& user.lastOpenedNote is None
                    &&& are_first_settings(user.settings)
                }
        },
        reply.status != OK ==> after == rows,
        ({
            let wanted = 6 <= byte_len(payload.password@) <= 128 && trimmed(payload.name@).len() > 0
                && trimmed(payload.email@).len() > 0;
            &&& unfailed(turns) && wanted && is_free(rows, payload.email@) ==> reply.status == OK
                || hash_failed(payload.password@)
            &&& reply.status == OK ==> wanted && is_free(rows, payload.email@)
            &&& wanted && !is_free(rows, payload.email@) && unfailed(turns) ==> reply == says(
                BAD_REQUEST,
                "User already exists, please sign in!",
            )
        }),
{
    reveal_with_fuel(runs, 4);
    if reply.status == OK {
        let made = turns[0].step->Ask_0->InsertUser_0;
        let id = choose|id: ObjectId|
            !(#[trigger] rows.users.dom().contains(id)) && after.users == rows.users.insert(
                id,
                User { id: Some(id), ..made },
            );
        assert(after.users[id] == (User { id: Some(id), ..made }));
    }
}

/// The part of an answer, or the text that stands for it.
pub open spec fn part_or(part: Option<String>, other: Seq<char>) -> Seq<char> {
    match part {
        Some(s) => s@,
        None => other,
    }
}

/// The place that a session records: city, region and country, each unknown
/// where the answer does not say it.
pub open spec fn is_place(text: Seq<char>, answer: Option<IpGeoResponse>) -> bool {
    text == (match answer {
        Some(r) => part_or(r.city, "Unknown"@) + ", "@ + part_or(r.state_prov, "Unknown"@) + ", "@
            + part_or(r.country_name, "Unknown"@),
        None => "Unknown"@ + ", "@ + "Unknown"@ + ", "@ + "Unknown"@,
    })
}

/// One session was added, of the user, for a week from `now` on, with what is
/// known of the client; its token speaks for the user, and is in the cookie of
/// the reply.
pub open spec fn opens_session(
    rows: Rows,
    after: Rows,
    reply: Reply,
    user: ObjectId,
    name: Seq<char>,
    google: bool,
    ua: Seq<char>,
    identifier: Seq<char>,
    answer: Option<IpGeoResponse>,
    secret: Seq<char>,
    now: UtcTime,
) -> bool {
    exists|id: ObjectId|
        #![trigger after.sessions[id]]
        {
            let s = after.sessions[id];
            &&& !rows.sessions.dom().contains(id)
            &&& after.sessions == rows.sessions.insert(id, s)
            &&& s.id == Some(id)
            &&& s.userId == user
            &&& s.expAt == now.secs + 7 * 24 * 3600
            &&& s.createdAt == Some(now)
            &&& s.ip@ == (if identifier.len() == 0 {
                "Unknown"@
            } else {
                identifier
            })
            &&& s.browserData@ == ua
            &&& s.clientData@ == ua
            &&& is_place(s.location@, answer)
            &&& s.countryFlag@ == flag_of(
                uppercase(
                    match answer {
                        Some(r) => part_or(r.country_code2, "US"@),
                        None => "US"@,
                    },
                ),
            )
            &&& token_claims(s.token@, secret) == Ok::<ClaimsView, TokenError>(
                ClaimsView {
                    iss: "login-form"@,
                    sub: hex_form(user@),
                    user: Some(
                        JwtSubView { _id: hex_form(user@), name, googleAccount: google },
                    ),
                    exp: (now.secs + 7 * 24 * 3600) as u64,
                },
            )
            &&& session_cookie_of(reply.cookies) == Some((s.token@, 604800int))
        }
}

/// The token of the session that cookies give, and for how many seconds.
pub open spec fn session_cookie_of(cookies: Cookies) -> Option<(Seq<char>, int)> {
    match cookies {
        Cookies::One(Cookie::Session { token, max_age_secs }) => Some((token@, max_age_secs as int)),
        Cookies::Two(Cookie::Session { token, max_age_secs }, Cookie::ClearTfa) => Some(
            (token@, max_age_secs as int),
        ),
        _ => None,
    }
}

/// What a browser calls itself, unknown where it does not.
pub open spec fn browser_of(headers: Headers) -> Seq<char> {
    match headers.user_agent {
        Some(t) => if t@.len() == 0 {
            "Unknown"@
        } else {
            t@
        },
        None => "Unknown"@,
    }
}

/// The second factor of an account is in use.
pub open spec fn uses_second_factor(rows: Rows, user: User) -> bool {
    user.tfa_status matches Some(t) && rows.tfas.dom().contains(t) && rows.tfas[t].verified
}

/// The reply has the cookie that shows that the second factor of a user is
/// pending, for 600 seconds and no longer.
pub open spec fn shows_pending(reply: Reply, user: ObjectId, secret: Seq<char>, now: UtcTime) -> bool {
    reply.cookies matches Cookies::One(Cookie::Tfa { token }) && forall|t: UtcTime| #[trigger]
        purpose_owner(token@, secret, "tfa"@, t) == if t.secs <= now.secs + 600 {
            Some(hex_form(user@))
        } else {
            None
        }
}

pub proof fn lemma_pending(reply: Reply, body: Body, user: ObjectId, secret: Seq<char>, now: UtcTime)
    requires
        now.is_clock(),
        crate::handlers::user::sign_in::is_pending_reply(reply, body, user, secret, now),
    ensures
        shows_pending(reply, user, secret, now),
{
    let token = reply.cookies->One_0->Tfa_token@;
    assert forall|t: UtcTime| #[trigger] purpose_owner(token, secret, "tfa"@, t) == if t.secs
        <= now.secs + 600 {
        Some(hex_form(user@))
    } else {
        None
    } by {
        law_purpose_token_lasts(
            token,
            secret,
            hex_form(user@),
            "tfa"@,
            (now.secs + crate::utils::crypto::TFA_TOKEN_SECS) as u64,
            t,
        );
    }
}

pub proof fn lemma_opened(
    made: Session,
    rows: Rows,
    after: Rows,
    reply: Reply,
    user: ObjectId,
    name: Seq<char>,
    google: bool,
    ua: String,
    identifier: String,
    answer: Option<IpGeoResponse>,
    secret: Seq<char>,
    now: UtcTime,
    body: Body,
    clears_tfa: bool,
)
    requires
        crate::handlers::user::is_new_session(
            made,
            user,
            JwtSubView { _id: hex_form(user@), name, googleAccount: google },
            (crate::handlers::user::SessionMeta { ua, identifier }),
            crate::utils::geo::place_of(answer),
            secret,
            now,
        ),
        crate::handlers::user::is_session_reply(reply, made.token@, body, clears_tfa),
        crate::store::acts_on_sessions(rows, Action::InsertSession(made), Event::Done, after),
    ensures
        opens_session(
            rows,
            after,
            reply,
            user,
            name,
            google,
            ua@,
            identifier@,
            answer,
            secret,
            now,
        ),
{
    let sub = JwtSubView { _id: hex_form(user@), name, googleAccount: google };
    crate::handlers::user::law_session_token_reads_back(made.token@, sub, secret, now);
    let id = choose|id: ObjectId|
        !(#[trigger] rows.sessions.dom().contains(id)) && after.sessions == rows.sessions.insert(
            id,
            Session { id: Some(id), ..made },
        );
    assert(after.sessions[id] == (Session { id: Some(id), ..made }));
}

/// A user with a password who presents it, and whom the budget lets try, is
/// signed in: a session of theirs is stored, its token is in the cookie, and
/// they are told their name and settings. While the second factor is in use no
/// session is stored; the cookie then shows that it is pending. Nobody else is
/// signed in, and nothing else is changed.
pub proof fn law_password_signs_in(
    headers: Headers,
    payload: LoginReq,
    app: AppState,
    start: Step<SignIn, Reply>,
    rows: Rows,
    turns: Seq<Turn<SignIn>>,
    id: ObjectId,
    reply: Reply,
    after: Rows,
)
    requires
        call_ensures(sign_in, (&headers, payload), start),
        runs(app, start, rows, turns, (reply, after)),
        unfailed(turns),
        forall|i: int| 0 <= i < turns.len() ==> (#[trigger] turns[i]).now.is_clock(),
        are_accounts(rows),
        rows.users.dom().contains(id),
        rows.users[id].email@ == payload.email@,
    ensures
        ({
            let user = rows.users[id];
            let right = user.googleAccount != Some(true) && (match user.password {
                Some(hash) => bcrypt_matches(payload.password@, hash@),
                None => bcrypt_matches(payload.password@, Seq::empty()),
            }) == Some(true);
            let minted = turns[turns.len() - 2].now;
            let answer = if app.ipgeo_key@.len() > 0 && turns[2].event is Geo {
                turns[2].event->Geo_0
            } else {
                None
            };
            &&& (reply.status == OK) == (turns[0].event is Allowed && right)
            &&& reply.status != OK ==> after == rows
            &&& reply.status == OK && !uses_second_factor(rows, user) ==> {
                &&& opens_session(
                    rows,
                    after,
                    reply,
                    id,
                    user.name@,
                    false,
                    browser_of(headers),
                    payload.identifier@,
                    answer,
                    app.jwt_secret@,
                    minted,
                )
                &&& after == (Rows { sessions: after.sessions, ..rows })
                &&& reply.cookies is One
                &&& reply.body == (Body::SignedIn {
                    id,
                    name: user.name,
                    tfa_enabled: false,
                    settings: user.settings,
                    last_opened: user.lastOpenedNote,
                })
            }
            &&& reply.status == OK && uses_second_factor(rows, user) ==> {
                &&& after == rows
                &&& shows_pending(reply, id, app.jwt_secret@, turns[turns.len() - 1].now)
                &&& reply.body == (Body::SignedIn {
                    id,
                    name: user.name,
                    tfa_enabled: true,
                    settings: user.settings,
                    last_opened: user.lastOpenedNote,
                })
            }
        }),
{
    reveal_with_fuel(runs, 7);
    let user = rows.users[id];
    let ua = start->Ask_1->Limit_ua;
    assert(turns.len() > 1 ==> turns.skip(1)[0] == turns[1]);
    assert(turns.len() > 2 ==> turns.skip(1).skip(1)[0] == turns[2]);
    assert(turns.len() > 3 ==> turns.skip(1).skip(1).skip(1)[0] == turns[3]);
    assert(turns.len() > 4 ==> turns.skip(1).skip(1).skip(1).skip(1)[0] == turns[4]);
    assert(turns.len() > 5 ==> turns.skip(1).skip(1).skip(1).skip(1).skip(1)[0] == turns[5]);
    if turns[0].event is Allowed {
        assert(turns[1].event == Event::User(Some(user)));
        let answer = if app.ipgeo_key@.len() > 0 && turns[2].event is Geo {
            turns[2].event->Geo_0
        } else {
            None
        };
        let n = turns.len() as int;
        if reply.status == OK {
            if uses_second_factor(rows, user) {
                lemma_pending(reply, reply.body, id, app.jwt_secret@, turns[n - 1].now);
            } else {
                let made = turns[n - 2].step->Ask_0->InsertSession_0;
                lemma_opened(
                    made,
                    rows,
                    after,
                    reply,
                    id,
                    user.name@,
                    false,
                    ua,
                    payload.identifier,
                    answer,
                    app.jwt_secret@,
                    turns[n - 2].now,
                    reply.body,
                    false,
                );
            }
        }
    }
}

/// Google confirms the identity that a request claims: the same email, whatever
/// the case of its letters, and the same account.
pub open spec fn confirms(event: Event, email: Seq<char>, id: Seq<char>) -> bool {
    event matches Event::Google(GoogleAnswer::User { email: Some(e), id: Some(i) })
        && ascii_lowercase(e@) == ascii_lowercase(email) && i@ == id
}

/// A user with a Google account whom Google confirms, and whom the budget lets
/// try, is signed in: a session of theirs is stored and its token is in the
/// cookie, or the cookie shows that the second factor is pending, where it is in
/// use. An account that is not a Google account is told to use its password; no
/// other is. Nothing else is changed.
pub proof fn law_google_account_signs_in(
    headers: Headers,
    payload: GoogleLoginReq,
    app: AppState,
    start: Step<GoogleLogin, Reply>,
    rows: Rows,
    turns: Seq<Turn<GoogleLogin>>,
    id: ObjectId,
    reply: Reply,
    after: Rows,
)
    requires
        call_ensures(google_login, (&headers, payload), start),
        runs(app, start, rows, turns, (reply, after)),
        unfailed(turns),
        forall|i: int| 0 <= i < turns.len() ==> (#[trigger] turns[i]).now.is_clock(),
        are_accounts(rows),
        rows.users.dom().contains(id),
        rows.users[id].email@ == payload.email@,
    ensures
        ({
            let user = rows.users[id];
            let confirmed = turns[0].event is Allowed && confirms(
                turns[1].event,
                payload.email@,
                payload.id@,
            );
            let google = user.googleAccount == Some(true);
            let minted = turns[turns.len() - 2].now;
            let answer = if app.ipgeo_key@.len() > 0 && turns[3].event is Geo {
                turns[3].event->Geo_0
            } else {
                None
            };
            &&& (reply.status == OK) == (confirmed && google)
            &&& reply.status != OK ==> after == rows
            &&& (reply == says(
                BAD_REQUEST,
                "User already exists, please sign in using your email and password!",
            )) == (confirmed && !google)
            &&& reply.status == OK && !uses_second_factor(rows, user) ==> {
                &&& opens_session(
                    rows,
                    after,
                    reply,
                    id,
                    user.name@,
                    true,
                    browser_of(headers),
                    payload.identifier@,
                    answer,
                    app.jwt_secret@,
                    minted,
                )
                &&& after == (Rows { sessions: after.sessions, ..rows })
                &&& reply.cookies is One
                &&& reply.body == (Body::GoogleSignedIn {
                    id,
                    name: user.name,
                    tfa_enabled: false,
                    settings: user.settings,
                })
            }
            &&& reply.status == OK && uses_second_factor(rows, user) ==> {
                &&& after == rows
                &&& shows_pending(reply, id, app.jwt_secret@, turns[turns.len() - 1].now)
                &&& reply.body == (Body::GoogleSignedIn {
                    id,
                    name: user.name,
                    tfa_enabled: true,
                    settings: user.settings,
                })
            }
        }),
{
    reveal_with_fuel(runs, 8);
    let user = rows.users[id];
    let ua = start->Ask_1->Limit_ua;
    assert(turns.len() > 1 ==> turns.skip(1)[0] == turns[1]);
    assert(turns.len() > 2 ==> turns.skip(1).skip(1)[0] == turns[2]);
    assert(turns.len() > 3 ==> turns.skip(1).skip(1).skip(1)[0] == turns[3]);
    assert(turns.len() > 4 ==> turns.skip(1).skip(1).skip(1).skip(1)[0] == turns[4]);
    assert(turns.len() > 5 ==> turns.skip(1).skip(1).skip(1).skip(1).skip(1)[0] == turns[5]);
    assert(turns.len() > 6 ==> turns.skip(1).skip(1).skip(1).skip(1).skip(1).skip(1)[0]
        == turns[6]);
    let n = turns.len() as int;
    if turns[0].event is Allowed && confirms(turns[1].event, payload.email@, payload.id@) {
        assert(turns[2].event == Event::User(Some(user)));
        let answer = if app.ipgeo_key@.len() > 0 && turns[3].event is Geo {
            turns[3].event->Geo_0
        } else {
            None
        };
        if reply.status == OK {
            if uses_second_factor(rows, user) {
                lemma_pending(reply, reply.body, id, app.jwt_secret@, turns[n - 1].now);
            } else {
                let made = turns[n - 2].step->Ask_0->InsertSession_0;
                lemma_opened(
                    made,
                    rows,
                    after,
                    reply,
                    id,
                    user.name@,
                    true,
                    ua,
                    payload.identifier,
                    answer,
                    app.jwt_secret@,
                    turns[n - 2].now,
                    reply.body,
                    false,
                );
            }
        }
    }
}

/// Who has no account yet and whom Google confirms gets one, with the name, the
/// email and the Google account of the request and no password, and is signed
/// in. Nothing else is changed.
pub proof fn law_google_account_is_created(
    headers: Headers,
    payload: GoogleLoginReq,
    app: AppState,
    start: Step<GoogleLogin, Reply>,
    rows: Rows,
    turns: Seq<Turn<GoogleLogin>>,
    reply: Reply,
    after: Rows,
)
    requires
        call_ensures(google_login, (&headers, payload), start),
        runs(app, start, rows, turns, (reply, after)),
        unfailed(turns),
        forall|i: int| 0 <= i < turns.len() ==> (#[trigger] turns[i]).now.is_clock(),
        is_free(rows, payload.email@),
    ensures
        ({
            let confirmed = turns[0].event is Allowed && confirms(
                turns[1].event,
                payload.email@,
                payload.id@,
            );
            let minted = turns[turns.len() - 2].now;
            let answer = if app.ipgeo_key@.len() > 0 && turns[3].event is Geo {
                turns[3].event->Geo_0
            } else {
                None
            };
            &&& (reply.status == OK) == confirmed
            &&& reply.status != OK ==> after == rows
            &&& reply.status == OK ==> {
                &&& reply.body matches Body::GoogleSignedIn { id, name, tfa_enabled, settings }
                &&& !tfa_enabled
                &&& name == payload.name
                &&& are_first_settings(settings)
                &&& !rows.users.dom().contains(id)
                &&& after.users == rows.users.insert(
                    id,
                    User {
                        id: Some(id),
                        email: payload.email,
                        name: payload.name,
                        password: None,
                        verified: None,
                        googleId: Some(payload.id),
                        tfa_status: None,
                        googleAccount: Some(true),
                        lastOpenedNote: None,
                        settings,
                    },
                )
                &&& opens_session(
                    rows,
                    after,
                    reply,
                    id,
                    payload.name@,
                    true,
                    browser_of(headers),
                    payload.identifier@,
                    answer,
                    app.jwt_secret@,
                    minted,
                )
                &&& after == (Rows { users: after.users, sessions: after.sessions, ..rows })
            }
        }),
{
    reveal_with_fuel(runs, 8);
    let ua = start->Ask_1->Limit_ua;
    assert(turns.len() > 1 ==> turns.skip(1)[0] == turns[1]);
    assert(turns.len() > 2 ==> turns.skip(1).skip(1)[0] == turns[2]);
    assert(turns.len() > 3 ==> turns.skip(1).skip(1).skip(1)[0] == turns[3]);
    assert(turns.len() > 4 ==> turns.skip(1).skip(1).skip(1).skip(1)[0] == turns[4]);
    assert(turns.len() > 5 ==> turns.skip(1).skip(1).skip(1).skip(1).skip(1)[0] == turns[5]);
    assert(turns.len() > 6 ==> turns.skip(1).skip(1).skip(1).skip(1).skip(1).skip(1)[0]
        == turns[6]);
    let n = turns.len() as int;
    if turns[0].event is Allowed && confirms(turns[1].event, payload.email@, payload.id@) {
        assert(turns[2].event == Event::User(None));
        let answer = if app.ipgeo_key@.len() > 0 && turns[3].event is Geo {
            turns[3].event->Geo_0
        } else {
            None
        };
        let k: int = if app.ipgeo_key@.len() > 0 {
            3
        } else {
            2
        };
        let made = turns[k].step->Ask_0->InsertUser_0;
        let between = turns[k + 1].rows;
        let id = choose|id: ObjectId|
            !(#[trigger] rows.users.dom().contains(id)) && between.users == rows.users.insert(
                id,
                User { id: Some(id), ..made },
            );
        let row = User { id: Some(id), ..made };
        assert(between.users[id] == row);
        assert(between.users.dom().contains(id));
        assert(turns[k + 2].event is User);
        let found = turns[k + 2].event->User_0;
        assert(found is Some) by {
            if found is None {
                assert(between.users[id].email@ == payload.email@);
            }
        }
        let other = choose|i: ObjectId| #[trigger]
            between.users.dom().contains(i) && between.users[i] == found->0;
        assert(other == id) by {
            if other != id {
                assert(rows.users.dom().contains(other));
            }
        }
        assert(found == Some(row));
        let session = turns[k + 2].step->Ask_0->InsertSession_0;
        lemma_opened(
            session,
            between,
            after,
            reply,
            id,
            payload.name@,
            true,
            ua,
            payload.identifier,
            answer,
            app.jwt_secret@,
            turns[k + 2].now,
            reply.body,
            false,
        );
        assert(n == k + 4);
        assert(between.sessions == rows.sessions);
    }
}

} // verus!
