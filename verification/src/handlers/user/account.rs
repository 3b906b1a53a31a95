//! The session of an account, and the account itself.

use vstd::prelude::*;
#[allow(unused_imports)]
use vstd::string::*;

use crate::config::AppState;
use crate::flow::{Action, Event, Flow, Step, UserChange};
use crate::handlers::user::{has_google, validate_password, ConvertNormalReq, VerifyTokenReq, VerifyUserReq};
#[allow(unused_imports)]
use crate::handlers::user::{is_google, is_password};
use crate::http::{message, reply, Body, Cookie, Cookies, Headers, Reply, BAD_REQUEST, OK, UNAUTHORIZED};
#[allow(unused_imports)]
use crate::http::{plain, says};
use crate::json::Json;
#[allow(unused_imports)]
use crate::json::member_or_empty;
use crate::middleware::auth::{find_session, request_session_token, require_owner, require_sub};
#[allow(unused_imports)]
use crate::middleware::auth::{denied, expired, forbidden, lemma_session_with, session_token, session_with};
use crate::models::{Session, User, UserSettings};
#[allow(unused_imports)]
use crate::models::no_settings;
use crate::object_id::ObjectId;
#[allow(unused_imports)]
use crate::object_id::{is_object_id, object_id_of};
use crate::text::{owned, same, trim};
#[allow(unused_imports)]
use crate::text::trimmed;
use crate::time::UtcTime;
use crate::utils::crypto::{create_token_until, decode_token, hash_password, verify_password, Claims, JwtSub};
#[allow(unused_imports)]
use crate::utils::crypto::{bcrypt_matches, hash_failed, is_token_text, jwt_claims, jwt_text, lemma_session_claims, session_claims, session_json, token_claims, ClaimsView, JwtSubView, TokenError};
use crate::utils::{db_error, internal_err, object_id_from_str};
#[allow(unused_imports)]
use crate::utils::{db_failed, internal_failed};

verus! {

// ---------- whether a session is still good ----------

/// What the check of a token waits for.
pub enum VerifyToken {
    /// The account.
    User { token: String, migrate: bool, claims: Claims, uid: ObjectId },
    /// The sessions of the account.
    Sessions { token: String, migrate: bool, claims: Claims, user: User, uid: ObjectId },
    /// The new token of a session whose old one came in the body.
    Replace { reply: Reply },
}

/// The token of a request, and whether it is to be moved into a cookie: that of
/// the headers first, then that of the body.
pub open spec fn presented(headers: Headers, body: Option<VerifyTokenReq>) -> Option<
    (Seq<char>, bool),
> {
    match session_token(headers) {
        Some((token, _)) => Some((token, false)),
        None => match body {
            Some(b) => if trimmed(b.token@).len() > 0 {
                Some((trimmed(b.token@), true))
            } else {
                None
            },
            None => None,
        },
    }
}

fn present(headers: &Headers, body: Option<VerifyTokenReq>) -> (r: Option<(String, bool)>)
    ensures
        match r {
            Some(t) => presented(*headers, body) == Some((t.0@, t.1)),
            None => presented(*headers, body) is None,
        },
{
    match request_session_token(headers) {
        Some((token, _)) => Some((token, false)),
        None => match body {
            Some(b) => {
                let token = trim(b.token.as_str());
                if token.unicode_len() > 0 {
                    Some((owned(token), true))
                } else {
                    None
                }
            },
            None => None,
        },
    }
}

/// Says whether the token of a request still has a session, and whose it is.
pub fn verify_token(
    headers: &Headers,
    body: Option<VerifyTokenReq>,
    app: &AppState,
    now: UtcTime,
) -> (r: Step<VerifyToken, Reply>)
    requires
        now.is_clock(),
    ensures
        match presented(*headers, body) {
            None => r == Step::<VerifyToken, Reply>::Done(denied()),
            Some((token, migrate)) => match token_claims(token, app.jwt_secret@) {
                Err(_) => r == Step::<VerifyToken, Reply>::Done(denied()),
                Ok(c) => if c.exp < now.secs {
                    r == Step::<VerifyToken, Reply>::Done(expired())
                } else if !is_object_id(c.sub) {
                    r == Step::<VerifyToken, Reply>::Done(says(BAD_REQUEST, "Invalid id"))
                } else {
                    r matches Step::Ask(
                        Action::UserById(id),
                        VerifyToken::User { token: t, migrate: m, claims, uid },
                    ) && id == object_id_of(c.sub) && uid == id && t@ == token && m == migrate
                        && claims@ == c
                },
            },
        },
{
    let (token, migrate) = match present(headers, body) {
        Some(t) => t,
        None => {
            return Step::Done(message(UNAUTHORIZED, "Access denied, sign in again"));
        },
    };
    let claims = match decode_token(token.as_str(), app.jwt_secret.as_str()) {
        Ok(c) => c,
        Err(_) => {
            return Step::Done(message(UNAUTHORIZED, "Access denied, sign in again"));
        },
    };
    if claims.exp < now.secs as u64 {
        return Step::Done(message(UNAUTHORIZED, "Session expired, please sign in again"));
    }
    match object_id_from_str(claims.sub.as_str()) {
        None => Step::Done(message(BAD_REQUEST, "Invalid id")),
        Some(uid) => Step::Ask(
            Action::UserById(uid),
            VerifyToken::User { token, migrate, claims, uid },
        ),
    }
}

/// What a user whose session is good is told: by the token, with the name of
/// the account where the token has none.
pub open spec fn is_token_body(body: Body, claims: ClaimsView, user: User) -> bool {
    body matches Body::TokenVerified { sub, name, google_account, tfa_enabled, user_settings }
        && sub@ == claims.subject()._id && name@ == (if claims.subject().name.len() > 0 {
        claims.subject().name
    } else {
        user.name@
    }) && google_account == claims.subject().googleAccount && tfa_enabled == (user.tfa_status
        is Some) && user_settings == (match user.settings {
        Some(s) => s,
        None => no_settings(),
    })
}

fn token_body(claims: &Claims, user: User) -> (r: Body)
    ensures
        is_token_body(r, claims@, user),
{
    let sub = claims.jwt_sub();
    let named = sub.name.as_str().unicode_len() > 0;
    Body::TokenVerified {
        sub: sub._id,
        name: if named {
            sub.name
        } else {
            user.name
        },
        google_account: sub.googleAccount,
        tfa_enabled: user.tfa_status.is_some(),
        user_settings: match user.settings {
            Some(s) => s,
            None => UserSettings::default(),
        },
    }
}

/// The subject that a token is renewed for: the one that it speaks of.
pub open spec fn renewed_subject(claims: ClaimsView) -> JwtSubView {
    JwtSubView {
        _id: claims.sub,
        name: claims.subject().name,
        googleAccount: claims.subject().googleAccount,
    }
}

/// When a renewed token expires: with the session, or a second later where the
/// old token does that, so that the two are never the same.
pub open spec fn renewed_expiry(exp_at: i64, old: u64) -> u64 {
    if exp_at == old {
        (exp_at + 1) as u64
    } else {
        exp_at as u64
    }
}

/// `token` is the token that takes the place of one with these claims.
pub open spec fn is_renewed_token(
    token: Seq<char>,
    claims: ClaimsView,
    session: Session,
    secret: Seq<char>,
) -> bool {
    let json = session_json(renewed_subject(claims), renewed_expiry(session.expAt, claims.exp));
    &&& token == jwt_text(json, secret)
    &&& jwt_claims(token, secret) == Some(json)
    &&& is_token_text(token)
}

/// `r` gives the session of a token that came in the body another token. The
/// new one goes into a cookie, for as long as the session lasts; the old one is
/// not accepted again.
pub open spec fn is_renewal(
    r: Step<VerifyToken, Reply>,
    token: Seq<char>,
    claims: ClaimsView,
    user: User,
    uid: ObjectId,
    session: Session,
    secret: Seq<char>,
    now: UtcTime,
) -> bool {
    &&& r matches Step::Ask(
        Action::ReplaceSessionToken { user: i, old, new },
        VerifyToken::Replace { reply },
    )
    &&& i == uid
    &&& old@ == token
    &&& is_renewed_token(new@, claims, session, secret)
    &&& reply.status == OK
    &&& is_token_body(reply.body, claims, user)
    &&& reply.cookies matches Cookies::One(Cookie::Session { token: t, max_age_secs })
    &&& t@ == new@
    &&& max_age_secs == session.expAt - now.secs
}

fn renew(
    token: String,
    claims: &Claims,
    user: User,
    uid: ObjectId,
    session: &Session,
    secret: &str,
    now: UtcTime,
) -> (r: Step<VerifyToken, Reply>)
    requires
        0 <= now.secs <= session.expAt,
    ensures
        is_renewal(r, token@, claims@, user, uid, *session, secret@, now),
{
    let old = claims.jwt_sub();
    let sub = JwtSub {
        _id: claims.sub.clone(),
        name: old.name,
        googleAccount: old.googleAccount,
    };
    assert(sub@ == renewed_subject(claims@));
    let exp: u64 = if session.expAt as u64 == claims.exp {
        session.expAt as u64 + 1
    } else {
        session.expAt as u64
    };
    match create_token_until(&sub, secret, exp) {
        Err(_) => Step::Done(internal_err()),
        Ok(new) => {
            let cookie = Cookie::Session {
                token: new.clone(),
                max_age_secs: session.expAt - now.secs,
            };
            let body = token_body(claims, user);
            let reply = Reply { status: OK, cookies: Cookies::One(cookie), body };
            Step::Ask(
                Action::ReplaceSessionToken { user: uid, old: token, new },
                VerifyToken::Replace { reply },
            )
        },
    }
}

impl VerifyToken {
    /// `r` is what follows an answer.
    pub open spec fn next(
        self,
        app: AppState,
        event: Event,
        now: UtcTime,
        r: Step<VerifyToken, Reply>,
    ) -> bool {
        match self {
            VerifyToken::User { token, migrate, claims, uid } => r == match event {
                Event::User(Some(user)) => Step::Ask(
                    Action::SessionsOf(uid),
                    VerifyToken::Sessions { token, migrate, claims, user, uid },
                ),
                Event::User(None) => Step::Done(says(BAD_REQUEST, "User not found")),
                _ => Step::Done(db_failed(BAD_REQUEST)),
            },
            VerifyToken::Sessions { token, migrate, claims, user, uid } => match event {
                Event::Sessions(sessions) => match session_with(sessions@, token@) {
                    None => r == Step::<VerifyToken, Reply>::Done(denied()),
                    Some(session) => if session.expAt < now.secs {
                        r == Step::<VerifyToken, Reply>::Done(expired())
                    } else if migrate {
                        is_renewal(
                            r,
                            token@,
                            claims@,
                            user,
                            uid,
                            session,
                            app.jwt_secret@,
                            now,
                        )
                    } else {
                        r matches Step::Done(reply) && reply == plain(OK, reply.body)
                            && is_token_body(reply.body, claims@, user)
                    },
                },
                _ => r == Step::<VerifyToken, Reply>::Done(db_failed(BAD_REQUEST)),
            },
            VerifyToken::Replace { reply } => r == Step::<VerifyToken, Reply>::Done(
                match event {
                    Event::Changed(true) => reply,
                    Event::Changed(false) => denied(),
                    _ => db_failed(BAD_REQUEST),
                },
            ),
        }
    }
}

impl Flow for VerifyToken {
    type Out = Reply;

    open spec fn ready(self) -> bool {
        true
    }

    fn resume(self, app: &AppState, event: Event, now: UtcTime) -> (r: Step<VerifyToken, Reply>)
        ensures
            self.next(*app, event, now, r),
    {
        match self {
            VerifyToken::User { token, migrate, claims, uid } => match event {
                Event::User(Some(user)) => Step::Ask(
                    Action::SessionsOf(uid),
                    VerifyToken::Sessions { token, migrate, claims, user, uid },
                ),
                Event::User(None) => Step::Done(message(BAD_REQUEST, "User not found")),
                _ => Step::Done(db_error(BAD_REQUEST)),
            },
            VerifyToken::Sessions { token, migrate, claims, user, uid } => match event {
                Event::Sessions(sessions) => match find_session(&sessions, token.as_str()) {
                    None => Step::Done(message(UNAUTHORIZED, "Access denied, sign in again")),
                    Some(session) => {
                        if session.expAt < now.secs {
                            return Step::Done(
                                message(UNAUTHORIZED, "Session expired, please sign in again"),
                            );
                        }
                        if migrate {
                            renew(token, &claims, user, uid, session, app.jwt_secret.as_str(), now)
                        } else {
                            Step::Done(reply(OK, token_body(&claims, user)))
                        }
                    },
                },
                _ => Step::Done(db_error(BAD_REQUEST)),
            },
            VerifyToken::Replace { reply } => match event {
                Event::Changed(true) => Step::Done(reply),
                Event::Changed(false) => Step::Done(
                    message(UNAUTHORIZED, "Access denied, sign in again"),
                ),
                _ => Step::Done(db_error(BAD_REQUEST)),
            },
        }
    }
}

/// A token goes on only with a session row with it that has not expired, and a
/// cookie that replaces it does not outlive that row.
pub proof fn law_confirmed_token_has_a_live_session(
    token: String,
    migrate: bool,
    claims: Claims,
    user: User,
    uid: ObjectId,
    app: AppState,
    event: Event,
    now: UtcTime,
    r: Step<VerifyToken, Reply>,
)
    requires
        (VerifyToken::Sessions { token, migrate, claims, user, uid }).next(app, event, now, r),
        r matches Step::Done(answer) ==> answer.status == OK,
    ensures
        event matches Event::Sessions(sessions) && exists|i: int|
            0 <= i < sessions@.len() && (#[trigger] sessions@[i]).token@ == token@
                && sessions@[i].expAt >= now.secs && (r matches Step::Ask(
                _,
                VerifyToken::Replace {
                    reply: Reply {
                        cookies: Cookies::One(Cookie::Session { token: _, max_age_secs }),
                        ..
                    },
                },
            ) ==> now.secs + max_age_secs <= sessions@[i].expAt),
{
    let sessions = event->Sessions_0;
    lemma_session_with(sessions@, token@);
}

/// The session rows after those with the token `old` were given the token
/// `new`.
pub open spec fn with_token_replaced(
    rows: Seq<Session>,
    old: Seq<char>,
    new: String,
) -> Seq<Session> {
    Seq::new(
        rows.len(),
        |i: int|
            if rows[i].token@ == old {
                Session { token: new, ..rows[i] }
            } else {
                rows[i]
            },
    )
}

proof fn lemma_no_session_with(rows: Seq<Session>, token: Seq<char>)
    requires
        forall|i: int| 0 <= i < rows.len() ==> (#[trigger] rows[i]).token@ != token,
    ensures
        session_with(rows, token) is None,
    decreases rows.len(),
{
    if rows.len() > 0 {
        assert forall|i: int| 0 <= i < rows.skip(1).len() implies (#[trigger] rows.skip(1)[i]).token@
            != token by {
            assert(rows.skip(1)[i] == rows[i + 1]);
        }
        lemma_no_session_with(rows.skip(1), token);
    }
}

/// A token that came in the body is accepted once: the session that it had gets
/// another token, and the same token is denied afterwards.
pub proof fn law_body_token_is_accepted_once(
    token: String,
    claims: Claims,
    user: User,
    uid: ObjectId,
    app: AppState,
    rows: Vec<Session>,
    now: UtcTime,
    old: String,
    new: String,
    after: VerifyToken,
    rows_later: Vec<Session>,
    again: String,
    migrate: bool,
    user_later: User,
    later: UtcTime,
    r: Step<VerifyToken, Reply>,
)
    requires
        now.is_clock(),
        token_claims(token@, app.jwt_secret@) == Ok::<ClaimsView, TokenError>(claims@),
        is_object_id(claims.sub@),
        (VerifyToken::Sessions { token, migrate: true, claims, user, uid }).next(
            app,
            Event::Sessions(rows),
            now,
            Step::Ask(Action::ReplaceSessionToken { user: uid, old, new }, after),
        ),
        rows_later@ == with_token_replaced(rows@, old@, new),
        again@ == token@,
        (VerifyToken::Sessions { token: again, migrate, claims, user: user_later, uid }).next(
            app,
            Event::Sessions(rows_later),
            later,
            r,
        ),
    ensures
        new@ != token@,
        r == Step::<VerifyToken, Reply>::Done(denied()),
{
    let session = session_with(rows@, token@)->0;
    let sub = renewed_subject(claims@);
    let exp = renewed_expiry(session.expAt, claims.exp);
    lemma_session_claims(sub, exp);
    assert(token_claims(new@, app.jwt_secret@) == Ok::<ClaimsView, TokenError>(
        session_claims(sub, exp),
    ));
    assert(new@ != token@);
    lemma_no_session_with(rows_later@, token@);
}

// ---------- the password again ----------

/// What the check of a password waits for: the account.
pub struct VerifyPassword {
    pub payload: VerifyUserReq,
}

pub const WRONG_PASSWORD: &'static str = "Wrong password, please try again!";

/// Asks the owner of an account for the password again.
pub fn verify_user(claims: &Claims, payload: VerifyUserReq) -> (r: Step<VerifyPassword, Reply>)
    ensures
        r == if claims.sub@ != payload._id@ {
            Step::Done(forbidden())
        } else if !is_object_id(payload._id@) {
            Step::Done(says(BAD_REQUEST, "User not found!"))
        } else {
            Step::Ask(
                Action::UserById(object_id_of(payload._id@)),
                VerifyPassword { payload },
            )
        },
{
    match require_owner(claims, payload._id.as_str()) {
        Err(e) => {
            return Step::Done(e);
        },
        Ok(_) => {},
    }
    match object_id_from_str(payload._id.as_str()) {
        None => Step::Done(message(BAD_REQUEST, "User not found!")),
        Some(uid) => Step::Ask(Action::UserById(uid), VerifyPassword { payload }),
    }
}

/// What a password is answered with, by what the hash of the account says.
pub open spec fn password_answer(verdict: Option<bool>) -> Reply {
    if verdict == Some(true) {
        says(OK, "Authenticated")
    } else {
        says(BAD_REQUEST, WRONG_PASSWORD)
    }
}

/// Answers a password by what the hash of the account says.
pub fn answer_password(verdict: Option<bool>) -> (r: Reply)
    ensures
        r == password_answer(verdict),
{
    match verdict {
        Some(true) => message(OK, "Authenticated"),
        _ => message(BAD_REQUEST, WRONG_PASSWORD),
    }
}

impl VerifyPassword {
    /// What follows an answer.
    pub open spec fn next(self, event: Event) -> Step<VerifyPassword, Reply> {
        Step::Done(
            match event {
                Event::User(Some(user)) => password_answer(
                    bcrypt_matches(
                        self.payload.password@,
                        match user.password {
                            Some(h) => h@,
                            None => Seq::empty(),
                        },
                    ),
                ),
                Event::User(None) => says(BAD_REQUEST, "User not found!"),
                _ => db_failed(BAD_REQUEST),
            },
        )
    }
}

impl Flow for VerifyPassword {
    type Out = Reply;

    open spec fn ready(self) -> bool {
        true
    }

    fn resume(self, app: &AppState, event: Event, now: UtcTime) -> (r: Step<VerifyPassword, Reply>)
        ensures
            r == self.next(event),
    {
        match event {
            Event::User(Some(user)) => {
                let hash = match user.password {
                    Some(h) => h,
                    None => String::new(),
                };
                let verdict = verify_password(self.payload.password.as_str(), hash.as_str());
                Step::Done(answer_password(verdict))
            },
            Event::User(None) => Step::Done(message(BAD_REQUEST, "User not found!")),
            _ => Step::Done(db_error(BAD_REQUEST)),
        }
    }
}

// ---------- signing out ----------

/// What signing out waits for: the deletion of the session.
pub struct SignOut;

pub open spec fn signed_out() -> Reply {
    Reply {
        status: OK,
        cookies: Cookies::Two(Cookie::ClearSession, Cookie::ClearTfa),
        body: Body::Message("Success"),
    }
}

fn farewell() -> (r: Reply)
    ensures
        r == signed_out(),
{
    Reply {
        status: OK,
        cookies: Cookies::Two(Cookie::ClearSession, Cookie::ClearTfa),
        body: Body::Message("Success"),
    }
}

/// Ends the session of a request. The cookies are cleared even where the
/// session is gone already.
pub fn sign_out(claims: &Claims, headers: &Headers) -> (r: Step<SignOut, Reply>)
    ensures
        if !is_object_id(claims.sub@) {
            r == Step::<SignOut, Reply>::Done(says(BAD_REQUEST, "Invalid id"))
        } else {
            match session_token(*headers) {
                None => r == Step::<SignOut, Reply>::Done(signed_out()),
                Some((t, _)) => r matches Step::Ask(
                    Action::DeleteSessionByToken { user, token },
                    SignOut,
                ) && user == object_id_of(claims.sub@) && token@ == t,
            }
        },
{
    let user = match object_id_from_str(claims.sub.as_str()) {
        Some(uid) => uid,
        None => {
            return Step::Done(message(BAD_REQUEST, "Invalid id"));
        },
    };
    match request_session_token(headers) {
        None => Step::Done(farewell()),
        Some((token, _)) => Step::Ask(Action::DeleteSessionByToken { user, token }, SignOut),
    }
}

impl Flow for SignOut {
    type Out = Reply;

    open spec fn ready(self) -> bool {
        true
    }

    fn resume(self, app: &AppState, event: Event, now: UtcTime) -> (r: Step<SignOut, Reply>)
        ensures
            r == Step::<SignOut, Reply>::Done(signed_out()),
    {
        Step::Done(farewell())
    }
}

// ---------- from Google to a password ----------

/// What the change to an account with a password waits for.
pub enum ConvertNormal {
    /// The account.
    User { payload: ConvertNormalReq, uid: ObjectId },
    /// The change.
    Update,
}

/// Gives an account a password in place of its Google account.
pub fn convert_into_normal(claims: &Claims, payload: ConvertNormalReq) -> (r: Step<
    ConvertNormal,
    Reply,
>)
    ensures
        r == if claims.sub@ != payload.id@ {
            Step::Done(forbidden())
        } else if !is_password(payload.password@) {
            Step::Done(says(BAD_REQUEST, "Password must be between 6 and 128 characters!"))
        } else if !is_object_id(payload.id@) {
            Step::Done(says(BAD_REQUEST, "User not found!"))
        } else {
            Step::Ask(
                Action::UserById(object_id_of(payload.id@)),
                ConvertNormal::User { payload, uid: object_id_of(payload.id@) },
            )
        },
{
    match require_owner(claims, payload.id.as_str()) {
        Err(e) => {
            return Step::Done(e);
        },
        Ok(_) => {},
    }
    match validate_password(payload.password.as_str()) {
        Err(e) => {
            return Step::Done(e);
        },
        Ok(_) => {},
    }
    match object_id_from_str(payload.id.as_str()) {
        None => Step::Done(message(BAD_REQUEST, "User not found!")),
        Some(uid) => Step::Ask(Action::UserById(uid), ConvertNormal::User { payload, uid }),
    }
}

/// Stores the hash of the password of an account that had none.
pub fn store_first_password(uid: ObjectId, hash: Option<String>) -> (r: Step<ConvertNormal, Reply>)
    ensures
        r == match hash {
            None => Step::Done(internal_failed()),
            Some(password) => Step::Ask(
                Action::UpdateUser(uid, UserChange::IntoNormal { password }),
                ConvertNormal::Update,
            ),
        },
{
    match hash {
        None => Step::Done(internal_err()),
        Some(password) => Step::Ask(
            Action::UpdateUser(uid, UserChange::IntoNormal { password }),
            ConvertNormal::Update,
        ),
    }
}

impl ConvertNormal {
    /// `r` is what follows an answer. The account stays as it is only where
    /// hashing the password failed.
    pub open spec fn next(self, event: Event, r: Step<ConvertNormal, Reply>) -> bool {
        match self {
            ConvertNormal::User { payload, uid } => match event {
                Event::User(Some(_)) => {
                    ||| hash_failed(payload.password@) && r == Step::<ConvertNormal, Reply>::Done(
                        internal_failed(),
                    )
                    ||| r matches Step::Ask(
                        Action::UpdateUser(i, UserChange::IntoNormal { password }),
                        ConvertNormal::Update,
                    ) && i == uid && bcrypt_matches(payload.password@, password@) == Some(true)
                },
                Event::User(None) => r == Step::<ConvertNormal, Reply>::Done(
                    says(BAD_REQUEST, "User not found!"),
                ),
                _ => r == Step::<ConvertNormal, Reply>::Done(db_failed(BAD_REQUEST)),
            },
            ConvertNormal::Update => r == Step::<ConvertNormal, Reply>::Done(
                if event is Done {
                    says(OK, "Account was converted, please sign in again!")
                } else {
                    db_failed(BAD_REQUEST)
                },
            ),
        }
    }
}

impl Flow for ConvertNormal {
    type Out = Reply;

    open spec fn ready(self) -> bool {
        true
    }

    fn resume(self, app: &AppState, event: Event, now: UtcTime) -> (r: Step<ConvertNormal, Reply>)
        ensures
            self.next(event, r),
    {
        match self {
            ConvertNormal::User { payload, uid } => match event {
                Event::User(Some(_)) => store_first_password(
                    uid,
                    hash_password(payload.password.as_str()),
                ),
                Event::User(None) => Step::Done(message(BAD_REQUEST, "User not found!")),
                _ => Step::Done(db_error(BAD_REQUEST)),
            },
            ConvertNormal::Update => match event {
                Event::Done => Step::Done(
                    message(OK, "Account was converted, please sign in again!"),
                ),
                _ => Step::Done(db_error(BAD_REQUEST)),
            },
        }
    }
}

// ---------- from a password to Google ----------

/// A Google identity.
#[derive(Debug)]
pub struct GoogleIdentity {
    pub email: String,
    pub name: String,
    pub google_id: String,
}

/// What the change to a Google account waits for.
pub enum ConvertGoogle {
    /// The account.
    User { uid: ObjectId, google: GoogleIdentity },
    /// The account that has the email.
    ByEmail { uid: ObjectId, google: GoogleIdentity, email: String },
    /// The change.
    Update,
}

/// Gives an account a Google account in place of its password.
pub fn convert_into_google(claims: &Claims, payload: &Json) -> (r: Step<ConvertGoogle, Reply>)
    ensures
        ({
            let id = member_or_empty(payload@, "_id"@);
            if claims.sub@ != id {
                r == Step::<ConvertGoogle, Reply>::Done(forbidden())
            } else if !is_object_id(id) {
                r == Step::<ConvertGoogle, Reply>::Done(says(BAD_REQUEST, "User not found!"))
            } else {
                r matches Step::Ask(Action::UserById(i), ConvertGoogle::User { uid, google }) && i
                    == object_id_of(id) && uid == i && google.email@ == member_or_empty(
                    payload@,
                    "email"@,
                ) && google.name@ == member_or_empty(payload@, "name"@) && google.google_id@
                    == member_or_empty(payload@, "id"@)
            }
        }),
{
    let id = payload.text_or_empty("_id");
    match require_sub(claims.sub.as_str(), id.as_str()) {
        Err(e) => {
            return Step::Done(e);
        },
        Ok(_) => {},
    }
    let email = payload.text_or_empty("email");
    let name = payload.text_or_empty("name");
    let google_id = payload.text_or_empty("id");
    match object_id_from_str(id.as_str()) {
        None => Step::Done(message(BAD_REQUEST, "User not found!")),
        Some(uid) => Step::Ask(
            Action::UserById(uid),
            ConvertGoogle::User { uid, google: GoogleIdentity { email, name, google_id } },
        ),
    }
}

/// Another account, one with a password, has the email.
pub open spec fn email_taken(other: Option<User>, email: Seq<char>) -> bool {
    match other {
        Some(u) => !is_google(u) && u.email@ != email,
        None => false,
    }
}

impl ConvertGoogle {
    /// What follows an answer.
    pub open spec fn next(self, event: Event) -> Step<ConvertGoogle, Reply> {
        match self {
            ConvertGoogle::User { uid, google } => match event {
                Event::User(Some(user)) => Step::Ask(
                    Action::UserByEmail(google.email),
                    ConvertGoogle::ByEmail { uid, google, email: user.email },
                ),
                Event::User(None) => Step::Done(says(BAD_REQUEST, "User not found!")),
                _ => Step::Done(db_failed(BAD_REQUEST)),
            },
            ConvertGoogle::ByEmail { uid, google, email } => match event {
                Event::User(other) => if email_taken(other, email@) {
                    Step::Done(says(BAD_REQUEST, "User already exists!"))
                } else {
                    Step::Ask(
                        Action::UpdateUser(
                            uid,
                            UserChange::IntoGoogle {
                                google_id: google.google_id,
                                name: google.name,
                                email: google.email,
                            },
                        ),
                        ConvertGoogle::Update,
                    )
                },
                _ => Step::Done(db_failed(BAD_REQUEST)),
            },
            ConvertGoogle::Update => Step::Done(
                if event is Done {
                    says(OK, "Google account was linked, please sign in again!")
                } else {
                    db_failed(BAD_REQUEST)
                },
            ),
        }
    }
}

impl Flow for ConvertGoogle {
    type Out = Reply;

    open spec fn ready(self) -> bool {
        true
    }

    fn resume(self, app: &AppState, event: Event, now: UtcTime) -> (r: Step<ConvertGoogle, Reply>)
        ensures
            r == self.next(event),
    {
        match self {
            ConvertGoogle::User { uid, google } => match event {
                Event::User(Some(user)) => Step::Ask(
                    Action::UserByEmail(google.email.clone()),
                    ConvertGoogle::ByEmail { uid, google, email: user.email },
                ),
                Event::User(None) => Step::Done(message(BAD_REQUEST, "User not found!")),
                _ => Step::Done(db_error(BAD_REQUEST)),
            },
            ConvertGoogle::ByEmail { uid, google, email } => match event {
                Event::User(other) => {
                    let taken = match &other {
                        Some(u) => !has_google(u) && !same(u.email.as_str(), email.as_str()),
                        None => false,
                    };
                    if taken {
                        return Step::Done(message(BAD_REQUEST, "User already exists!"));
                    }
                    Step::Ask(
                        Action::UpdateUser(
                            uid,
                            UserChange::IntoGoogle {
                                google_id: google.google_id,
                                name: google.name,
                                email: google.email,
                            },
                        ),
                        ConvertGoogle::Update,
                    )
                },
                _ => Step::Done(db_error(BAD_REQUEST)),
            },
            ConvertGoogle::Update => match event {
                Event::Done => Step::Done(
                    message(OK, "Google account was linked, please sign in again!"),
                ),
                _ => Step::Done(db_error(BAD_REQUEST)),
            },
        }
    }
}

/// An account does not take the email of another one that has a password.
pub proof fn law_taken_email_is_not_linked(
    uid: ObjectId,
    google: GoogleIdentity,
    email: String,
    other: User,
)
    requires
        !is_google(other),
        other.email@ != email@,
    ensures
        (ConvertGoogle::ByEmail { uid, google, email }).next(Event::User(Some(other))) is Done,
{
}

} // verus!
