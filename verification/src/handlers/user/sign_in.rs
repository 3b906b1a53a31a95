//! Signing up and signing in.

use vstd::prelude::*;
#[allow(unused_imports)]
use vstd::string::*;

use crate::config::AppState;
use crate::flow::{Action, Event, Flow, Step};
use crate::handlers::user::{enforce_rate_limit, has_google, mint_session, new_settings, session_reply, subject, too_many, user_agent, validate_password, verify_google_token, GoogleLoginReq, LoginReq, SessionMeta, SignUpReq};
#[allow(unused_imports)]
use crate::handlers::user::{agent_of, google_refused, is_google, is_new_session, is_new_settings, is_password, is_session_reply, limited, limits_client, subject_of};
use crate::http::{message, Body, Cookie, Cookies, Headers, Reply, BAD_REQUEST, INTERNAL_SERVER_ERROR, NOT_FOUND, OK};
#[allow(unused_imports)]
use crate::http::says;
use crate::models::User;
#[allow(unused_imports)]
use crate::object_id::{hex_form, ObjectId};
use crate::text::trim;
#[allow(unused_imports)]
use crate::text::trimmed;
use crate::time::UtcTime;
use crate::utils::crypto::{create_tfa_token, hash_password, verify_password};
#[allow(unused_imports)]
use crate::utils::crypto::{bcrypt_matches, hash_failed, is_token_text, jwt_claims, purpose_json, TFA_TOKEN_SECS};
use crate::utils::geo::{fetch_geo, geo_info, GeoInfo};
#[allow(unused_imports)]
use crate::utils::geo::{geo_url, place_of, GeoView};
use crate::utils::{db_error, internal_err};
#[allow(unused_imports)]
use crate::utils::{db_failed, internal_failed};

verus! {

// ---------- signing up ----------

/// What a new account waits for.
pub enum SignUp {
    /// Whether the email is taken.
    Existing { payload: SignUpReq },
    /// The insertion.
    Insert,
}

/// Creates an account with a password.
pub fn sign_up(payload: SignUpReq) -> (r: Step<SignUp, Reply>)
    ensures
        r == if !is_password(payload.password@) {
            Step::Done(says(BAD_REQUEST, "Password must be between 6 and 128 characters!"))
        } else if trimmed(payload.name@).len() == 0 || trimmed(payload.email@).len() == 0 {
            Step::Done(says(BAD_REQUEST, "Name and email are required!"))
        } else {
            Step::Ask(Action::UserByEmail(payload.email), SignUp::Existing { payload })
        },
{
    match validate_password(payload.password.as_str()) {
        Err(e) => {
            return Step::Done(e);
        },
        Ok(_) => {},
    }
    if trim(payload.name.as_str()).unicode_len() == 0 || trim(
        payload.email.as_str(),
    ).unicode_len() == 0 {
        return Step::Done(message(BAD_REQUEST, "Name and email are required!"));
    }
    Step::Ask(Action::UserByEmail(payload.email.clone()), SignUp::Existing { payload })
}

/// `user` is the new account of a request, with a hash that the password
/// matches.
pub open spec fn is_new_user(user: User, payload: SignUpReq) -> bool {
    &&& user.password matches Some(h) && bcrypt_matches(payload.password@, h@) == Some(true)
    &&& is_new_settings(user.settings)
    &&& user == (User {
        id: None,
        email: payload.email,
        name: payload.name,
        password: user.password,
        verified: None,
        googleId: None,
        tfa_status: None,
        googleAccount: Some(false),
        lastOpenedNote: None,
        settings: user.settings,
    })
}

impl SignUp {
    /// `r` is what follows an answer. The account is created unless hashing the
    /// password failed.
    pub open spec fn next(self, event: Event, r: Step<SignUp, Reply>) -> bool {
        match self {
            SignUp::Existing { payload } => match event {
                Event::User(Some(_)) => r == Step::<SignUp, Reply>::Done(
                    says(BAD_REQUEST, "User already exists, please sign in!"),
                ),
                Event::User(None) => {
                    ||| hash_failed(payload.password@) && r == Step::<SignUp, Reply>::Done(
                        internal_failed(),
                    )
                    ||| r matches Step::Ask(Action::InsertUser(user), SignUp::Insert)
                        && is_new_user(user, payload)
                },
                _ => r == Step::<SignUp, Reply>::Done(db_failed(INTERNAL_SERVER_ERROR)),
            },
            SignUp::Insert => r == Step::<SignUp, Reply>::Done(
                if event is Done {
                    says(OK, "User created successfully!")
                } else {
                    db_failed(BAD_REQUEST)
                },
            ),
        }
    }
}

/// `r` is what follows once the password of a new account has been hashed.
pub open spec fn is_hashed_step(
    r: Step<SignUp, Reply>,
    payload: SignUpReq,
    hash: Option<String>,
) -> bool {
    match hash {
        None => r == Step::<SignUp, Reply>::Done(internal_failed()),
        Some(h) => r matches Step::Ask(Action::InsertUser(user), SignUp::Insert) && user.password
            == Some(h) && user.email == payload.email && user.name == payload.name && user.id is None
            && user.verified is None && user.googleId is None && user.tfa_status is None
            && user.googleAccount == Some(false) && user.lastOpenedNote is None && is_new_settings(
            user.settings,
        ),
    }
}

/// Puts a new account together from the hash of its password.
pub fn create_user(payload: SignUpReq, hash: Option<String>) -> (r: Step<SignUp, Reply>)
    ensures
        is_hashed_step(r, payload, hash),
{
    match hash {
        None => Step::Done(internal_err()),
        Some(h) => Step::Ask(
            Action::InsertUser(
                User {
                    id: None,
                    email: payload.email,
                    name: payload.name,
                    password: Some(h),
                    verified: None,
                    googleId: None,
                    tfa_status: None,
                    googleAccount: Some(false),
                    lastOpenedNote: None,
                    settings: new_settings(),
                },
            ),
            SignUp::Insert,
        ),
    }
}

impl Flow for SignUp {
    type Out = Reply;

    open spec fn ready(self) -> bool {
        true
    }

    fn resume(self, app: &AppState, event: Event, now: UtcTime) -> (r: Step<SignUp, Reply>)
        ensures
            self.next(event, r),
    {
        match self {
            SignUp::Existing { payload } => match event {
                Event::User(Some(_)) => Step::Done(
                    message(BAD_REQUEST, "User already exists, please sign in!"),
                ),
                Event::User(None) => {
                    let hash = hash_password(payload.password.as_str());
                    create_user(payload, hash)
                },
                _ => Step::Done(db_error(INTERNAL_SERVER_ERROR)),
            },
            SignUp::Insert => match event {
                Event::Done => Step::Done(message(OK, "User created successfully!")),
                _ => Step::Done(db_error(BAD_REQUEST)),
            },
        }
    }
}

// ---------- the second factor is pending ----------

/// `reply` tells a user whose first factor was accepted that the second is
/// pending: the cookie that shows it, and no session.
pub open spec fn is_pending_reply(
    reply: Reply,
    body: Body,
    user: ObjectId,
    secret: Seq<char>,
    now: UtcTime,
) -> bool {
    &&& reply.status == OK
    &&& reply.body == body
    &&& reply.cookies matches Cookies::One(Cookie::Tfa { token }) && is_token_text(token@)
        && jwt_claims(token@, secret) == Some(
        purpose_json(hex_form(user@), "tfa"@, (now.secs + TFA_TOKEN_SECS) as u64),
    )
}

/// Tells a user that the second factor is pending.
pub fn pending_reply(body: Body, user: &ObjectId, secret: &str, now: UtcTime) -> (r: Reply)
    requires
        now.is_clock(),
    ensures
        is_pending_reply(r, body, *user, secret@, now),
{
    let id = user.to_hex();
    match create_tfa_token(id.as_str(), secret, now) {
        Ok(token) => Reply { status: OK, cookies: Cookies::One(Cookie::Tfa { token }), body },
        Err(_) => internal_err(),
    }
}

/// Whether the second factor that was looked up is in use.
pub open spec fn tfa_in_use(event: Event) -> bool {
    event matches Event::Tfa(Some(tfa)) && tfa.verified
}

fn uses_tfa(event: Event) -> (r: bool)
    ensures
        r == tfa_in_use(event),
{
    match event {
        Event::Tfa(Some(tfa)) => tfa.verified,
        _ => false,
    }
}

/// The place of an answer.
pub open spec fn answered_place(event: Event) -> GeoView {
    match event {
        Event::Geo(reply) => place_of(reply),
        _ => place_of(None),
    }
}

/// Reads the place of an answer.
pub fn answered_geo(event: Event) -> (r: GeoInfo)
    ensures
        r@ == answered_place(event),
{
    match event {
        Event::Geo(reply) => geo_info(reply),
        _ => geo_info(None),
    }
}

// ---------- signing in with a password ----------

/// What signing in waits for.
pub enum SignIn {
    /// Whether the client may try.
    Limit { payload: LoginReq, ua: String },
    /// The account.
    User { payload: LoginReq, ua: String },
    /// Where the client is.
    Geo { payload: LoginReq, ua: String, user: User },
    /// The second factor of the account.
    Tfa { payload: LoginReq, ua: String, user: User, geo: GeoInfo },
    /// The record of the session.
    Insert { reply: Reply },
}

pub const WRONG: &'static str = "Wrong email or password combination!";

/// Signs a user in with a password.
pub fn sign_in(headers: &Headers, payload: LoginReq) -> (r: Step<SignIn, Reply>)
    ensures
        r matches Step::Ask(action, SignIn::Limit { payload: p, ua }) && limits_client(
            action,
            *headers,
            "signin"@,
            20,
        ) && p == payload && ua@ == agent_of(*headers),
{
    let ua = user_agent(headers);
    Step::Ask(enforce_rate_limit(headers, "signin", 20), SignIn::Limit { payload, ua })
}

/// What a user who signed in is told.
pub open spec fn signed_in(user: User, id: ObjectId, tfa_enabled: bool) -> Body {
    Body::SignedIn {
        id,
        name: user.name,
        tfa_enabled,
        settings: user.settings,
        last_opened: user.lastOpenedNote,
    }
}

/// What the hash of an account says of the password.
pub open spec fn password_verdict(payload: LoginReq, user: User) -> Option<bool> {
    bcrypt_matches(
        payload.password@,
        match user.password {
            Some(h) => h@,
            None => Seq::empty(),
        },
    )
}

/// `r` is what follows once it is known whether the second factor is in use,
/// `verdict` being what the hash says of the password: a wrong password is
/// refused; with the second factor in use no session is minted, only its
/// pending cookie.
pub open spec fn is_sign_in_step(
    r: Step<SignIn, Reply>,
    verdict: Option<bool>,
    payload: LoginReq,
    ua: String,
    user: User,
    geo: GeoView,
    tfa_enabled: bool,
    secret: Seq<char>,
    now: UtcTime,
) -> bool {
    match verdict {
        None => r == Step::<SignIn, Reply>::Done(says(BAD_REQUEST, WRONG)),
        Some(false) => r == Step::<SignIn, Reply>::Done(says(NOT_FOUND, WRONG)),
        Some(true) => match user.id {
            None => r == Step::<SignIn, Reply>::Done(internal_failed()),
            Some(id) => if tfa_enabled {
                r matches Step::Done(reply) && is_pending_reply(
                    reply,
                    signed_in(user, id, true),
                    id,
                    secret,
                    now,
                )
            } else {
                r matches Step::Ask(Action::InsertSession(session), SignIn::Insert { reply })
                    && is_new_session(
                    session,
                    id,
                    subject_of(user, id, false),
                    (SessionMeta { ua, identifier: payload.identifier }),
                    geo,
                    secret,
                    now,
                ) && is_session_reply(reply, session.token@, signed_in(user, id, false), false)
            },
        },
    }
}

/// Goes on with signing in by what the hash said of the password.
pub fn conclude_sign_in(
    verdict: Option<bool>,
    payload: LoginReq,
    ua: String,
    user: User,
    geo: &GeoInfo,
    tfa_enabled: bool,
    secret: &str,
    now: UtcTime,
) -> (r: Step<SignIn, Reply>)
    requires
        now.is_clock(),
    ensures
        is_sign_in_step(r, verdict, payload, ua, user, geo@, tfa_enabled, secret@, now),
{
    match verdict {
        None => {
            return Step::Done(message(BAD_REQUEST, WRONG));
        },
        Some(ok) => {
            if !ok {
                return Step::Done(message(NOT_FOUND, WRONG));
            }
        },
    }
    let id = match user.id {
        Some(id) => id,
        None => {
            return Step::Done(internal_err());
        },
    };
    if tfa_enabled {
        let body = Body::SignedIn {
            id,
            name: user.name,
            tfa_enabled: true,
            settings: user.settings,
            last_opened: user.lastOpenedNote,
        };
        return Step::Done(pending_reply(body, &id, secret, now));
    }
    let sub = subject(&user, &id, false);
    let meta = SessionMeta { ua, identifier: payload.identifier };
    match mint_session(id, &sub, &meta, geo, secret, now) {
        None => Step::Done(internal_err()),
        Some(session) => {
            let body = Body::SignedIn {
                id,
                name: user.name,
                tfa_enabled: false,
                settings: user.settings,
                last_opened: user.lastOpenedNote,
            };
            let reply = session_reply(session.token.clone(), body, false);
            Step::Ask(Action::InsertSession(session), SignIn::Insert { reply })
        },
    }
}

fn check_sign_in(
    payload: LoginReq,
    ua: String,
    user: User,
    geo: &GeoInfo,
    tfa_enabled: bool,
    secret: &str,
    now: UtcTime,
) -> (r: Step<SignIn, Reply>)
    requires
        now.is_clock(),
    ensures
        is_sign_in_step(
            r,
            password_verdict(payload, user),
            payload,
            ua,
            user,
            geo@,
            tfa_enabled,
            secret@,
            now,
        ),
{
    let verdict = match &user.password {
        Some(h) => verify_password(payload.password.as_str(), h.as_str()),
        None => {
            let none = String::new();
            verify_password(payload.password.as_str(), none.as_str())
        },
    };
    conclude_sign_in(verdict, payload, ua, user, geo, tfa_enabled, secret, now)
}

/// `r` is what follows once the place is known: the lookup of the second
/// factor, where the account has one, else the check of the password.
pub open spec fn is_placed_step(
    r: Step<SignIn, Reply>,
    payload: LoginReq,
    ua: String,
    user: User,
    geo: GeoView,
    secret: Seq<char>,
    now: UtcTime,
) -> bool {
    match user.tfa_status {
        Some(tfa) => r matches Step::Ask(
            Action::TfaById(id),
            SignIn::Tfa { payload: p, ua: a, user: u, geo: g },
        ) && id == tfa && p == payload && a == ua && u == user && g@ == geo,
        None => is_sign_in_step(
            r,
            password_verdict(payload, user),
            payload,
            ua,
            user,
            geo,
            false,
            secret,
            now,
        ),
    }
}

fn place_sign_in(
    payload: LoginReq,
    ua: String,
    user: User,
    geo: GeoInfo,
    secret: &str,
    now: UtcTime,
) -> (r: Step<SignIn, Reply>)
    requires
        now.is_clock(),
    ensures
        is_placed_step(r, payload, ua, user, geo@, secret@, now),
{
    match user.tfa_status {
        Some(tfa) => Step::Ask(Action::TfaById(tfa), SignIn::Tfa { payload, ua, user, geo }),
        None => check_sign_in(payload, ua, user, &geo, false, secret, now),
    }
}

impl SignIn {
    /// `r` is what follows an answer.
    pub open spec fn next(self, app: AppState, event: Event, now: UtcTime, r: Step<SignIn, Reply>) -> bool {
        match self {
            SignIn::Limit { payload, ua } => r == if event is Allowed {
                Step::Ask(Action::UserByEmail(payload.email), SignIn::User { payload, ua })
            } else {
                Step::Done(limited())
            },
            SignIn::User { payload, ua } => match event {
                Event::User(Some(user)) => if is_google(user) {
                    r == Step::<SignIn, Reply>::Done(
                        says(
                            BAD_REQUEST,
                            "The selected sign in method isn't available to this email!",
                        ),
                    )
                } else {
                    match geo_url(payload.identifier@, app.ipgeo_key@) {
                        Some(url) => r matches Step::Ask(
                            Action::Geo { url: u },
                            SignIn::Geo { payload: p, ua: a, user: w },
                        ) && u@ == url && p == payload && a == ua && w == user,
                        None => is_placed_step(
                            r,
                            payload,
                            ua,
                            user,
                            place_of(None),
                            app.jwt_secret@,
                            now,
                        ),
                    }
                },
                Event::User(None) => r == Step::<SignIn, Reply>::Done(says(BAD_REQUEST, WRONG)),
                _ => r == Step::<SignIn, Reply>::Done(db_failed(INTERNAL_SERVER_ERROR)),
            },
            SignIn::Geo { payload, ua, user } => is_placed_step(
                r,
                payload,
                ua,
                user,
                answered_place(event),
                app.jwt_secret@,
                now,
            ),
            SignIn::Tfa { payload, ua, user, geo } => is_sign_in_step(
                r,
                password_verdict(payload, user),
                payload,
                ua,
                user,
                geo@,
                tfa_in_use(event),
                app.jwt_secret@,
                now,
            ),
            SignIn::Insert { reply } => r == Step::<SignIn, Reply>::Done(
                if event is Done {
                    reply
                } else {
                    db_failed(INTERNAL_SERVER_ERROR)
                },
            ),
        }
    }
}

impl Flow for SignIn {
    type Out = Reply;

    open spec fn ready(self) -> bool {
        true
    }

    fn resume(self, app: &AppState, event: Event, now: UtcTime) -> (r: Step<SignIn, Reply>)
        ensures
            self.next(*app, event, now, r),
    {
        match self {
            SignIn::Limit { payload, ua } => match event {
                Event::Allowed => Step::Ask(
                    Action::UserByEmail(payload.email.clone()),
                    SignIn::User { payload, ua },
                ),
                _ => Step::Done(too_many()),
            },
            SignIn::User { payload, ua } => match event {
                Event::User(Some(user)) => {
                    if has_google(&user) {
                        return Step::Done(
                            message(
                                BAD_REQUEST,
                                "The selected sign in method isn't available to this email!",
                            ),
                        );
                    }
                    match fetch_geo(payload.identifier.as_str(), app.ipgeo_key.as_str()) {
                        Some(url) => Step::Ask(
                            Action::Geo { url },
                            SignIn::Geo { payload, ua, user },
                        ),
                        None => place_sign_in(
                            payload,
                            ua,
                            user,
                            geo_info(None),
                            app.jwt_secret.as_str(),
                            now,
                        ),
                    }
                },
                Event::User(None) => Step::Done(message(BAD_REQUEST, WRONG)),
                _ => Step::Done(db_error(INTERNAL_SERVER_ERROR)),
            },
            SignIn::Geo { payload, ua, user } => place_sign_in(
                payload,
                ua,
                user,
                answered_geo(event),
                app.jwt_secret.as_str(),
                now,
            ),
            SignIn::Tfa { payload, ua, user, geo } => {
                let enabled = uses_tfa(event);
                check_sign_in(payload, ua, user, &geo, enabled, app.jwt_secret.as_str(), now)
            },
            SignIn::Insert { reply } => match event {
                Event::Done => Step::Done(reply),
                _ => Step::Done(db_error(INTERNAL_SERVER_ERROR)),
            },
        }
    }
}

/// A session is recorded only after the password was accepted, and never while
/// the second factor is in use.
pub proof fn law_session_needs_password_and_no_pending_factor(
    r: Step<SignIn, Reply>,
    verdict: Option<bool>,
    payload: LoginReq,
    ua: String,
    user: User,
    geo: GeoView,
    tfa_enabled: bool,
    secret: Seq<char>,
    now: UtcTime,
)
    requires
        is_sign_in_step(r, verdict, payload, ua, user, geo, tfa_enabled, secret, now),
        r is Ask,
    ensures
        verdict == Some(true),
        !tfa_enabled,
{
}

/// An account that was just created lets its user in with the password that it
/// was created with.
pub proof fn law_new_user_can_sign_in(user: User, sign_up: SignUpReq, login: LoginReq)
    requires
        is_new_user(user, sign_up),
        login.password@ == sign_up.password@,
    ensures
        password_verdict(login, user) == Some(true),
        !is_google(user),
        user.tfa_status is None,
{
}

// ---------- signing in with Google ----------

/// What signing in with Google waits for.
pub enum GoogleLogin {
    /// Whether the client may try.
    Limit { payload: GoogleLoginReq, ua: String },
    /// What Google says of the token.
    Google { payload: GoogleLoginReq, ua: String },
    /// The account.
    User { payload: GoogleLoginReq, ua: String },
    /// Where the client is.
    Geo { payload: GoogleLoginReq, ua: String, existing: Option<User> },
    /// The insertion of a new account.
    Create { payload: GoogleLoginReq, ua: String, geo: GeoInfo },
    /// The new account.
    Created { payload: GoogleLoginReq, ua: String, geo: GeoInfo },
    /// The second factor of an account.
    Tfa { payload: GoogleLoginReq, ua: String, user: User, id: ObjectId, geo: GeoInfo },
    /// The record of the session.
    Insert { reply: Reply },
}

/// Signs a user in with a Google account.
pub fn google_login(headers: &Headers, payload: GoogleLoginReq) -> (r: Step<GoogleLogin, Reply>)
    ensures
        r matches Step::Ask(action, GoogleLogin::Limit { payload: p, ua }) && limits_client(
            action,
            *headers,
            "signin-google"@,
            20,
        ) && p == payload && ua@ == agent_of(*headers),
{
    let ua = user_agent(headers);
    Step::Ask(
        enforce_rate_limit(headers, "signin-google", 20),
        GoogleLogin::Limit { payload, ua },
    )
}

/// What a user who signed in with Google is told.
pub open spec fn google_signed_in(user: User, id: ObjectId, tfa_enabled: bool) -> Body {
    Body::GoogleSignedIn { id, name: user.name, tfa_enabled, settings: user.settings }
}

/// `user` is the new account of a Google identity.
pub open spec fn is_new_google_user(user: User, payload: GoogleLoginReq) -> bool {
    &&& is_new_settings(user.settings)
    &&& user == (User {
        id: None,
        email: payload.email,
        name: payload.name,
        password: None,
        verified: None,
        googleId: Some(payload.id),
        tfa_status: None,
        googleAccount: Some(true),
        lastOpenedNote: None,
        settings: user.settings,
    })
}

/// `r` records a session of a user with a Google account.
pub open spec fn is_google_session(
    r: Step<GoogleLogin, Reply>,
    payload: GoogleLoginReq,
    ua: String,
    user: User,
    id: ObjectId,
    geo: GeoView,
    secret: Seq<char>,
    now: UtcTime,
) -> bool {
    r matches Step::Ask(Action::InsertSession(session), GoogleLogin::Insert { reply })
        && is_new_session(
        session,
        id,
        subject_of(user, id, true),
        (SessionMeta { ua, identifier: payload.identifier }),
        geo,
        secret,
        now,
    ) && is_session_reply(reply, session.token@, google_signed_in(user, id, false), false)
}

fn google_session(
    payload: GoogleLoginReq,
    ua: String,
    user: User,
    id: ObjectId,
    geo: &GeoInfo,
    secret: &str,
    now: UtcTime,
) -> (r: Step<GoogleLogin, Reply>)
    requires
        now.is_clock(),
    ensures
        is_google_session(r, payload, ua, user, id, geo@, secret@, now),
{
    let sub = subject(&user, &id, true);
    let meta = SessionMeta { ua, identifier: payload.identifier };
    match mint_session(id, &sub, &meta, geo, secret, now) {
        None => Step::Done(internal_err()),
        Some(session) => {
            let body = Body::GoogleSignedIn {
                id,
                name: user.name,
                tfa_enabled: false,
                settings: user.settings,
            };
            let reply = session_reply(session.token.clone(), body, false);
            Step::Ask(Action::InsertSession(session), GoogleLogin::Insert { reply })
        },
    }
}

/// `r` is what follows once the place is known: a new account is created; an
/// account with a password is refused; of another the second factor is looked
/// up, where it has one.
pub open spec fn is_google_placed_step(
    r: Step<GoogleLogin, Reply>,
    payload: GoogleLoginReq,
    ua: String,
    existing: Option<User>,
    geo: GeoView,
    secret: Seq<char>,
    now: UtcTime,
) -> bool {
    match existing {
        None => r matches Step::Ask(
            Action::InsertUser(user),
            GoogleLogin::Create { payload: p, ua: a, geo: g },
        ) && is_new_google_user(user, payload) && p == payload && a == ua && g@ == geo,
        Some(user) => if !is_google(user) {
            r == Step::<GoogleLogin, Reply>::Done(
                says(
                    BAD_REQUEST,
                    "User already exists, please sign in using your email and password!",
                ),
            )
        } else {
            match user.id {
                None => r == Step::<GoogleLogin, Reply>::Done(internal_failed()),
                Some(id) => match user.tfa_status {
                    Some(tfa) => r matches Step::Ask(
                        Action::TfaById(t),
                        GoogleLogin::Tfa { payload: p, ua: a, user: u, id: i, geo: g },
                    ) && t == tfa && p == payload && a == ua && u == user && i == id && g@ == geo,
                    None => is_google_session(r, payload, ua, user, id, geo, secret, now),
                },
            }
        },
    }
}

fn place_google(
    payload: GoogleLoginReq,
    ua: String,
    existing: Option<User>,
    geo: GeoInfo,
    secret: &str,
    now: UtcTime,
) -> (r: Step<GoogleLogin, Reply>)
    requires
        now.is_clock(),
    ensures
        is_google_placed_step(r, payload, ua, existing, geo@, secret@, now),
{
    match existing {
        None => Step::Ask(
            Action::InsertUser(
                User {
                    id: None,
                    email: payload.email.clone(),
                    name: payload.name.clone(),
                    password: None,
                    verified: None,
                    googleId: Some(payload.id.clone()),
                    tfa_status: None,
                    googleAccount: Some(true),
                    lastOpenedNote: None,
                    settings: new_settings(),
                },
            ),
            GoogleLogin::Create { payload, ua, geo },
        ),
        Some(user) => {
            if !has_google(&user) {
                return Step::Done(
                    message(
                        BAD_REQUEST,
                        "User already exists, please sign in using your email and password!",
                    ),
                );
            }
            match user.id {
                None => Step::Done(internal_err()),
                Some(id) => match user.tfa_status {
                    Some(tfa) => Step::Ask(
                        Action::TfaById(tfa),
                        GoogleLogin::Tfa { payload, ua, user, id, geo },
                    ),
                    None => google_session(payload, ua, user, id, &geo, secret, now),
                },
            }
        },
    }
}

impl GoogleLogin {
    /// `r` is what follows an answer. Nothing is looked up before Google has
    /// confirmed the identity.
    pub open spec fn next(
        self,
        app: AppState,
        event: Event,
        now: UtcTime,
        r: Step<GoogleLogin, Reply>,
    ) -> bool {
        match self {
            GoogleLogin::Limit { payload, ua } => r == if event is Allowed {
                Step::Ask(
                    Action::GoogleUser { access_token: payload.access_token },
                    GoogleLogin::Google { payload, ua },
                )
            } else {
                Step::Done(limited())
            },
            GoogleLogin::Google { payload, ua } => r == match google_refused(
                event,
                payload.email@,
                payload.id@,
            ) {
                Some(e) => Step::Done(e),
                None => Step::Ask(
                    Action::UserByEmail(payload.email),
                    GoogleLogin::User { payload, ua },
                ),
            },
            GoogleLogin::User { payload, ua } => match event {
                Event::User(existing) => match geo_url(payload.identifier@, app.ipgeo_key@) {
                    Some(url) => r matches Step::Ask(
                        Action::Geo { url: u },
                        GoogleLogin::Geo { payload: p, ua: a, existing: e },
                    ) && u@ == url && p == payload && a == ua && e == existing,
                    None => is_google_placed_step(
                        r,
                        payload,
                        ua,
                        existing,
                        place_of(None),
                        app.jwt_secret@,
                        now,
                    ),
                },
                _ => r == Step::<GoogleLogin, Reply>::Done(db_failed(INTERNAL_SERVER_ERROR)),
            },
            GoogleLogin::Geo { payload, ua, existing } => is_google_placed_step(
                r,
                payload,
                ua,
                existing,
                answered_place(event),
                app.jwt_secret@,
                now,
            ),
            GoogleLogin::Create { payload, ua, geo } => r == if event is Done {
                Step::Ask(
                    Action::UserByEmail(payload.email),
                    GoogleLogin::Created { payload, ua, geo },
                )
            } else {
                Step::Done(db_failed(BAD_REQUEST))
            },
            GoogleLogin::Created { payload, ua, geo } => match event {
                Event::User(Some(user)) => match user.id {
                    Some(id) => is_google_session(
                        r,
                        payload,
                        ua,
                        user,
                        id,
                        geo@,
                        app.jwt_secret@,
                        now,
                    ),
                    None => r == Step::<GoogleLogin, Reply>::Done(internal_failed()),
                },
                Event::User(None) => r == Step::<GoogleLogin, Reply>::Done(internal_failed()),
                _ => r == Step::<GoogleLogin, Reply>::Done(db_failed(BAD_REQUEST)),
            },
            GoogleLogin::Tfa { payload, ua, user, id, geo } => if tfa_in_use(event) {
                r matches Step::Done(reply) && is_pending_reply(
                    reply,
                    google_signed_in(user, id, true),
                    id,
                    app.jwt_secret@,
                    now,
                )
            } else {
                is_google_session(r, payload, ua, user, id, geo@, app.jwt_secret@, now)
            },
            GoogleLogin::Insert { reply } => r == Step::<GoogleLogin, Reply>::Done(
                if event is Done {
                    reply
                } else {
                    db_failed(INTERNAL_SERVER_ERROR)
                },
            ),
        }
    }
}

impl Flow for GoogleLogin {
    type Out = Reply;

    open spec fn ready(self) -> bool {
        true
    }

    fn resume(self, app: &AppState, event: Event, now: UtcTime) -> (r: Step<GoogleLogin, Reply>)
        ensures
            self.next(*app, event, now, r),
    {
        let secret = app.jwt_secret.as_str();
        match self {
            GoogleLogin::Limit { payload, ua } => match event {
                Event::Allowed => Step::Ask(
                    Action::GoogleUser { access_token: payload.access_token.clone() },
                    GoogleLogin::Google { payload, ua },
                ),
                _ => Step::Done(too_many()),
            },
            GoogleLogin::Google { payload, ua } => match verify_google_token(
                event,
                payload.email.as_str(),
                payload.id.as_str(),
            ) {
                Some(e) => Step::Done(e),
                None => Step::Ask(
                    Action::UserByEmail(payload.email.clone()),
                    GoogleLogin::User { payload, ua },
                ),
            },
            GoogleLogin::User { payload, ua } => match event {
                Event::User(existing) => match fetch_geo(
                    payload.identifier.as_str(),
                    app.ipgeo_key.as_str(),
                ) {
                    Some(url) => Step::Ask(
                        Action::Geo { url },
                        GoogleLogin::Geo { payload, ua, existing },
                    ),
                    None => place_google(payload, ua, existing, geo_info(None), secret, now),
                },
                _ => Step::Done(db_error(INTERNAL_SERVER_ERROR)),
            },
            GoogleLogin::Geo { payload, ua, existing } => place_google(
                payload,
                ua,
                existing,
                answered_geo(event),
                secret,
                now,
            ),
            GoogleLogin::Create { payload, ua, geo } => match event {
                Event::Done => Step::Ask(
                    Action::UserByEmail(payload.email.clone()),
                    GoogleLogin::Created { payload, ua, geo },
                ),
                _ => Step::Done(db_error(BAD_REQUEST)),
            },
            GoogleLogin::Created { payload, ua, geo } => match event {
                Event::User(Some(user)) => match user.id {
                    Some(id) => google_session(payload, ua, user, id, &geo, secret, now),
                    None => Step::Done(internal_err()),
                },
                Event::User(None) => Step::Done(internal_err()),
                _ => Step::Done(db_error(BAD_REQUEST)),
            },
            GoogleLogin::Tfa { payload, ua, user, id, geo } => {
                if uses_tfa(event) {
                    let body = Body::GoogleSignedIn {
                        id,
                        name: user.name,
                        tfa_enabled: true,
                        settings: user.settings,
                    };
                    Step::Done(pending_reply(body, &id, secret, now))
                } else {
                    google_session(payload, ua, user, id, &geo, secret, now)
                }
            },
            GoogleLogin::Insert { reply } => match event {
                Event::Done => Step::Done(reply),
                _ => Step::Done(db_error(INTERNAL_SERVER_ERROR)),
            },
        }
    }
}

/// Past the answer of Google nothing happens unless it names the claimed email
/// and identity.
pub proof fn law_google_identity_is_confirmed(
    payload: GoogleLoginReq,
    ua: String,
    app: AppState,
    event: Event,
    now: UtcTime,
    action: Action,
    after: GoogleLogin,
)
    requires
        (GoogleLogin::Google { payload, ua }).next(app, event, now, Step::Ask(action, after)),
    ensures
        google_refused(event, payload.email@, payload.id@) is None,
        event is Google,
{
}

} // verus!
