//! The second factor of an account.

use vstd::prelude::*;
#[allow(unused_imports)]
use vstd::string::*;

use crate::config::AppState;
#[allow(unused_imports)]
use crate::encoding::base32_text;
use crate::flow::{Action, Event, Flow, Step, UserChange};
use crate::handlers::user::recovery::may_act_for;
#[allow(unused_imports)]
use crate::handlers::user::recovery::is_authorized;
use crate::handlers::user::sign_in::answered_geo;
#[allow(unused_imports)]
use crate::handlers::user::sign_in::answered_place;
use crate::handlers::user::{enforce_rate_limit, enforce_rate_limit_key, has_google, mint_session, session_reply, subject, too_many, Gen2FAReq, Remove2FAReq, SessionMeta, Verify2FAReq};
#[allow(unused_imports)]
use crate::handlers::user::{is_google, is_new_session, is_session_reply, limited, limits_account, limits_client, subject_of};
use crate::http::{message, reply, Body, Headers, Reply, BAD_REQUEST, INTERNAL_SERVER_ERROR, OK, UNAUTHORIZED};
#[allow(unused_imports)]
use crate::http::{plain, says};
use crate::middleware::auth::{bearer_session_user, require_owner, BearerSession};
#[allow(unused_imports)]
use crate::middleware::auth::{denied, forbidden, is_bearer_start};
use crate::models::{Tfa, TfaOptions, User};
use crate::object_id::ObjectId;
#[allow(unused_imports)]
use crate::object_id::{is_object_id, object_id_of};
use crate::text::{owned, same};
use crate::time::UtcTime;
use crate::utils::cookies::{get_cookie, TFA_COOKIE};
#[allow(unused_imports)]
use crate::utils::cookies::cookie_value;
use crate::utils::crypto::{verify_tfa_token, Claims};
#[allow(unused_imports)]
use crate::utils::crypto::{jwt_claims, law_purpose_token_lasts, purpose_json, purpose_owner, text_view};
use crate::utils::geo::{fetch_geo, geo_info, GeoInfo};
#[allow(unused_imports)]
use crate::utils::geo::{geo_url, place_of, GeoView};
use crate::utils::totp::{check_code, draw_key, enrol};
#[allow(unused_imports)]
use crate::utils::totp::{data_url, is_drawn_key, otpauth_url, qr_picture, tfa_verdict, ISSUER};
use crate::utils::{db_error, internal_err, object_id_from_str};
#[allow(unused_imports)]
use crate::utils::{db_failed, internal_failed};

verus! {

// ---------- enrolment ----------

/// What an enrolment waits for.
pub enum GenerateTfa {
    /// The second factors of the account.
    Existing { uid: ObjectId },
    /// The insertion.
    Insert { uid: ObjectId, qrcode: String },
    /// The second factor that was inserted.
    Inserted { uid: ObjectId, qrcode: String },
    /// The change of the account.
    Update { qrcode: String },
}

/// Gives an account a second factor, which counts once a code of it has been
/// verified. The reply is the picture that an authenticator reads.
pub fn generate_2fa_qrcode(claims: &Claims, payload: Gen2FAReq) -> (r: Step<GenerateTfa, Reply>)
    ensures
        r == if claims.sub@ != payload.userId@ {
            Step::Done(forbidden())
        } else if !is_object_id(payload.userId@) {
            Step::Done(says(BAD_REQUEST, "Invalid userId"))
        } else {
            Step::Ask(
                Action::TfasOf(object_id_of(payload.userId@)),
                GenerateTfa::Existing { uid: object_id_of(payload.userId@) },
            )
        },
{
    match require_owner(claims, payload.userId.as_str()) {
        Err(e) => {
            return Step::Done(e);
        },
        Ok(_) => {},
    }
    match object_id_from_str(payload.userId.as_str()) {
        None => Step::Done(message(BAD_REQUEST, "Invalid userId")),
        Some(uid) => Step::Ask(Action::TfasOf(uid), GenerateTfa::Existing { uid }),
    }
}

/// `tfa` is the second factor of a key that has not been verified yet.
pub open spec fn is_new_tfa(tfa: Tfa, uid: ObjectId, key: Seq<u8>, png: Seq<u8>) -> bool {
    &&& tfa.id is None
    &&& tfa.userId == uid
    &&& tfa.secret@ == base32_text(key)
    &&& tfa.qrcode@ == data_url(png)
    &&& tfa.options == Some(TfaOptions { useToResetPass: Some(true) })
    &&& !tfa.verified
}

/// `r` is what follows once a key has been drawn.
pub open spec fn is_enrol_step(r: Step<GenerateTfa, Reply>, uid: ObjectId, key: Seq<u8>) -> bool {
    match qr_picture(otpauth_url(key, ISSUER@)) {
        None => r == Step::<GenerateTfa, Reply>::Done(internal_failed()),
        Some(png) => r matches Step::Ask(
            Action::InsertTfa(tfa),
            GenerateTfa::Insert { uid: i, qrcode },
        ) && is_new_tfa(tfa, uid, key, png) && i == uid && qrcode@ == data_url(png),
    }
}

/// Makes the second factor of a key.
pub fn enrol_key(uid: ObjectId, key: Vec<u8>) -> (r: Step<GenerateTfa, Reply>)
    requires
        key@.len() >= 16,
    ensures
        is_enrol_step(r, uid, key@),
{
    match enrol(key) {
        None => Step::Done(internal_err()),
        Some(e) => {
            let tfa = Tfa {
                id: None,
                qrcode: e.qrcode.clone(),
                userId: uid,
                secret: e.secret,
                options: Some(TfaOptions { useToResetPass: Some(true) }),
                verified: false,
            };
            Step::Ask(Action::InsertTfa(tfa), GenerateTfa::Insert { uid, qrcode: e.qrcode })
        },
    }
}

impl GenerateTfa {
    /// `r` is what follows an answer. An account that has a second factor
    /// keeps it.
    pub open spec fn next(self, event: Event, r: Step<GenerateTfa, Reply>) -> bool {
        match self {
            GenerateTfa::Existing { uid } => match event {
                Event::Tfas(tfas) => if tfas@.len() > 0 {
                    r == Step::<GenerateTfa, Reply>::Done(
                        plain(OK, Body::QrCode(tfas@[0].qrcode)),
                    )
                } else {
                    exists|key: Seq<u8>|
                        key.len() == 20 && is_drawn_key(key) && #[trigger] is_enrol_step(r, uid, key)
                },
                _ => r == Step::<GenerateTfa, Reply>::Done(db_failed(BAD_REQUEST)),
            },
            GenerateTfa::Insert { uid, qrcode } => r == if event is Done {
                Step::Ask(Action::TfaOf(uid), GenerateTfa::Inserted { uid, qrcode })
            } else {
                Step::Done(db_failed(BAD_REQUEST))
            },
            GenerateTfa::Inserted { uid, qrcode } => r == match event {
                Event::Tfa(Some(tfa)) => match tfa.id {
                    Some(id) => Step::Ask(
                        Action::UpdateUser(uid, UserChange::TfaStatus(id)),
                        GenerateTfa::Update { qrcode },
                    ),
                    None => Step::Done(internal_failed()),
                },
                Event::Tfa(None) => Step::Done(internal_failed()),
                _ => Step::Done(db_failed(BAD_REQUEST)),
            },
            GenerateTfa::Update { qrcode } => r == Step::<GenerateTfa, Reply>::Done(
                if event is Done {
                    plain(OK, Body::QrCode(qrcode))
                } else {
                    db_failed(BAD_REQUEST)
                },
            ),
        }
    }
}

impl Flow for GenerateTfa {
    type Out = Reply;

    open spec fn ready(self) -> bool {
        true
    }

    fn resume(self, app: &AppState, event: Event, now: UtcTime) -> (r: Step<GenerateTfa, Reply>)
        ensures
            self.next(event, r),
    {
        match self {
            GenerateTfa::Existing { uid } => match event {
                Event::Tfas(tfas) => {
                    if tfas.len() > 0 {
                        return Step::Done(reply(OK, Body::QrCode(tfas[0].qrcode.clone())));
                    }
                    enrol_key(uid, draw_key())
                },
                _ => Step::Done(db_error(BAD_REQUEST)),
            },
            GenerateTfa::Insert { uid, qrcode } => match event {
                Event::Done => Step::Ask(
                    Action::TfaOf(uid),
                    GenerateTfa::Inserted { uid, qrcode },
                ),
                _ => Step::Done(db_error(BAD_REQUEST)),
            },
            GenerateTfa::Inserted { uid, qrcode } => match event {
                Event::Tfa(Some(tfa)) => match tfa.id {
                    Some(id) => Step::Ask(
                        Action::UpdateUser(uid, UserChange::TfaStatus(id)),
                        GenerateTfa::Update { qrcode },
                    ),
                    None => Step::Done(internal_err()),
                },
                Event::Tfa(None) => Step::Done(internal_err()),
                _ => Step::Done(db_error(BAD_REQUEST)),
            },
            GenerateTfa::Update { qrcode } => match event {
                Event::Done => Step::Done(reply(OK, Body::QrCode(qrcode))),
                _ => Step::Done(db_error(BAD_REQUEST)),
            },
        }
    }
}

/// A second factor accepts the codes of the key that it was enrolled with, and
/// does not count before one has been verified.
pub proof fn law_enrolled_key_is_checked(
    tfa: Tfa,
    uid: ObjectId,
    key: Seq<u8>,
    png: Seq<u8>,
    shown: UtcTime,
    now: UtcTime,
)
    requires
        is_new_tfa(tfa, uid, key, png),
        key.len() >= 16,
        shown.is_clock(),
        now.is_clock(),
        now.secs >= crate::utils::totp::STEP,
        now.secs / 30 - 1 <= shown.secs / 30 <= now.secs / 30 + 1,
    ensures
        !tfa.verified,
        tfa_verdict(
            tfa.secret@,
            crate::utils::totp::totp_code(
                key,
                crate::utils::totp::DIGITS,
                shown.secs as int / 30,
            ),
            now,
        ) == Some(true),
{
    crate::utils::totp::law_shown_code_is_accepted(key, tfa.secret@, shown, now);
}

// ---------- the check of a code ----------

/// A code that is tried, with what comes with the request.
pub struct Attempt {
    pub payload: Verify2FAReq,
    /// The cookie of a pending second factor.
    pub cookie: Option<String>,
    pub ua: String,
}

/// What the check of a code waits for.
pub enum VerifyTfa {
    /// Whether the client may try.
    ClientLimit { attempt: Attempt },
    /// Whether the account may be tried.
    AccountLimit { attempt: Attempt },
    /// The second factors of the account.
    Tfas { attempt: Attempt, uid: ObjectId, pending: bool },
    /// The mark that the second factor has been verified.
    Mark { attempt: Attempt, uid: ObjectId, pending: bool },
    /// The account, for its session.
    User { attempt: Attempt, uid: ObjectId },
    /// Where the client is.
    Geo { attempt: Attempt, uid: ObjectId, user: User },
    /// The record of the session.
    Insert { reply: Reply },
}

/// The cookie of a pending second factor.
pub open spec fn tfa_cookie(headers: Headers) -> Option<Seq<char>> {
    match headers.cookie {
        Some(cookie) => cookie_value(cookie@, TFA_COOKIE@),
        None => None,
    }
}

/// What a browser calls itself, "Unknown" without the header.
pub open spec fn agent_header(headers: Headers) -> Seq<char> {
    match headers.user_agent {
        Some(ua) => ua@,
        None => "Unknown"@,
    }
}

/// Verifies a code of the second factor. Only a sign-in whose first factor was
/// accepted gets a session for it.
pub fn verify_2fa_code(headers: &Headers, payload: Verify2FAReq) -> (r: Step<VerifyTfa, Reply>)
    ensures
        r matches Step::Ask(action, VerifyTfa::ClientLimit { attempt }) && limits_client(
            action,
            *headers,
            "2fa-verify"@,
            10,
        ) && attempt.payload == payload && text_view(attempt.cookie) == tfa_cookie(*headers)
            && attempt.ua@ == agent_header(*headers),
{
    let cookie = match &headers.cookie {
        Some(cookie) => get_cookie(cookie.as_str(), TFA_COOKIE),
        None => None,
    };
    let ua = match &headers.user_agent {
        Some(ua) => ua.clone(),
        None => owned("Unknown"),
    };
    Step::Ask(
        enforce_rate_limit(headers, "2fa-verify", 10),
        VerifyTfa::ClientLimit { attempt: Attempt { payload, cookie, ua } },
    )
}

/// The first factor of the account was accepted: its cookie says so, and has
/// not expired.
pub open spec fn is_pending(attempt: Attempt, secret: Seq<char>, now: UtcTime) -> bool {
    match attempt.cookie {
        Some(token) => purpose_owner(token@, secret, "tfa"@, now) == Some(attempt.payload.userId@),
        None => false,
    }
}

fn pending_of(attempt: &Attempt, secret: &str, now: UtcTime) -> (r: bool)
    ensures
        r == is_pending(*attempt, secret@, now),
{
    match &attempt.cookie {
        Some(token) => match verify_tfa_token(token.as_str(), secret, now) {
            Some(owner) => same(owner.as_str(), attempt.payload.userId.as_str()),
            None => false,
        },
        None => false,
    }
}

pub const WRONG_TFA: &'static str = "Wrong code, please try again";

/// What follows once the second factors of the account are known: the first
/// one is held against the code.
pub open spec fn tfas_judged(
    tfas: Seq<Tfa>,
    attempt: Attempt,
    uid: ObjectId,
    pending: bool,
    now: UtcTime,
) -> Step<VerifyTfa, Reply> {
    if tfas.len() == 0 {
        Step::Done(says(UNAUTHORIZED, WRONG_TFA))
    } else {
        match tfa_verdict(tfas[0].secret@, attempt.payload.tfa_code@, now) {
            None => Step::Done(internal_failed()),
            Some(ok) => if !ok {
                Step::Done(says(UNAUTHORIZED, WRONG_TFA))
            } else {
                match tfas[0].id {
                    None => Step::Done(internal_failed()),
                    Some(id) => Step::Ask(
                        Action::MarkTfaVerified(id),
                        VerifyTfa::Mark { attempt, uid, pending },
                    ),
                }
            },
        }
    }
}

/// `r` records the session of a sign-in that is complete.
pub open spec fn is_tfa_session(
    r: Step<VerifyTfa, Reply>,
    attempt: Attempt,
    uid: ObjectId,
    user: User,
    geo: GeoView,
    secret: Seq<char>,
    now: UtcTime,
) -> bool {
    r matches Step::Ask(Action::InsertSession(session), VerifyTfa::Insert { reply })
        && is_new_session(
        session,
        uid,
        subject_of(user, uid, is_google(user)),
        (SessionMeta { ua: attempt.ua, identifier: attempt.payload.identifier }),
        geo,
        secret,
        now,
    ) && is_session_reply(reply, session.token@, Body::Message("Verified!"), true)
}

fn tfa_session(
    attempt: Attempt,
    uid: ObjectId,
    user: User,
    geo: &GeoInfo,
    secret: &str,
    now: UtcTime,
) -> (r: Step<VerifyTfa, Reply>)
    requires
        now.is_clock(),
    ensures
        is_tfa_session(r, attempt, uid, user, geo@, secret@, now),
{
    let google = has_google(&user);
    let sub = subject(&user, &uid, google);
    let meta = SessionMeta { ua: attempt.ua, identifier: attempt.payload.identifier };
    match mint_session(uid, &sub, &meta, geo, secret, now) {
        None => Step::Done(internal_err()),
        Some(session) => {
            let reply = session_reply(session.token.clone(), Body::Message("Verified!"), true);
            Step::Ask(Action::InsertSession(session), VerifyTfa::Insert { reply })
        },
    }
}

impl VerifyTfa {
    /// `r` is what follows an answer.
    pub open spec fn next(
        self,
        app: AppState,
        event: Event,
        now: UtcTime,
        r: Step<VerifyTfa, Reply>,
    ) -> bool {
        match self {
            VerifyTfa::ClientLimit { attempt } => if event is Allowed {
                r matches Step::Ask(action, VerifyTfa::AccountLimit { attempt: a })
                    && limits_account(action, "2fa-verify-acct"@, attempt.payload.userId@, 10)
                    && a == attempt
            } else {
                r == Step::<VerifyTfa, Reply>::Done(limited())
            },
            VerifyTfa::AccountLimit { attempt } => r == if !(event is Allowed) {
                Step::Done(limited())
            } else if !is_object_id(attempt.payload.userId@) {
                Step::Done(says(BAD_REQUEST, "Invalid userId"))
            } else {
                Step::Ask(
                    Action::TfasOf(object_id_of(attempt.payload.userId@)),
                    VerifyTfa::Tfas {
                        attempt,
                        uid: object_id_of(attempt.payload.userId@),
                        pending: is_pending(attempt, app.jwt_secret@, now),
                    },
                )
            },
            VerifyTfa::Tfas { attempt, uid, pending } => r == match event {
                Event::Tfas(tfas) => tfas_judged(tfas@, attempt, uid, pending, now),
                _ => Step::Done(db_failed(BAD_REQUEST)),
            },
            VerifyTfa::Mark { attempt, uid, pending } => r == if !(event is Done) {
                Step::Done(db_failed(BAD_REQUEST))
            } else if pending {
                Step::Ask(Action::UserById(uid), VerifyTfa::User { attempt, uid })
            } else {
                Step::Done(says(OK, "Verified!"))
            },
            VerifyTfa::User { attempt, uid } => match event {
                Event::User(Some(user)) => match geo_url(
                    attempt.payload.identifier@,
                    app.ipgeo_key@,
                ) {
                    Some(url) => r matches Step::Ask(
                        Action::Geo { url: u },
                        VerifyTfa::Geo { attempt: a, uid: i, user: w },
                    ) && u@ == url && a == attempt && i == uid && w == user,
                    None => is_tfa_session(
                        r,
                        attempt,
                        uid,
                        user,
                        place_of(None),
                        app.jwt_secret@,
                        now,
                    ),
                },
                Event::User(None) => r == Step::<VerifyTfa, Reply>::Done(
                    says(BAD_REQUEST, "User not found"),
                ),
                _ => r == Step::<VerifyTfa, Reply>::Done(db_failed(INTERNAL_SERVER_ERROR)),
            },
            VerifyTfa::Geo { attempt, uid, user } => is_tfa_session(
                r,
                attempt,
                uid,
                user,
                answered_place(event),
                app.jwt_secret@,
                now,
            ),
            VerifyTfa::Insert { reply } => r == Step::<VerifyTfa, Reply>::Done(
                if event is Done {
                    reply
                } else {
                    db_failed(INTERNAL_SERVER_ERROR)
                },
            ),
        }
    }
}

impl Flow for VerifyTfa {
    type Out = Reply;

    open spec fn ready(self) -> bool {
        true
    }

    fn resume(self, app: &AppState, event: Event, now: UtcTime) -> (r: Step<VerifyTfa, Reply>)
        ensures
            self.next(*app, event, now, r),
    {
        let secret = app.jwt_secret.as_str();
        match self {
            VerifyTfa::ClientLimit { attempt } => match event {
                Event::Allowed => Step::Ask(
                    enforce_rate_limit_key("2fa-verify-acct", attempt.payload.userId.as_str(), 10),
                    VerifyTfa::AccountLimit { attempt },
                ),
                _ => Step::Done(too_many()),
            },
            VerifyTfa::AccountLimit { attempt } => match event {
                Event::Allowed => {
                    let pending = pending_of(&attempt, secret, now);
                    match object_id_from_str(attempt.payload.userId.as_str()) {
                        None => Step::Done(message(BAD_REQUEST, "Invalid userId")),
                        Some(uid) => Step::Ask(
                            Action::TfasOf(uid),
                            VerifyTfa::Tfas { attempt, uid, pending },
                        ),
                    }
                },
                _ => Step::Done(too_many()),
            },
            VerifyTfa::Tfas { attempt, uid, pending } => match event {
                Event::Tfas(tfas) => {
                    if tfas.len() == 0 {
                        return Step::Done(message(UNAUTHORIZED, WRONG_TFA));
                    }
                    match check_code(
                        tfas[0].secret.as_str(),
                        attempt.payload.tfa_code.as_str(),
                        now,
                    ) {
                        None => Step::Done(internal_err()),
                        Some(ok) => {
                            if !ok {
                                return Step::Done(message(UNAUTHORIZED, WRONG_TFA));
                            }
                            match tfas[0].id {
                                None => Step::Done(internal_err()),
                                Some(id) => Step::Ask(
                                    Action::MarkTfaVerified(id),
                                    VerifyTfa::Mark { attempt, uid, pending },
                                ),
                            }
                        },
                    }
                },
                _ => Step::Done(db_error(BAD_REQUEST)),
            },
            VerifyTfa::Mark { attempt, uid, pending } => match event {
                Event::Done => {
                    if pending {
                        Step::Ask(Action::UserById(uid), VerifyTfa::User { attempt, uid })
                    } else {
                        Step::Done(message(OK, "Verified!"))
                    }
                },
                _ => Step::Done(db_error(BAD_REQUEST)),
            },
            VerifyTfa::User { attempt, uid } => match event {
                Event::User(Some(user)) => match fetch_geo(
                    attempt.payload.identifier.as_str(),
                    app.ipgeo_key.as_str(),
                ) {
                    Some(url) => Step::Ask(
                        Action::Geo { url },
                        VerifyTfa::Geo { attempt, uid, user },
                    ),
                    None => tfa_session(attempt, uid, user, &geo_info(None), secret, now),
                },
                Event::User(None) => Step::Done(message(BAD_REQUEST, "User not found")),
                _ => Step::Done(db_error(INTERNAL_SERVER_ERROR)),
            },
            VerifyTfa::Geo { attempt, uid, user } => tfa_session(
                attempt,
                uid,
                user,
                &answered_geo(event),
                secret,
                now,
            ),
            VerifyTfa::Insert { reply } => match event {
                Event::Done => Step::Done(reply),
                _ => Step::Done(db_error(INTERNAL_SERVER_ERROR)),
            },
        }
    }
}

/// A code is marked as verified only where the second factor accepts it.
pub proof fn law_only_accepted_codes_are_marked(
    tfas: Seq<Tfa>,
    attempt: Attempt,
    uid: ObjectId,
    pending: bool,
    now: UtcTime,
)
    requires
        tfas_judged(tfas, attempt, uid, pending, now) is Ask,
    ensures
        tfas.len() > 0,
        tfa_verdict(tfas[0].secret@, attempt.payload.tfa_code@, now) == Some(true),
        tfas[0].id is Some,
        tfas_judged(tfas, attempt, uid, pending, now) == Step::Ask::<VerifyTfa, Reply>(
            Action::MarkTfaVerified(tfas[0].id->0),
            VerifyTfa::Mark { attempt, uid, pending },
        ),
{
}

/// Without the cookie of an accepted first factor a code opens no session.
pub proof fn law_code_alone_opens_no_session(
    attempt: Attempt,
    uid: ObjectId,
    app: AppState,
    event: Event,
    now: UtcTime,
    r: Step<VerifyTfa, Reply>,
)
    requires
        (VerifyTfa::Mark { attempt, uid, pending: false }).next(app, event, now, r),
    ensures
        r matches Step::Done(reply) && reply.cookies is Nothing,
{
}

/// The cookie that a pending sign-in was given opens the session of its account
/// within ten minutes, and of no other.
pub proof fn law_pending_cookie_binds_account(
    attempt: Attempt,
    token: String,
    user_id: Seq<char>,
    secret: Seq<char>,
    exp: u64,
    now: UtcTime,
)
    requires
        attempt.cookie == Some(token),
        jwt_claims(token@, secret) == Some(purpose_json(user_id, "tfa"@, exp)),
    ensures
        is_pending(attempt, secret, now) == (attempt.payload.userId@ == user_id && now.secs <= exp),
{
    law_purpose_token_lasts(token@, secret, user_id, "tfa"@, exp, now);
}

// ---------- removal ----------

/// What the removal of the second factor waits for.
pub enum RemoveTfa {
    /// Whose session the request has.
    Owner { session: BearerSession, payload: Remove2FAReq },
    /// The second factors of the account.
    Tfas { uid: ObjectId },
    /// The deletion.
    Delete { uid: ObjectId },
    /// The first change of the account.
    Null { uid: ObjectId },
    /// The second change of the account.
    Unset,
}

/// What follows once it is known whose session the request has.
pub open spec fn remove_owned(
    owner: Option<String>,
    payload: Remove2FAReq,
    app: AppState,
    now: UtcTime,
) -> Step<RemoveTfa, Reply> {
    if !is_authorized(owner, payload.userId@, payload.resetToken, app.jwt_secret@, now) {
        Step::Done(denied())
    } else if !is_object_id(payload.userId@) {
        Step::Done(says(BAD_REQUEST, "Invalid userId"))
    } else {
        Step::Ask(
            Action::TfasOf(object_id_of(payload.userId@)),
            RemoveTfa::Tfas { uid: object_id_of(payload.userId@) },
        )
    }
}

fn remove_of(owner: Option<String>, payload: Remove2FAReq, app: &AppState, now: UtcTime) -> (r: Step<
    RemoveTfa,
    Reply,
>)
    ensures
        r == remove_owned(owner, payload, *app, now),
{
    if !may_act_for(
        &owner,
        payload.userId.as_str(),
        &payload.resetToken,
        app.jwt_secret.as_str(),
        now,
    ) {
        return Step::Done(message(UNAUTHORIZED, "Access denied, sign in again"));
    }
    match object_id_from_str(payload.userId.as_str()) {
        None => Step::Done(message(BAD_REQUEST, "Invalid userId")),
        Some(uid) => Step::Ask(Action::TfasOf(uid), RemoveTfa::Tfas { uid }),
    }
}

/// `r` is what follows once it is known whether the request has a session, or
/// asks for it.
pub open spec fn is_remove_start(
    r: Step<RemoveTfa, Reply>,
    start: Step<BearerSession, Option<String>>,
    payload: Remove2FAReq,
    app: AppState,
    now: UtcTime,
) -> bool {
    r == match start {
        Step::Done(owner) => remove_owned(owner, payload, app, now),
        Step::Ask(action, session) => Step::Ask(action, RemoveTfa::Owner { session, payload }),
    }
}

/// Removes the second factor of an account, for its live session or for a reset
/// token.
pub fn remove_2fa(headers: &Headers, payload: Remove2FAReq, app: &AppState, now: UtcTime) -> (r: Step<
    RemoveTfa,
    Reply,
>)
    requires
        now.is_clock(),
    ensures
        exists|start: Step<BearerSession, Option<String>>|
            is_bearer_start(start, *headers, app.jwt_secret@, now) && #[trigger] is_remove_start(
                r,
                start,
                payload,
                *app,
                now,
            ),
{
    let start = bearer_session_user(headers, app, now);
    let ghost (s, p) = (start, payload);
    let r = match start {
        Step::Done(owner) => remove_of(owner, payload, app, now),
        Step::Ask(action, session) => Step::Ask(action, RemoveTfa::Owner { session, payload }),
    };
    assert(is_remove_start(r, s, p, *app, now));
    r
}

impl RemoveTfa {
    /// What follows an answer. The account is told both that its second factor
    /// is null and that it is not there.
    pub open spec fn next(self, app: AppState, event: Event, now: UtcTime) -> Step<RemoveTfa, Reply> {
        match self {
            RemoveTfa::Owner { session, payload } => remove_owned(
                session.owner(event, now),
                payload,
                app,
                now,
            ),
            RemoveTfa::Tfas { uid } => match event {
                Event::Tfas(tfas) => if tfas@.len() == 0 {
                    Step::Done(says(BAD_REQUEST, "This account doesn't have 2FA enabled!"))
                } else {
                    match tfas@[0].id {
                        Some(id) => Step::Ask(Action::DeleteTfa(id), RemoveTfa::Delete { uid }),
                        None => Step::Done(internal_failed()),
                    }
                },
                _ => Step::Done(db_failed(BAD_REQUEST)),
            },
            RemoveTfa::Delete { uid } => if event is Done {
                Step::Ask(
                    Action::UpdateUser(uid, UserChange::TfaStatusNull),
                    RemoveTfa::Null { uid },
                )
            } else {
                Step::Done(db_failed(BAD_REQUEST))
            },
            RemoveTfa::Null { uid } => if event is Done {
                Step::Ask(Action::UpdateUser(uid, UserChange::TfaStatusUnset), RemoveTfa::Unset)
            } else {
                Step::Done(db_failed(BAD_REQUEST))
            },
            RemoveTfa::Unset => Step::Done(
                if event is Done {
                    says(OK, "2FA removed successfuly!")
                } else {
                    db_failed(BAD_REQUEST)
                },
            ),
        }
    }
}

impl Flow for RemoveTfa {
    type Out = Reply;

    open spec fn ready(self) -> bool {
        true
    }

    fn resume(self, app: &AppState, event: Event, now: UtcTime) -> (r: Step<RemoveTfa, Reply>)
        ensures
            r == self.next(*app, event, now),
    {
        match self {
            RemoveTfa::Owner { session, payload } => remove_of(
                session.finish(event, now),
                payload,
                app,
                now,
            ),
            RemoveTfa::Tfas { uid } => match event {
                Event::Tfas(tfas) => {
                    if tfas.len() == 0 {
                        return Step::Done(
                            message(BAD_REQUEST, "This account doesn't have 2FA enabled!"),
                        );
                    }
                    match tfas[0].id {
                        Some(id) => Step::Ask(Action::DeleteTfa(id), RemoveTfa::Delete { uid }),
                        None => Step::Done(internal_err()),
                    }
                },
                _ => Step::Done(db_error(BAD_REQUEST)),
            },
            RemoveTfa::Delete { uid } => match event {
                Event::Done => Step::Ask(
                    Action::UpdateUser(uid, UserChange::TfaStatusNull),
                    RemoveTfa::Null { uid },
                ),
                _ => Step::Done(db_error(BAD_REQUEST)),
            },
            RemoveTfa::Null { uid } => match event {
                Event::Done => Step::Ask(
                    Action::UpdateUser(uid, UserChange::TfaStatusUnset),
                    RemoveTfa::Unset,
                ),
                _ => Step::Done(db_error(BAD_REQUEST)),
            },
            RemoveTfa::Unset => match event {
                Event::Done => Step::Done(message(OK, "2FA removed successfuly!")),
                _ => Step::Done(db_error(BAD_REQUEST)),
            },
        }
    }
}

} // verus!
