//! Recovery of an account by mail: one-time codes, and what they authorize.

use vstd::prelude::*;
#[allow(unused_imports)]
use vstd::string::*;

use crate::config::AppState;
use crate::flow::{Action, Event, Flow, Step, UserChange};
use crate::handlers::user::{enforce_rate_limit, enforce_rate_limit_key, too_many, validate_password, ChangePassReq, FindUserReq, VerifyOtpReq};
#[allow(unused_imports)]
use crate::handlers::user::{is_password, limited, limits_account, limits_client};
use crate::http::{coded, message, reply, Body, Headers, Reply, BAD_REQUEST, INTERNAL_SERVER_ERROR, OK, UNAUTHORIZED};
#[allow(unused_imports)]
use crate::http::{plain, says, says_code};
use crate::models::{Otp, User};
use crate::numbers::padded_text;
#[allow(unused_imports)]
use crate::numbers::{decimal, zero_padded};
use crate::middleware::auth::{bearer_session_user, BearerSession};
#[allow(unused_imports)]
use crate::middleware::auth::{denied, is_bearer_start};
use crate::object_id::ObjectId;
#[allow(unused_imports)]
use crate::object_id::{hex_form, is_object_id, object_id_of};
use crate::text::same;
use crate::time::{UtcTime, DAY, HOUR};
use crate::utils::crypto::{create_reset_token, hash_password, verify_password, verify_reset_token};
#[allow(unused_imports)]
use crate::utils::crypto::{bcrypt_matches, hash_failed, is_token_text, jwt_claims, law_purpose_token_lasts, law_purposes_are_apart, purpose_json, purpose_owner, RESET_TOKEN_SECS};
use crate::utils::mail::{mail_html, reads_as_mailbox};
#[allow(unused_imports)]
use crate::utils::mail::{is_mailbox, mail_page};
use crate::utils::{db_error, internal_err, object_id_from_str};
#[allow(unused_imports)]
use crate::utils::{db_failed, internal_failed};

verus! {

// ---------- one-time codes ----------

/// The four digits of a one-time code, drawn as `n`.
pub open spec fn code_of(n: u16) -> Seq<char> {
    zero_padded(decimal((n % 9000 + 1000) as nat), 4)
}

/// `rand::random::<u16>`. The number is random, so nothing is said of it.
#[verifier::external_body]
fn random_number() -> (r: u16) {
    rand::random::<u16>()
}

/// The number was drawn at random.
pub closed spec fn is_drawn(n: u16) -> bool {
    call_ensures(random_number, (), n)
}

/// Draws a number, and keeps that it is the one that was drawn.
fn drawn_by(draw: impl Fn() -> u16) -> (r: u16)
    requires
        call_requires(draw, ()),
    ensures
        call_ensures(draw, (), r),
{
    draw()
}

/// Writes a one-time code.
pub fn code_text(n: u16) -> (r: String)
    ensures
        r@ == code_of(n),
{
    padded_text((n % 9000 + 1000) as u64, 4)
}

/// The identifiers of those codes that have one.
pub open spec fn otp_ids(otps: Seq<Otp>) -> Seq<ObjectId>
    decreases otps.len(),
{
    if otps.len() == 0 {
        Seq::empty()
    } else {
        match otps.last().id {
            Some(id) => otp_ids(otps.drop_last()).push(id),
            None => otp_ids(otps.drop_last()),
        }
    }
}

fn ids_of(otps: &Vec<Otp>) -> (r: Vec<ObjectId>)
    ensures
        r@ == otp_ids(otps@),
{
    let mut ids: Vec<ObjectId> = Vec::new();
    let mut i: usize = 0;
    assert(otps@.take(0) =~= Seq::empty());
    while i < otps.len()
        invariant
            i <= otps@.len(),
            ids@ == otp_ids(otps@.take(i as int)),
        decreases otps@.len() - i,
    {
        assert(otps@.take(i + 1).drop_last() =~= otps@.take(i as int));
        assert(otps@.take(i + 1).last() == otps@[i as int]);
        match otps[i].id {
            Some(id) => ids.push(id),
            None => {},
        }
        i += 1;
    }
    assert(otps@.take(i as int) =~= otps@);
    ids
}

/// The last code is a day old.
pub open spec fn is_stale(otps: Seq<Otp>, now: UtcTime) -> bool {
    &&& otps.len() > 0
    &&& otps.last().createdAt matches Some(created)
    &&& ({
        let (secs, nanos) = created.later(DAY as int);
        secs < now.secs || (secs == now.secs && nanos <= now.nanos)
    })
}

/// Another code may be sent: there is none, or there are fewer than five and
/// the pause after the last one is over.
pub open spec fn may_send(otps: Seq<Otp>, now: UtcTime) -> bool {
    otps.len() == 0 || (otps.len() < 5 && match otps.last().spam {
        Some(spam) => spam.before(now),
        None => true,
    })
}

/// Why no other code may be sent.
pub open spec fn send_refused(otps: Seq<Otp>, now: UtcTime) -> Reply {
    if otps.len() >= 5 {
        says_code(
            BAD_REQUEST,
            "Maximum number of otp codes exceeded, please try again after 24 hours!",
            3,
        )
    } else {
        plain(
            BAD_REQUEST,
            Body::OtpWait {
                spam: match otps.last().spam {
                    Some(spam) => spam,
                    None => now,
                },
            },
        )
    }
}

/// `otp` is the record of a code with this hash that is sent at `now`: it
/// lasts an hour, and no other is sent for two minutes.
pub open spec fn is_otp(otp: Otp, user: ObjectId, hash: String, now: UtcTime) -> bool {
    &&& otp.id is None
    &&& otp.userId@ == hex_form(user@)
    &&& otp.otp == hash
    &&& otp.createdAt == Some(now)
    &&& otp.expiresAt matches Some(t) && (t.secs as int, t.nanos as int) == now.later(HOUR as int)
    &&& otp.spam matches Some(t) && (t.secs as int, t.nanos as int) == now.later(120)
}

/// A code is accepted: it is that of the last record, which has not expired.
pub open spec fn otp_accepted(otps: Seq<Otp>, code: Seq<char>, now: UtcTime) -> bool {
    &&& otps.len() > 0
    &&& bcrypt_matches(code, otps.last().otp@) == Some(true)
    &&& otps.last().expiresAt matches Some(e)
    &&& now.before(e)
}

/// What the request for a code waits for.
pub enum FindCode {
    /// Whether the client may try.
    ClientLimit { payload: FindUserReq },
    /// Whether the account may be tried.
    AccountLimit { payload: FindUserReq },
    /// The account.
    User { payload: FindUserReq },
    /// The second factor of the account.
    Tfa { payload: FindUserReq, user: User, uid: ObjectId },
    /// The codes of the account.
    Otps { user: User, uid: ObjectId },
    /// The removal of old codes.
    Cleanup { user: User, uid: ObjectId, otps: Vec<Otp> },
    /// The mail relay.
    Relay { to: String, html: String, otp: Otp, uid: ObjectId },
    /// The mail.
    Send { otp: Otp, uid: ObjectId },
    /// The record of the code.
    Insert { uid: ObjectId },
}

pub const CODE_SENT: &'static str = "If an account with this email exists, the code will be sent";

/// Sends a one-time code to the owner of an account. The reply does not tell
/// whether there is such an account.
pub fn find_and_send_code(headers: &Headers, payload: FindUserReq) -> (r: Step<FindCode, Reply>)
    ensures
        r matches Step::Ask(action, FindCode::ClientLimit { payload: p }) && limits_client(
            action,
            *headers,
            "find-user"@,
            10,
        ) && p == payload,
{
    Step::Ask(enforce_rate_limit(headers, "find-user", 10), FindCode::ClientLimit { payload })
}

/// The code is asked for to remove the second factor.
pub open spec fn removes_tfa(payload: FindUserReq) -> bool {
    payload.remove2FA matches Some(t) && t@ == "2fa"@
}

fn is_removal(payload: &FindUserReq) -> (r: bool)
    ensures
        r == removes_tfa(*payload),
{
    match &payload.remove2FA {
        Some(t) => same(t.as_str(), "2fa"),
        None => false,
    }
}

/// The account wants its second factor used to reset the password.
pub open spec fn resets_with_tfa(event: Event) -> bool {
    event matches Event::Tfa(Some(tfa)) && tfa.options matches Some(o) && o.useToResetPass == Some(
        true,
    )
}

fn wants_tfa_reset(event: Event) -> (r: bool)
    ensures
        r == resets_with_tfa(event),
{
    match event {
        Event::Tfa(Some(tfa)) => match tfa.options {
            Some(o) => match o.useToResetPass {
                Some(b) => b,
                None => false,
            },
            None => false,
        },
        _ => false,
    }
}

/// `r` asks for the codes of an account.
pub open spec fn asks_codes(r: Step<FindCode, Reply>, user: User, uid: ObjectId) -> bool {
    r matches Step::Ask(Action::OtpsOf(t), FindCode::Otps { user: u, uid: i }) && t@ == hex_form(
        uid@,
    ) && u == user && i == uid
}

fn ask_codes(user: User, uid: ObjectId) -> (r: Step<FindCode, Reply>)
    ensures
        asks_codes(r, user, uid),
{
    Step::Ask(Action::OtpsOf(uid.to_hex()), FindCode::Otps { user, uid })
}

/// `r` sends the code drawn as `n`, which has the hash, and records it. Without
/// a mail host nothing is sent.
pub open spec fn is_issue_step(
    r: Step<FindCode, Reply>,
    n: u16,
    hash: Option<String>,
    user: User,
    uid: ObjectId,
    app: AppState,
    now: UtcTime,
) -> bool {
    match hash {
        None => r == Step::<FindCode, Reply>::Done(internal_failed()),
        Some(h) => if app.mail_host@.len() == 0 {
            r matches Step::Ask(Action::InsertOtp(otp), FindCode::Insert { uid: i }) && is_otp(
                otp,
                uid,
                h,
                now,
            ) && i == uid
        } else {
            r matches Step::Ask(
                Action::MailRelay { host },
                FindCode::Relay { to, html, otp, uid: i },
            ) && host == app.mail_host && to == user.email && html@ == mail_page(
                code_of(n),
                user.name@,
            ) && is_otp(otp, uid, h, now) && i == uid
        },
    }
}

/// Sends and records a code by its number and its hash.
pub fn issue_code(
    n: u16,
    hash: Option<String>,
    user: User,
    uid: ObjectId,
    app: &AppState,
    now: UtcTime,
) -> (r: Step<FindCode, Reply>)
    requires
        now.is_clock(),
    ensures
        is_issue_step(r, n, hash, user, uid, *app, now),
{
    let h = match hash {
        Some(h) => h,
        None => {
            return Step::Done(internal_err());
        },
    };
    let otp = Otp {
        id: None,
        userId: uid.to_hex(),
        otp: h,
        createdAt: Some(now),
        expiresAt: Some(now.plus(HOUR)),
        spam: Some(now.plus(120)),
    };
    if app.mail_host.as_str().unicode_len() == 0 {
        return Step::Ask(Action::InsertOtp(otp), FindCode::Insert { uid });
    }
    let code = code_text(n);
    let html = mail_html(code.as_str(), user.name.as_str());
    Step::Ask(
        Action::MailRelay { host: app.mail_host.clone() },
        FindCode::Relay { to: user.email, html, otp, uid },
    )
}

/// `hash` is what hashing the code drawn as `n` gives.
pub open spec fn hashes_code(n: u16, hash: Option<String>) -> bool {
    match hash {
        Some(h) => bcrypt_matches(code_of(n), h@) == Some(true),
        None => hash_failed(code_of(n)),
    }
}

/// `r` is what follows once the codes of an account are known: a refusal, or a
/// code that is drawn at random.
pub open spec fn is_codes_step(
    r: Step<FindCode, Reply>,
    otps: Seq<Otp>,
    user: User,
    uid: ObjectId,
    app: AppState,
    now: UtcTime,
) -> bool {
    if may_send(otps, now) {
        exists|n: u16, hash: Option<String>|
            is_drawn(n) && hashes_code(n, hash) && #[trigger] is_issue_step(
                r,
                n,
                hash,
                user,
                uid,
                app,
                now,
            )
    } else {
        r == Step::<FindCode, Reply>::Done(send_refused(otps, now))
    }
}

fn after_codes(otps: &Vec<Otp>, user: User, uid: ObjectId, app: &AppState, now: UtcTime) -> (r:
    Step<FindCode, Reply>)
    requires
        now.is_clock(),
    ensures
        is_codes_step(r, otps@, user, uid, *app, now),
{
    let len = otps.len();
    if len > 0 {
        let spam = otps[len - 1].spam;
        let paused = match &spam {
            Some(s) => !s.is_before(&now),
            None => false,
        };
        if len >= 5 {
            return Step::Done(
                coded(
                    BAD_REQUEST,
                    "Maximum number of otp codes exceeded, please try again after 24 hours!",
                    3,
                ),
            );
        }
        if paused {
            let until = match spam {
                Some(s) => s,
                None => now,
            };
            return Step::Done(reply(BAD_REQUEST, Body::OtpWait { spam: until }));
        }
    }
    let n: u16 = drawn_by(random_number);
    let code = code_text(n);
    let hash = hash_password(code.as_str());
    let r = issue_code(n, hash, user, uid, app, now);
    assert(hashes_code(n, hash));
    r
}

impl FindCode {
    /// `r` is what follows an answer.
    pub open spec fn next(
        self,
        app: AppState,
        event: Event,
        now: UtcTime,
        r: Step<FindCode, Reply>,
    ) -> bool {
        match self {
            FindCode::ClientLimit { payload } => if event is Allowed {
                r matches Step::Ask(action, FindCode::AccountLimit { payload: p })
                    && limits_account(action, "find-user-acct"@, payload.email@, 5) && p == payload
            } else {
                r == Step::<FindCode, Reply>::Done(limited())
            },
            FindCode::AccountLimit { payload } => r == if event is Allowed {
                Step::Ask(Action::UserByEmail(payload.email), FindCode::User { payload })
            } else {
                Step::Done(limited())
            },
            FindCode::User { payload } => match event {
                Event::User(None) => r == Step::<FindCode, Reply>::Done(
                    says_code(OK, CODE_SENT, 1),
                ),
                Event::User(Some(user)) => match user.id {
                    None => r == Step::<FindCode, Reply>::Done(internal_failed()),
                    Some(uid) => match user.tfa_status {
                        Some(tfa) => r == Step::Ask::<FindCode, Reply>(
                            Action::TfaById(tfa),
                            FindCode::Tfa { payload, user, uid },
                        ),
                        None => if removes_tfa(payload) {
                            r == Step::<FindCode, Reply>::Done(says(OK, CODE_SENT))
                        } else {
                            asks_codes(r, user, uid)
                        },
                    },
                },
                _ => r == Step::<FindCode, Reply>::Done(db_failed(BAD_REQUEST)),
            },
            FindCode::Tfa { payload, user, uid } => if resets_with_tfa(event) && !removes_tfa(
                payload,
            ) {
                r == Step::<FindCode, Reply>::Done(plain(OK, Body::ResetWithTfa { user: uid }))
            } else {
                asks_codes(r, user, uid)
            },
            FindCode::Otps { user, uid } => match event {
                Event::Otps(otps) => if is_stale(otps@, now) {
                    r matches Step::Ask(
                        Action::DeleteOtps { user_id, ids },
                        FindCode::Cleanup { user: u, uid: i, otps: o },
                    ) && user_id@ == hex_form(uid@) && ids@ == otp_ids(otps@) && u == user && i
                        == uid && o == otps
                } else {
                    is_codes_step(r, otps@, user, uid, app, now)
                },
                _ => r == Step::<FindCode, Reply>::Done(db_failed(BAD_REQUEST)),
            },
            FindCode::Cleanup { user, uid, otps } => if event is Done {
                is_codes_step(r, otps@, user, uid, app, now)
            } else {
                r == Step::<FindCode, Reply>::Done(db_failed(BAD_REQUEST))
            },
            FindCode::Relay { to, html, otp, uid } => r == if !(event is Done) {
                Step::Done(
                    says_code(INTERNAL_SERVER_ERROR, "Internal error, please try again later", 2),
                )
            } else if !is_mailbox(app.mail_from@) || !is_mailbox(to@) {
                Step::Done(internal_failed())
            } else {
                Step::Ask(
                    Action::SendMail {
                        from: app.mail_from,
                        to,
                        subject: "Noap OTP code verification",
                        html,
                    },
                    FindCode::Send { otp, uid },
                )
            },
            FindCode::Send { otp, uid } => r == Step::Ask::<FindCode, Reply>(
                Action::InsertOtp(otp),
                FindCode::Insert { uid },
            ),
            FindCode::Insert { uid } => r == Step::<FindCode, Reply>::Done(
                if event is Done {
                    plain(OK, Body::OtpSent { user: uid })
                } else {
                    db_failed(BAD_REQUEST)
                },
            ),
        }
    }
}

impl Flow for FindCode {
    type Out = Reply;

    open spec fn ready(self) -> bool {
        true
    }

    fn resume(self, app: &AppState, event: Event, now: UtcTime) -> (r: Step<FindCode, Reply>)
        ensures
            self.next(*app, event, now, r),
    {
        match self {
            FindCode::ClientLimit { payload } => match event {
                Event::Allowed => Step::Ask(
                    enforce_rate_limit_key("find-user-acct", payload.email.as_str(), 5),
                    FindCode::AccountLimit { payload },
                ),
                _ => Step::Done(too_many()),
            },
            FindCode::AccountLimit { payload } => match event {
                Event::Allowed => Step::Ask(
                    Action::UserByEmail(payload.email.clone()),
                    FindCode::User { payload },
                ),
                _ => Step::Done(too_many()),
            },
            FindCode::User { payload } => match event {
                Event::User(None) => Step::Done(coded(OK, CODE_SENT, 1)),
                Event::User(Some(user)) => match user.id {
                    None => Step::Done(internal_err()),
                    Some(uid) => match user.tfa_status {
                        Some(tfa) => Step::Ask(
                            Action::TfaById(tfa),
                            FindCode::Tfa { payload, user, uid },
                        ),
                        None => if is_removal(&payload) {
                            Step::Done(message(OK, CODE_SENT))
                        } else {
                            ask_codes(user, uid)
                        },
                    },
                },
                _ => Step::Done(db_error(BAD_REQUEST)),
            },
            FindCode::Tfa { payload, user, uid } => {
                if wants_tfa_reset(event) && !is_removal(&payload) {
                    Step::Done(reply(OK, Body::ResetWithTfa { user: uid }))
                } else {
                    ask_codes(user, uid)
                }
            },
            FindCode::Otps { user, uid } => match event {
                Event::Otps(otps) => {
                    let stale = if otps.len() > 0 {
                        match &otps[otps.len() - 1].createdAt {
                            Some(created) => created.passed_by(DAY, &now),
                            None => false,
                        }
                    } else {
                        false
                    };
                    if stale {
                        let ids = ids_of(&otps);
                        Step::Ask(
                            Action::DeleteOtps { user_id: uid.to_hex(), ids },
                            FindCode::Cleanup { user, uid, otps },
                        )
                    } else {
                        after_codes(&otps, user, uid, app, now)
                    }
                },
                _ => Step::Done(db_error(BAD_REQUEST)),
            },
            FindCode::Cleanup { user, uid, otps } => match event {
                Event::Done => after_codes(&otps, user, uid, app, now),
                _ => Step::Done(db_error(BAD_REQUEST)),
            },
            FindCode::Relay { to, html, otp, uid } => match event {
                Event::Done => {
                    if !reads_as_mailbox(app.mail_from.as_str()) || !reads_as_mailbox(to.as_str()) {
                        return Step::Done(internal_err());
                    }
                    Step::Ask(
                        Action::SendMail {
                            from: app.mail_from.clone(),
                            to,
                            subject: "Noap OTP code verification",
                            html,
                        },
                        FindCode::Send { otp, uid },
                    )
                },
                _ => Step::Done(
                    coded(INTERNAL_SERVER_ERROR, "Internal error, please try again later", 2),
                ),
            },
            FindCode::Send { otp, uid } => Step::Ask(
                Action::InsertOtp(otp),
                FindCode::Insert { uid },
            ),
            FindCode::Insert { uid } => match event {
                Event::Done => Step::Done(reply(OK, Body::OtpSent { user: uid })),
                _ => Step::Done(db_error(BAD_REQUEST)),
            },
        }
    }
}

// ---------- the check of a code ----------

/// What the check of a code waits for.
pub enum VerifyOtp {
    /// Whether the client may try.
    ClientLimit { payload: VerifyOtpReq },
    /// Whether the account may be tried.
    AccountLimit { payload: VerifyOtpReq },
    /// The codes of the account.
    Otps { payload: VerifyOtpReq },
    /// The removal of the codes.
    Delete { user_id: String },
}

/// Trades a one-time code for a proof of email ownership.
pub fn verify_otp(headers: &Headers, payload: VerifyOtpReq) -> (r: Step<VerifyOtp, Reply>)
    ensures
        r matches Step::Ask(action, VerifyOtp::ClientLimit { payload: p }) && limits_client(
            action,
            *headers,
            "verify-otp"@,
            10,
        ) && p == payload,
{
    Step::Ask(enforce_rate_limit(headers, "verify-otp", 10), VerifyOtp::ClientLimit { payload })
}

pub const WRONG_CODE: &'static str = "Wrong OTP code, please try again!";

/// `reply` gives a proof of email ownership for `user_id`.
pub open spec fn is_reset_reply(
    reply: Reply,
    user_id: Seq<char>,
    secret: Seq<char>,
    now: UtcTime,
) -> bool {
    reply.body matches Body::OtpVerified { reset_token } && reply == plain(OK, reply.body)
        && is_token_text(reset_token@) && jwt_claims(reset_token@, secret) == Some(
        purpose_json(user_id, "reset"@, (now.secs + RESET_TOKEN_SECS) as u64),
    )
}

impl VerifyOtp {
    /// `r` is what follows an answer. All codes of the account go with the one
    /// that was accepted.
    pub open spec fn next(
        self,
        app: AppState,
        event: Event,
        now: UtcTime,
        r: Step<VerifyOtp, Reply>,
    ) -> bool {
        match self {
            VerifyOtp::ClientLimit { payload } => if event is Allowed {
                r matches Step::Ask(action, VerifyOtp::AccountLimit { payload: p })
                    && limits_account(action, "verify-otp-acct"@, payload.userId@, 10) && p
                    == payload
            } else {
                r == Step::<VerifyOtp, Reply>::Done(limited())
            },
            VerifyOtp::AccountLimit { payload } => r == if event is Allowed {
                Step::Ask(Action::OtpsOf(payload.userId), VerifyOtp::Otps { payload })
            } else {
                Step::Done(limited())
            },
            VerifyOtp::Otps { payload } => match event {
                Event::Otps(otps) => if !otp_accepted(otps@, payload.otp@, now) {
                    r == Step::<VerifyOtp, Reply>::Done(says(BAD_REQUEST, WRONG_CODE))
                } else if otps@.len() > 1 {
                    r matches Step::Ask(
                        Action::DeleteOtps { user_id, ids },
                        VerifyOtp::Delete { user_id: u },
                    ) && user_id == payload.userId && ids@ == otp_ids(otps@) && u
                        == payload.userId
                } else {
                    r == match otps@.last().id {
                        Some(id) => Step::Ask::<VerifyOtp, Reply>(
                            Action::DeleteOtp(id),
                            VerifyOtp::Delete { user_id: payload.userId },
                        ),
                        None => Step::Done(internal_failed()),
                    }
                },
                _ => r == Step::<VerifyOtp, Reply>::Done(db_failed(BAD_REQUEST)),
            },
            VerifyOtp::Delete { user_id } => if event is Done {
                r matches Step::Done(reply) && is_reset_reply(
                    reply,
                    user_id@,
                    app.jwt_secret@,
                    now,
                )
            } else {
                r == Step::<VerifyOtp, Reply>::Done(db_failed(BAD_REQUEST))
            },
        }
    }
}

impl Flow for VerifyOtp {
    type Out = Reply;

    open spec fn ready(self) -> bool {
        true
    }

    fn resume(self, app: &AppState, event: Event, now: UtcTime) -> (r: Step<VerifyOtp, Reply>)
        ensures
            self.next(*app, event, now, r),
    {
        match self {
            VerifyOtp::ClientLimit { payload } => match event {
                Event::Allowed => Step::Ask(
                    enforce_rate_limit_key("verify-otp-acct", payload.userId.as_str(), 10),
                    VerifyOtp::AccountLimit { payload },
                ),
                _ => Step::Done(too_many()),
            },
            VerifyOtp::AccountLimit { payload } => match event {
                Event::Allowed => Step::Ask(
                    Action::OtpsOf(payload.userId.clone()),
                    VerifyOtp::Otps { payload },
                ),
                _ => Step::Done(too_many()),
            },
            VerifyOtp::Otps { payload } => match event {
                Event::Otps(otps) => {
                    let len = otps.len();
                    if len == 0 {
                        return Step::Done(message(BAD_REQUEST, WRONG_CODE));
                    }
                    let last = &otps[len - 1];
                    let ok = match verify_password(payload.otp.as_str(), last.otp.as_str()) {
                        Some(b) => b,
                        None => false,
                    };
                    let live = match &last.expiresAt {
                        Some(e) => now.is_before(e),
                        None => false,
                    };
                    if !ok || !live {
                        return Step::Done(message(BAD_REQUEST, WRONG_CODE));
                    }
                    if len > 1 {
                        let ids = ids_of(&otps);
                        let user_id = payload.userId.clone();
                        return Step::Ask(
                            Action::DeleteOtps { user_id, ids },
                            VerifyOtp::Delete { user_id: payload.userId },
                        );
                    }
                    match last.id {
                        Some(id) => Step::Ask(
                            Action::DeleteOtp(id),
                            VerifyOtp::Delete { user_id: payload.userId },
                        ),
                        None => Step::Done(internal_err()),
                    }
                },
                _ => Step::Done(db_error(BAD_REQUEST)),
            },
            VerifyOtp::Delete { user_id } => match event {
                Event::Done => match create_reset_token(
                    user_id.as_str(),
                    app.jwt_secret.as_str(),
                    now,
                ) {
                    Ok(reset_token) => Step::Done(reply(OK, Body::OtpVerified { reset_token })),
                    Err(_) => Step::Done(internal_err()),
                },
                _ => Step::Done(db_error(BAD_REQUEST)),
            },
        }
    }
}

// ---------- what a proof of ownership authorizes ----------

/// A caller may act for an account: the session is the account's, or, without
/// a session, a reset token proves ownership. A bare identifier is no
/// authorization.
pub open spec fn is_authorized(
    owner: Option<String>,
    user_id: Seq<char>,
    reset_token: Option<String>,
    secret: Seq<char>,
    now: UtcTime,
) -> bool {
    match owner {
        Some(o) => o@ == user_id,
        None => match reset_token {
            Some(t) => purpose_owner(t@, secret, "reset"@, now) == Some(user_id),
            None => false,
        },
    }
}

/// Whether a caller may act for an account.
pub fn may_act_for(
    owner: &Option<String>,
    user_id: &str,
    reset_token: &Option<String>,
    secret: &str,
    now: UtcTime,
) -> (r: bool)
    ensures
        r == is_authorized(*owner, user_id@, *reset_token, secret@, now),
{
    match owner {
        Some(o) => same(o.as_str(), user_id),
        None => match reset_token {
            Some(t) => match verify_reset_token(t.as_str(), secret, now) {
                Some(u) => same(u.as_str(), user_id),
                None => false,
            },
            None => false,
        },
    }
}

/// What a new password waits for.
pub enum ChangePassword {
    /// Whose session the request has.
    Owner { session: BearerSession, payload: ChangePassReq },
    /// The account.
    User { payload: ChangePassReq, uid: ObjectId },
    /// The change.
    Update,
}

pub const NO_SUCH_USER: &'static str = "User not found, please try again or later!";

/// What follows once it is known whose session the request has.
pub open spec fn change_owned(
    owner: Option<String>,
    payload: ChangePassReq,
    app: AppState,
    now: UtcTime,
) -> Step<ChangePassword, Reply> {
    if !is_authorized(owner, payload.userId@, payload.resetToken, app.jwt_secret@, now) {
        Step::Done(denied())
    } else if !is_password(payload.password@) {
        Step::Done(says(BAD_REQUEST, "Password must be between 6 and 128 characters!"))
    } else if !is_object_id(payload.userId@) {
        Step::Done(says(BAD_REQUEST, NO_SUCH_USER))
    } else {
        Step::Ask(
            Action::UserById(object_id_of(payload.userId@)),
            ChangePassword::User { payload, uid: object_id_of(payload.userId@) },
        )
    }
}

fn change_of(owner: Option<String>, payload: ChangePassReq, app: &AppState, now: UtcTime) -> (r:
    Step<ChangePassword, Reply>)
    ensures
        r == change_owned(owner, payload, *app, now),
{
    if !may_act_for(
        &owner,
        payload.userId.as_str(),
        &payload.resetToken,
        app.jwt_secret.as_str(),
        now,
    ) {
        return Step::Done(message(UNAUTHORIZED, "Access denied, sign in again"));
    }
    match validate_password(payload.password.as_str()) {
        Err(e) => {
            return Step::Done(e);
        },
        Ok(_) => {},
    }
    match object_id_from_str(payload.userId.as_str()) {
        None => Step::Done(message(BAD_REQUEST, NO_SUCH_USER)),
        Some(uid) => Step::Ask(Action::UserById(uid), ChangePassword::User { payload, uid }),
    }
}

/// `r` is what follows once it is known whether the request has a session, or
/// asks for it.
pub open spec fn is_change_start(
    r: Step<ChangePassword, Reply>,
    start: Step<BearerSession, Option<String>>,
    payload: ChangePassReq,
    app: AppState,
    now: UtcTime,
) -> bool {
    r == match start {
        Step::Done(owner) => change_owned(owner, payload, app, now),
        Step::Ask(action, session) => Step::Ask(action, ChangePassword::Owner { session, payload }),
    }
}

/// Changes the password of an account, for its live session or for a reset
/// token.
pub fn change_password(headers: &Headers, payload: ChangePassReq, app: &AppState, now: UtcTime) -> (r:
    Step<ChangePassword, Reply>)
    requires
        now.is_clock(),
    ensures
        exists|start: Step<BearerSession, Option<String>>|
            is_bearer_start(start, *headers, app.jwt_secret@, now) && #[trigger] is_change_start(
                r,
                start,
                payload,
                *app,
                now,
            ),
{
    let start = bearer_session_user(headers, app, now);
    let ghost (s, p) = (start, payload);
    let r = match start {
        Step::Done(owner) => change_of(owner, payload, app, now),
        Step::Ask(action, session) => Step::Ask(action, ChangePassword::Owner { session, payload }),
    };
    assert(is_change_start(r, s, p, *app, now));
    r
}

/// Stores the hash of a new password.
pub fn store_password(uid: ObjectId, hash: Option<String>) -> (r: Step<ChangePassword, Reply>)
    ensures
        r == match hash {
            None => Step::Done(internal_failed()),
            Some(h) => Step::Ask(
                Action::UpdateUser(uid, UserChange::Password(h)),
                ChangePassword::Update,
            ),
        },
{
    match hash {
        None => Step::Done(internal_err()),
        Some(h) => Step::Ask(
            Action::UpdateUser(uid, UserChange::Password(h)),
            ChangePassword::Update,
        ),
    }
}

impl ChangePassword {
    /// `r` is what follows an answer. The password stays as it is only where
    /// hashing the new one failed.
    pub open spec fn next(
        self,
        app: AppState,
        event: Event,
        now: UtcTime,
        r: Step<ChangePassword, Reply>,
    ) -> bool {
        match self {
            ChangePassword::Owner { session, payload } => r == change_owned(
                session.owner(event, now),
                payload,
                app,
                now,
            ),
            ChangePassword::User { payload, uid } => match event {
                Event::User(Some(_)) => {
                    ||| hash_failed(payload.password@) && r == Step::<ChangePassword, Reply>::Done(
                        internal_failed(),
                    )
                    ||| r matches Step::Ask(
                        Action::UpdateUser(i, UserChange::Password(h)),
                        ChangePassword::Update,
                    ) && i == uid && bcrypt_matches(payload.password@, h@) == Some(true)
                },
                Event::User(None) => r == Step::<ChangePassword, Reply>::Done(
                    says(BAD_REQUEST, NO_SUCH_USER),
                ),
                _ => r == Step::<ChangePassword, Reply>::Done(db_failed(BAD_REQUEST)),
            },
            ChangePassword::Update => r == Step::<ChangePassword, Reply>::Done(
                if event is Done {
                    says(OK, "Password changed!")
                } else {
                    db_failed(BAD_REQUEST)
                },
            ),
        }
    }
}

impl Flow for ChangePassword {
    type Out = Reply;

    open spec fn ready(self) -> bool {
        true
    }

    fn resume(self, app: &AppState, event: Event, now: UtcTime) -> (r: Step<ChangePassword, Reply>)
        ensures
            self.next(*app, event, now, r),
    {
        match self {
            ChangePassword::Owner { session, payload } => change_of(
                session.finish(event, now),
                payload,
                app,
                now,
            ),
            ChangePassword::User { payload, uid } => match event {
                Event::User(Some(_)) => store_password(
                    uid,
                    hash_password(payload.password.as_str()),
                ),
                Event::User(None) => Step::Done(message(BAD_REQUEST, NO_SUCH_USER)),
                _ => Step::Done(db_error(BAD_REQUEST)),
            },
            ChangePassword::Update => match event {
                Event::Done => Step::Done(message(OK, "Password changed!")),
                _ => Step::Done(db_error(BAD_REQUEST)),
            },
        }
    }
}

/// The proof that a one-time code was traded for authorizes its holder to act
/// for the account for fifteen minutes, for no other account, and no longer.
pub proof fn law_verified_code_authorizes(
    answer: Reply,
    user_id: Seq<char>,
    other: Seq<char>,
    secret: Seq<char>,
    proved: UtcTime,
    now: UtcTime,
)
    requires
        proved.is_clock(),
        is_reset_reply(answer, user_id, secret, proved),
    ensures
        answer.body matches Body::OtpVerified { reset_token } && is_authorized(
            None,
            other,
            Some(reset_token),
            secret,
            now,
        ) == (other == user_id && now.secs <= proved.secs + RESET_TOKEN_SECS),
{
    let token = answer.body->reset_token@;
    law_purpose_token_lasts(
        token,
        secret,
        user_id,
        "reset"@,
        (proved.secs + RESET_TOKEN_SECS) as u64,
        now,
    );
}

/// The token of a pending second factor does not authorize anything.
pub proof fn law_pending_factor_authorizes_nothing(
    token: String,
    secret: Seq<char>,
    user_id: Seq<char>,
    exp: u64,
    other: Seq<char>,
    now: UtcTime,
)
    requires
        jwt_claims(token@, secret) == Some(purpose_json(user_id, "tfa"@, exp)),
    ensures
        !is_authorized(None, other, Some(token), secret, now),
{
    reveal_strlit("tfa");
    reveal_strlit("reset");
    assert("tfa"@.len() == 3 && "reset"@.len() == 5);
    law_purposes_are_apart(token@, secret, user_id, "tfa"@, "reset"@, exp, now);
}

/// A new password lets its owner in.
pub proof fn law_changed_password_is_accepted(
    payload: ChangePassReq,
    uid: ObjectId,
    app: AppState,
    event: Event,
    now: UtcTime,
    id: ObjectId,
    hash: String,
)
    requires
        (ChangePassword::User { payload, uid }).next(
            app,
            event,
            now,
            Step::Ask(Action::UpdateUser(id, UserChange::Password(hash)), ChangePassword::Update),
        ),
    ensures
        id == uid,
        bcrypt_matches(payload.password@, hash@) == Some(true),
{
}

// ---------- laws of codes ----------

/// A code that was sent is accepted for an hour, and not after it.
pub proof fn law_sent_code_is_accepted_for_an_hour(
    otps: Seq<Otp>,
    user: ObjectId,
    n: u16,
    hash: String,
    sent: UtcTime,
    now: UtcTime,
)
    requires
        otps.len() > 0,
        sent.is_clock(),
        hashes_code(n, Some(hash)),
        is_otp(otps.last(), user, hash, sent),
    ensures
        otp_accepted(otps, code_of(n), now) == (now.secs < sent.secs + HOUR || (now.secs
            == sent.secs + HOUR && now.nanos < sent.nanos)),
{
}

/// A record is removed by an action.
pub open spec fn removes(action: Action, otp: Otp) -> bool {
    match action {
        Action::DeleteOtps { ids, .. } => otp.id matches Some(id) && ids@.contains(id),
        Action::DeleteOtp(id) => otp.id == Some(id),
        _ => false,
    }
}

/// The records of an account that are left after an action.
pub open spec fn left_after(otps: Seq<Otp>, action: Action) -> Seq<Otp>
    decreases otps.len(),
{
    if otps.len() == 0 {
        otps
    } else if removes(action, otps.last()) {
        left_after(otps.drop_last(), action)
    } else {
        left_after(otps.drop_last(), action).push(otps.last())
    }
}

proof fn lemma_ids_listed(otps: Seq<Otp>)
    ensures
        forall|i: int|
            0 <= i < otps.len() && (#[trigger] otps[i]).id is Some ==> otp_ids(otps).contains(
                otps[i].id->0,
            ),
    decreases otps.len(),
{
    if otps.len() > 0 {
        let past = otps.drop_last();
        let ids = otp_ids(otps);
        lemma_ids_listed(past);
        assert forall|i: int| 0 <= i < otps.len() && (#[trigger] otps[i]).id is Some implies ids
            .contains(otps[i].id->0) by {
            if i < past.len() {
                assert(past[i] == otps[i]);
                let before = otp_ids(past);
                let k = choose|k: int| 0 <= k < before.len() && before[k] == otps[i].id->0;
                assert(ids[k] == before[k]);
            } else {
                assert(ids[ids.len() - 1] == otps[i].id->0);
            }
        }
    }
}

proof fn lemma_none_left(otps: Seq<Otp>, action: Action)
    requires
        forall|i: int| 0 <= i < otps.len() ==> removes(action, #[trigger] otps[i]),
    ensures
        left_after(otps, action).len() == 0,
    decreases otps.len(),
{
    if otps.len() > 0 {
        let past = otps.drop_last();
        assert(removes(action, otps[otps.len() - 1]));
        assert forall|i: int| 0 <= i < past.len() implies removes(action, #[trigger] past[i]) by {
            assert(removes(action, otps[i]));
        }
        lemma_none_left(past, action);
    }
}

/// A code is traded for a proof exactly where it is the one of the last record
/// of the account, which has not expired; any other is refused and leaves the
/// records as they are. The proof is for the account. All its records go with
/// the code, so that the same code is refused afterwards.
pub proof fn law_code_is_spent(
    payload: VerifyOtpReq,
    otps: Vec<Otp>,
    app: AppState,
    now: UtcTime,
    r: Step<VerifyOtp, Reply>,
    removed: UtcTime,
    answer: Step<VerifyOtp, Reply>,
    left: Vec<Otp>,
    again: UtcTime,
    second: Step<VerifyOtp, Reply>,
)
    requires
        forall|i: int| 0 <= i < otps@.len() ==> (#[trigger] otps@[i]).id is Some,
        (VerifyOtp::Otps { payload }).next(app, Event::Otps(otps), now, r),
        r matches Step::Ask(action, state) ==> state.next(app, Event::Done, removed, answer)
            && left@ == left_after(otps@, action) && (VerifyOtp::Otps { payload }).next(
            app,
            Event::Otps(left),
            again,
            second,
        ),
    ensures
        r is Ask <==> otps@.len() > 0 && bcrypt_matches(payload.otp@, otps@.last().otp@) == Some(
            true,
        ) && (otps@.last().expiresAt matches Some(e) && now.before(e)),
        r is Done ==> r == Step::<VerifyOtp, Reply>::Done(says(BAD_REQUEST, WRONG_CODE)),
        r is Ask ==> {
            &&& left@.len() == 0
            &&& answer matches Step::Done(reply) && is_reset_reply(
                reply,
                payload.userId@,
                app.jwt_secret@,
                removed,
            )
            &&& second == Step::<VerifyOtp, Reply>::Done(says(BAD_REQUEST, WRONG_CODE))
        },
{
    if otp_accepted(otps@, payload.otp@, now) {
        let action = r->Ask_0;
        lemma_ids_listed(otps@);
        assert forall|i: int| 0 <= i < otps@.len() implies removes(action, #[trigger] otps@[i]) by {
            assert(otps@[i].id is Some);
            if otps@.len() == 1 {
                assert(otps@[i] == otps@.last());
            }
        }
        lemma_none_left(otps@, action);
    }
}

/// No sixth code is sent while five are on record.
pub proof fn law_at_most_five_codes(otps: Seq<Otp>, now: UtcTime)
    requires
        may_send(otps, now),
    ensures
        otps.len() < 5,
{
}

/// A code has four digits.
pub proof fn law_code_has_four_digits(n: u16)
    ensures
        code_of(n).len() == 4,
        crate::numbers::is_digits(code_of(n)),
{
    let v: nat = (n % 9000 + 1000) as nat;
    crate::numbers::lemma_decimal_reads(v);
    crate::numbers::lemma_decimal_len(v);
    crate::numbers::lemma_padded_reads(decimal(v), 4);
}

/// The number of a code is one that the random number generator gave.
proof fn law_codes_are_drawn(n: u16)
    requires
        is_drawn(n),
    ensures
        call_ensures(random_number, (), n),
{
}

} // verus!
