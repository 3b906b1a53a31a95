//! Accounts: signing up and in, recovery, the second factor and settings.

use vstd::prelude::*;
#[allow(unused_imports)]
use vstd::string::*;
#[allow(unused_imports)]
use vstd::utf8::is_ascii_chars;

use crate::flow::{Action, Event, GoogleAnswer};
use crate::http::{message, Body, Cookie, Cookies, Headers, Reply, BAD_REQUEST, OK, TOO_MANY_REQUESTS, UNAUTHORIZED};
#[allow(unused_imports)]
use crate::http::says;
use crate::json::Json;
#[allow(unused_imports)]
use crate::json::JsonView;
use crate::models::{Bson, Session, User, UserSettings};
#[allow(unused_imports)]
use crate::models::no_settings;
use crate::object_id::ObjectId;
use crate::text::{eq_ignore_ascii_case, owned, same, to_lowercase, trim};
#[allow(unused_imports)]
use crate::text::{ascii_lowercase, ascii_uppercase, byte_len, is_ascii_alphanumeric, is_digit, is_whitespace, lemma_lowercase, lemma_lowercase_trimmed, lemma_trimmed_inside, lemma_trimmed_is_itself, lemma_trimmed_stays, lemma_trimmed_uppercase, lowercase, trimmed, uppercase};
use crate::time::UtcTime;
use crate::utils::cookies::SESSION_MAX_AGE_SECS;
use crate::utils::crypto::{create_token_at, JwtSub};
#[allow(unused_imports)]
use crate::utils::crypto::{is_token_text, jwt_claims, jwt_text, session_claims, session_expiry, session_json, token_claims, ClaimsView, JwtSubView, TokenError};
use crate::utils::flag::country_code_to_flag;
#[allow(unused_imports)]
use crate::utils::flag::flag_of;
use crate::utils::geo::GeoInfo;
#[allow(unused_imports)]
use crate::utils::geo::GeoView;
use crate::utils::ratelimit::{client_key, sanitized_key};
#[allow(unused_imports)]
use crate::utils::ratelimit::{at_most, client_identity, kept_chars, lemma_kept_chars, scoped_key};

pub mod account;
pub mod changed;
pub mod factors;
pub mod kept;
pub mod recovery;
pub mod refused;
pub mod removed;
pub mod renewed;
pub mod settings;
pub mod sign_in;
pub mod tfa;

pub use account::{convert_into_google, convert_into_normal, sign_out, verify_token, verify_user};
pub use recovery::{change_password, find_and_send_code, verify_otp};
pub use settings::{change_global_bg, change_theme, change_visualization, last_opened_note, note_text_expanded, on_login_go_to_last, show_pinned_in_folder};
pub use sign_in::{google_login, sign_in, sign_up};
pub use tfa::{generate_2fa_qrcode, remove_2fa, verify_2fa_code};

verus! {

// ---------- requests ----------

#[derive(Debug)]
pub struct SignUpReq {
    pub name: String,
    pub email: String,
    pub password: String,
}

#[derive(Debug)]
pub struct LoginReq {
    pub email: String,
    pub password: String,
    /// The address of the client, for the record of the session; may be empty.
    pub identifier: String,
}

#[derive(Debug)]
pub struct GoogleLoginReq {
    pub email: String,
    pub name: String,
    pub id: String,
    pub identifier: String,
    /// The token that proves the Google identity.
    pub access_token: String,
}

#[derive(Debug)]
pub struct VerifyTokenReq {
    /// A token of a client from before the cookies, accepted once to move it
    /// into one.
    pub token: String,
    pub identifier: String,
}

#[derive(Debug)]
pub struct ChangePassReq {
    pub userId: String,
    pub password: String,
    /// The proof of email ownership, for a caller without a session.
    pub resetToken: Option<String>,
}

#[derive(Debug)]
pub struct FindUserReq {
    pub email: String,
    pub remove2FA: Option<String>,
}

#[derive(Debug)]
pub struct VerifyOtpReq {
    pub userId: String,
    pub otp: String,
}

#[derive(Debug)]
pub struct Gen2FAReq {
    pub userId: String,
}

#[derive(Debug)]
pub struct Verify2FAReq {
    pub userId: String,
    pub tfa_code: String,
    /// The address of the client, for the record of the session.
    pub identifier: String,
}

#[derive(Debug)]
pub struct Remove2FAReq {
    pub userId: String,
    /// The proof of email ownership, for a caller without a session.
    pub resetToken: Option<String>,
}

#[derive(Debug)]
pub struct ConvertNormalReq {
    pub id: String,
    pub password: String,
}

#[derive(Debug)]
pub struct ConvertGoogleReq {
    pub _id: String,
    pub email: String,
    pub name: String,
    pub google_id: String,
}

#[derive(Debug)]
pub struct ConvertGoogleReq2 {
    pub _id: String,
    pub email: String,
    pub name: String,
    pub id: String,
}

#[derive(Debug)]
pub struct VerifyUserReq {
    pub _id: String,
    pub password: String,
}

#[derive(Debug)]
pub struct ThemeReq {
    pub theme: String,
}

#[derive(Debug)]
pub struct ConditionReq {
    pub condition: bool,
}

#[derive(Debug)]
pub struct GlobalBgReq {
    pub globalNoteBackgroundColor: String,
}

#[derive(Debug)]
pub struct VisualizationReq {
    pub visualization: String,
}

#[derive(Debug)]
pub struct OnLoginReq {
    pub onLoginGoToLastOpenedNote: bool,
}

#[derive(Debug)]
pub struct LastOpenedReq {
    pub lastOpenedNote: String,
}

#[derive(Debug)]
pub struct SignOutReq {
    pub userId: String,
    pub token: String,
}

// ---------- passwords ----------

/// A password of an accepted length, in bytes.
pub open spec fn is_password(password: Seq<char>) -> bool {
    6 <= byte_len(password) <= 128
}

/// Accepts a password by its length.
pub fn validate_password(password: &str) -> (r: Result<(), Reply>)
    ensures
        (r is Ok) == is_password(password@),
        r is Err ==> r->Err_0 == says(
            BAD_REQUEST,
            "Password must be between 6 and 128 characters!",
        ),
{
    if password.len() < 6 || password.len() > 128 {
        return Err(message(BAD_REQUEST, "Password must be between 6 and 128 characters!"));
    }
    Ok(())
}

// ---------- Google ----------

/// Why the answer of Google does not prove the claimed identity.
pub open spec fn google_refused(event: Event, email: Seq<char>, id: Seq<char>) -> Option<Reply> {
    match event {
        Event::Google(GoogleAnswer::User { email: e, id: i }) => if (e matches Some(t)
            && ascii_lowercase(t@) == ascii_lowercase(email)) && (i matches Some(t) && t@ == id) {
            None
        } else {
            Some(says(UNAUTHORIZED, "Google account mismatch, please try again"))
        },
        Event::Google(GoogleAnswer::Refused) => Some(
            says(UNAUTHORIZED, "Google verification failed, please try again"),
        ),
        _ => Some(says(UNAUTHORIZED, "Could not verify Google account, please try again")),
    }
}

/// Holds the answer of Google against the claimed identity. Without this,
/// anyone could sign in with the email of another.
pub fn verify_google_token(event: Event, expected_email: &str, expected_id: &str) -> (r: Option<
    Reply,
>)
    ensures
        r == google_refused(event, expected_email@, expected_id@),
{
    match event {
        Event::Google(GoogleAnswer::User { email, id }) => {
            let email_ok = match &email {
                Some(e) => eq_ignore_ascii_case(e.as_str(), expected_email),
                None => false,
            };
            let id_ok = match &id {
                Some(i) => same(i.as_str(), expected_id),
                None => false,
            };
            if email_ok && id_ok {
                None
            } else {
                Some(message(UNAUTHORIZED, "Google account mismatch, please try again"))
            }
        },
        Event::Google(GoogleAnswer::Refused) => Some(
            message(UNAUTHORIZED, "Google verification failed, please try again"),
        ),
        _ => Some(message(UNAUTHORIZED, "Could not verify Google account, please try again")),
    }
}

// ---------- budgets ----------

/// The window of all budgets: ten minutes.
pub const WINDOW_SECS: u64 = 600;

pub open spec fn limited() -> Reply {
    says(TOO_MANY_REQUESTS, "Too many attempts, please try again later")
}

/// The reply to a caller whose budget is spent.
pub fn too_many() -> (r: Reply)
    ensures
        r == limited(),
{
    message(TOO_MANY_REQUESTS, "Too many attempts, please try again later")
}

/// `action` counts an attempt of the client at `scope`.
pub open spec fn limits_client(
    action: Action,
    headers: Headers,
    scope: Seq<char>,
    max_attempts: u32,
) -> bool {
    action matches Action::Limit { key, max_attempts: m, window_secs } && key@ == scoped_key(
        scope,
        client_identity(headers),
        ".:_-"@,
        64,
    ) && m == max_attempts && window_secs == WINDOW_SECS
}

/// Counts an attempt of the client.
pub fn enforce_rate_limit(headers: &Headers, scope: &str, max_attempts: u32) -> (r: Action)
    ensures
        limits_client(r, *headers, scope@, max_attempts),
{
    Action::Limit {
        key: client_key(headers, scope),
        max_attempts,
        window_secs: WINDOW_SECS,
    }
}

/// The key under which the attempts against one account are counted, whoever
/// makes them.
pub open spec fn account_key(scope: Seq<char>, id: Seq<char>) -> Seq<char> {
    scoped_key(scope, lowercase(trimmed(id)), ".@_-"@, 128)
}

/// The key under which the attempts against one account are counted.
pub fn account_rate_key(scope: &str, id: &str) -> (r: String)
    ensures
        r@ == account_key(scope@, id@),
{
    let lower = to_lowercase(trim(id));
    sanitized_key(scope, lower.as_str(), ".@_-", 128)
}

/// What a key keeps of an account: at most 128 characters, and "unknown" where
/// nothing is kept.
pub open spec fn account_part(id: Seq<char>) -> Seq<char> {
    let clean = at_most(kept_chars(lowercase(trimmed(id)), ".@_-"@), 128);
    if clean.len() == 0 {
        "unknown"@
    } else {
        clean
    }
}

/// A character that a key may keep of an account.
pub open spec fn is_account_char(c: char) -> bool {
    'a' <= c <= 'z' || is_digit(c) || c == '.' || c == '@' || c == '_' || c == '-'
}

/// The key of an account is its scope and a canonical form of the account: one
/// to 128 lower-case letters, digits and marks. That form has the same key, and
/// so has the account in upper case and with white space around it. An account
/// with no such character is "unknown".
pub proof fn law_account_key_is_canonical(
    scope: Seq<char>,
    id: Seq<char>,
    before: Seq<char>,
    after: Seq<char>,
)
    ensures
        account_key(scope, id) == scope + ":"@ + account_part(id),
        1 <= account_part(id).len() <= 128,
        forall|i: int|
            0 <= i < account_part(id).len() ==> is_account_char(#[trigger] account_part(id)[i]),
        account_key(scope, account_part(id)) == account_key(scope, id),
        account_key(scope, ascii_uppercase(id)) == account_key(scope, id),
        (forall|i: int| 0 <= i < before.len() ==> is_whitespace(#[trigger] before[i])) && (forall|
            i: int,
        |
            0 <= i < after.len() ==> is_whitespace(#[trigger] after[i])) ==> account_key(
            scope,
            before + id + after,
        ) == account_key(scope, id),
        (forall|i: int|
            0 <= i < lowercase(id).len() ==> !is_account_char(#[trigger] lowercase(id)[i]))
            ==> account_part(id) == "unknown"@,
{
    let marks = ".@_-"@;
    reveal_strlit(".@_-");
    reveal_strlit("unknown");
    let lower = lowercase(trimmed(id));
    let kept = kept_chars(lower, marks);
    let part = account_part(id);
    lemma_trimmed_stays(id);
    lemma_lowercase(trimmed(id));
    lemma_kept_chars(lower, marks);
    assert(forall|c: char| #[trigger] marks.contains(c) ==> c == '.' || c == '@' || c == '_' || c
        == '-');
    assert(marks[0] == '.' && marks[1] == '@' && marks[2] == '_' && marks[3] == '-');
    assert forall|i: int| 0 <= i < kept.len() implies is_account_char(#[trigger] kept[i]) by {
        let j = choose|j: int| 0 <= j < lower.len() && lower[j] == kept[i];
        assert(!('A' <= lower[j] <= 'Z'));
    }
    assert forall|i: int| 0 <= i < part.len() implies is_account_char(#[trigger] part[i]) by {
        if kept.len() > 0 {
            assert(part[i] == kept[i]);
        }
    }
    lemma_account_part(part);
    lemma_trimmed_uppercase(id);
    if (forall|i: int| 0 <= i < before.len() ==> is_whitespace(#[trigger] before[i])) && (forall|
        i: int,
    |
        0 <= i < after.len() ==> is_whitespace(#[trigger] after[i])) {
        lemma_trimmed_inside(before, id, after);
    }
    if forall|i: int| 0 <= i < lowercase(id).len() ==> !is_account_char(#[trigger] lowercase(id)[i]) {
        lemma_lowercase_trimmed(id);
        assert forall|i: int| 0 <= i < lower.len() implies !is_ascii_alphanumeric(
            #[trigger] lower[i],
        ) && !marks.contains(lower[i]) by {
            let all = lowercase(id);
            let j = choose|j: int| 0 <= j < all.len() && all[j] == lower[i];
            assert(!is_account_char(all[j]));
            assert(!('A' <= lower[i] <= 'Z'));
        }
    }
}

/// A canonical account is what a key keeps of it.
proof fn lemma_account_part(part: Seq<char>)
    requires
        1 <= part.len() <= 128,
        forall|i: int| 0 <= i < part.len() ==> is_account_char(#[trigger] part[i]),
    ensures
        account_part(part) == part,
{
    let marks = ".@_-"@;
    reveal_strlit(".@_-");
    assert(marks[0] == '.' && marks[1] == '@' && marks[2] == '_' && marks[3] == '-');
    lemma_trimmed_is_itself(part);
    assert(is_ascii_chars(part));
    assert(ascii_lowercase(part) =~= part);
    lemma_kept_chars(part, marks);
}

/// `action` counts an attempt against an account.
pub open spec fn limits_account(
    action: Action,
    scope: Seq<char>,
    id: Seq<char>,
    max_attempts: u32,
) -> bool {
    action matches Action::Limit { key, max_attempts: m, window_secs } && key@ == account_key(
        scope,
        id,
    ) && m == max_attempts && window_secs == WINDOW_SECS
}

/// Counts an attempt against an account.
pub fn enforce_rate_limit_key(scope: &str, id: &str, max_attempts: u32) -> (r: Action)
    ensures
        limits_account(r, scope@, id@, max_attempts),
{
    Action::Limit {
        key: account_rate_key(scope, id),
        max_attempts,
        window_secs: WINDOW_SECS,
    }
}

// ---------- sessions ----------

/// What a session records of the client.
#[derive(Debug)]
pub struct SessionMeta {
    pub ua: String,
    pub identifier: String,
}

/// The name of the browser, "Unknown" where it gives none.
pub open spec fn agent_of(headers: Headers) -> Seq<char> {
    match headers.user_agent {
        Some(ua) => if ua@.len() == 0 {
            "Unknown"@
        } else {
            ua@
        },
        None => "Unknown"@,
    }
}

/// Reads the name of the browser.
pub fn user_agent(headers: &Headers) -> (r: String)
    ensures
        r@ == agent_of(*headers),
{
    match &headers.user_agent {
        Some(ua) => if ua.as_str().unicode_len() == 0 {
            owned("Unknown")
        } else {
            ua.clone()
        },
        None => owned("Unknown"),
    }
}

/// The token is that of a session of `sub` which starts at `now`: it is signed
/// with the secret, and reads back as the session's claims.
pub open spec fn is_session_token(
    token: Seq<char>,
    sub: JwtSubView,
    secret: Seq<char>,
    now: UtcTime,
) -> bool {
    &&& token == jwt_text(session_json(sub, session_expiry(now)), secret)
    &&& jwt_claims(token, secret) == Some(session_json(sub, session_expiry(now)))
    &&& is_token_text(token)
}

/// `s` is the record of a session that starts at `now`.
pub open spec fn is_new_session(
    s: Session,
    user: ObjectId,
    sub: JwtSubView,
    meta: SessionMeta,
    geo: GeoView,
    secret: Seq<char>,
    now: UtcTime,
) -> bool {
    &&& s.id is None
    &&& s.userId == user
    &&& is_session_token(s.token@, sub, secret, now)
    &&& s.expAt == now.secs + SESSION_MAX_AGE_SECS
    &&& s.ip@ == (if meta.identifier@.len() == 0 {
        "Unknown"@
    } else {
        meta.identifier@
    })
    &&& s.browserData@ == meta.ua@
    &&& s.location@ == geo.city + ", "@ + geo.state_prov + ", "@ + geo.country_name
    &&& s.countryFlag@ == flag_of(uppercase(geo.country_code))
    &&& s.deviceData matches Bson::Document(d) && d@ == JsonView::Object(
        seq![("ua"@, JsonView::Text(meta.ua@))],
    )
    &&& s.clientData@ == meta.ua@
    &&& s.createdAt == Some(now)
}

/// Makes the record of a session, with its token. The token goes into the
/// session cookie and into no body.
pub fn mint_session(
    user: ObjectId,
    sub: &JwtSub,
    meta: &SessionMeta,
    geo: &GeoInfo,
    secret: &str,
    now: UtcTime,
) -> (r: Option<Session>)
    requires
        now.is_clock(),
    ensures
        r is Some,
        is_new_session(r->0, user, sub@, *meta, geo@, secret@, now),
{
    let token = match create_token_at(sub, secret, now) {
        Ok(token) => token,
        Err(_) => {
            return None;
        },
    };
    let mut location = geo.city.clone();
    location.push_str(", ");
    location.push_str(geo.state_prov.as_str());
    location.push_str(", ");
    location.push_str(geo.country_name.as_str());
    let device = Json::Object(vec![(owned("ua"), Json::Text(meta.ua.clone()))]);
    proof {
        reveal_with_fuel(Json::view, 2);
        assert(device@->Object_0 =~= seq![("ua"@, JsonView::Text(meta.ua@))]);
    }
    let session = Session {
        id: None,
        userId: user,
        token,
        expAt: now.secs + SESSION_MAX_AGE_SECS,
        ip: if meta.identifier.as_str().unicode_len() == 0 {
            owned("Unknown")
        } else {
            meta.identifier.clone()
        },
        browserData: meta.ua.clone(),
        location,
        countryFlag: country_code_to_flag(geo.country_code.as_str()),
        deviceData: Bson::Document(device),
        clientData: meta.ua.clone(),
        createdAt: Some(now),
    };
    Some(session)
}

/// The reply that a new session is announced with: its cookie, and no other
/// trace of the token.
pub open spec fn is_session_reply(
    reply: Reply,
    token: Seq<char>,
    body: Body,
    clears_tfa: bool,
) -> bool {
    &&& reply.status == OK
    &&& reply.body == body
    &&& if clears_tfa {
        reply.cookies matches Cookies::Two(
            Cookie::Session { token: t, max_age_secs },
            Cookie::ClearTfa,
        ) && t@ == token && max_age_secs == SESSION_MAX_AGE_SECS
    } else {
        reply.cookies matches Cookies::One(Cookie::Session { token: t, max_age_secs }) && t@
            == token && max_age_secs == SESSION_MAX_AGE_SECS
    }
}

/// Announces a new session.
pub fn session_reply(token: String, body: Body, clears_tfa: bool) -> (r: Reply)
    ensures
        is_session_reply(r, token@, body, clears_tfa),
{
    let cookie = Cookie::Session { token, max_age_secs: SESSION_MAX_AGE_SECS };
    Reply {
        status: OK,
        cookies: if clears_tfa {
            Cookies::Two(cookie, Cookie::ClearTfa)
        } else {
            Cookies::One(cookie)
        },
        body,
    }
}

// ---------- new accounts ----------

/// The settings of a new account.
pub open spec fn is_new_settings(settings: Option<UserSettings>) -> bool {
    settings matches Some(s) && s.theme matches Some(t) && t@ == "dark"@ && s == (UserSettings {
        noteTextExpanded: Some(true),
        theme: s.theme,
        ..no_settings()
    })
}

/// Makes the settings of a new account.
pub fn new_settings() -> (r: Option<UserSettings>)
    ensures
        is_new_settings(r),
{
    let mut settings = UserSettings::default();
    settings.noteTextExpanded = Some(true);
    settings.theme = Some(owned("dark"));
    Some(settings)
}

/// The subject of a user.
pub open spec fn subject_of(user: User, id: ObjectId, google: bool) -> JwtSubView {
    JwtSubView {
        _id: crate::object_id::hex_form(id@),
        name: user.name@,
        googleAccount: google,
    }
}

/// Makes the subject of a user.
pub fn subject(user: &User, id: &ObjectId, google: bool) -> (r: JwtSub)
    ensures
        r@ == subject_of(*user, *id, google),
{
    JwtSub { _id: id.to_hex(), name: user.name.clone(), googleAccount: google }
}

/// Whether a user has a Google account.
pub open spec fn is_google(user: User) -> bool {
    user.googleAccount == Some(true)
}

/// Whether a user has a Google account.
pub fn has_google(user: &User) -> (r: bool)
    ensures
        r == is_google(*user),
{
    match user.googleAccount {
        Some(b) => b,
        None => false,
    }
}

/// A session token speaks for its user until it expires: the claims are those
/// that the session was minted with.
pub proof fn law_session_token_reads_back(
    token: Seq<char>,
    sub: JwtSubView,
    secret: Seq<char>,
    now: UtcTime,
)
    requires
        is_session_token(token, sub, secret, now),
        sub._id.len() > 0,
    ensures
        token_claims(token, secret) == Ok::<ClaimsView, TokenError>(
            session_claims(sub, session_expiry(now)),
        ),
{
    crate::utils::crypto::lemma_session_claims(sub, session_expiry(now));
}

} // verus!
