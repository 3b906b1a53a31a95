//! Requests and replies, as plain data.

use vstd::prelude::*;

use crate::json::Json;
use crate::models::{Activity, Label, Note, NoteState, PaginateResponse, UserSettings};
use crate::models::Bson;
use crate::object_id::ObjectId;
use crate::time::UtcTime;
use crate::utils::cookies::{clear_session_cookie, clear_tfa_cookie, session_cookie, tfa_cookie, CookieConfig};
#[allow(unused_imports)]
use crate::utils::cookies::{cookie_form, SESSION_COOKIE, TFA_COOKIE, TFA_MAX_AGE_SECS};

verus! {

// ---------- requests ----------

/// The request headers that are read. A header that is missing, or that is
/// not visible ASCII text, is `None`.
#[derive(Debug)]
pub struct Headers {
    pub authorization: Option<String>,
    pub cookie: Option<String>,
    pub origin: Option<String>,
    pub referer: Option<String>,
    pub x_forwarded_for: Option<String>,
    pub x_real_ip: Option<String>,
    pub user_agent: Option<String>,
}

/// The request method, as far as it matters.
#[derive(Clone, Copy, Debug, PartialEq, Eq, Structural)]
pub enum Method {
    Get,
    Head,
    Options,
    Other,
}

// ---------- replies ----------

pub const OK: u16 = 200;

pub const BAD_REQUEST: u16 = 400;

pub const UNAUTHORIZED: u16 = 401;

pub const FORBIDDEN: u16 = 403;

pub const NOT_FOUND: u16 = 404;

pub const TOO_MANY_REQUESTS: u16 = 429;

pub const INTERNAL_SERVER_ERROR: u16 = 500;

pub const SERVICE_UNAVAILABLE: u16 = 503;

/// A cookie that a reply sets or clears.
#[derive(Debug)]
pub enum Cookie {
    Session { token: String, max_age_secs: i64 },
    Tfa { token: String },
    ClearSession,
    ClearTfa,
}

/// The cookies of a reply.
#[derive(Debug)]
pub enum Cookies {
    Nothing,
    One(Cookie),
    Two(Cookie, Cookie),
}

/// One page of notes.
#[derive(Debug)]
pub struct NotePage {
    pub docs: Vec<Note>,
    pub totalDocs: i64,
    pub hasNextPage: bool,
    pub totalPages: i64,
}

/// How an activity stands: what was done, and the streak.
#[derive(Debug)]
pub struct Progress {
    pub noteId: Option<String>,
    pub doneDates: Vec<String>,
    pub seenOccurrences: Vec<String>,
    pub currentStreak: i64,
    pub totalCompletions: i64,
    pub doneToday: bool,
    pub today: String,
    /// The day that was added last.
    pub lastDone: Option<String>,
}

/// A device that receives push notifications, without its keys.
#[derive(Debug)]
pub struct Device {
    pub endpoint: String,
    pub userAgent: Option<String>,
    pub createdAt: Option<UtcTime>,
    pub updatedAt: Option<UtcTime>,
}

/// A signed-in device, without its token.
#[derive(Debug)]
pub struct SessionEntry {
    pub id: Option<ObjectId>,
    pub userId: ObjectId,
    pub expAt: i64,
    pub ip: String,
    pub browserData: String,
    pub location: String,
    pub countryFlag: String,
    pub deviceData: Bson,
    pub clientData: String,
    pub createdAt: Option<UtcTime>,
    pub current: bool,
}

/// A passkey, without the credential itself.
#[derive(Debug)]
pub struct PasskeyEntry {
    pub cred_id: String,
    pub label: Option<String>,
    pub createdAt: Option<UtcTime>,
    pub lastUsedAt: Option<UtcTime>,
}

/// What a reply says.
#[derive(Debug)]
pub enum Body {
    /// `message`.
    Message(&'static str),
    /// `message`, put together for this reply.
    Text(String),
    /// `message` and `code`.
    Coded(&'static str, u8),
    /// A user who signed in with a password.
    SignedIn {
        id: ObjectId,
        name: String,
        tfa_enabled: bool,
        settings: Option<UserSettings>,
        last_opened: Option<ObjectId>,
    },
    /// A user who signed in with a Google account.
    GoogleSignedIn {
        id: ObjectId,
        name: String,
        tfa_enabled: bool,
        settings: Option<UserSettings>,
    },
    /// A user who signed in with a passkey.
    PasskeySignedIn {
        id: ObjectId,
        name: String,
        google_account: bool,
        settings: Option<UserSettings>,
        last_opened: Option<ObjectId>,
    },
    /// The user of a session that is still good.
    TokenVerified {
        sub: String,
        name: String,
        google_account: bool,
        tfa_enabled: bool,
        user_settings: UserSettings,
    },
    /// The account resets its password with the second factor (`code` 5).
    ResetWithTfa { user: ObjectId },
    /// The next code must wait until `spam` (`code` 4).
    OtpWait { spam: UtcTime },
    /// A code was mailed.
    OtpSent { user: ObjectId },
    /// The code was right.
    OtpVerified { reset_token: String },
    /// The QR code of the second factor, as a data URL.
    QrCode(String),
    /// The notes of a page, and the pinned ones where nothing was searched.
    Notes { notes: NotePage, pinned: Option<NotePage> },
    /// A note with its text and its labels.
    NoteFound { note: Note, state: Option<NoteState>, labels: Option<Vec<Label>> },
    NoteAdded { id: ObjectId, page_location: String },
    Labels(PaginateResponse<Label>),
    Activities(Vec<Activity>),
    Triggered { at: UtcTime },
    ActivityProgress(Progress),
    Completed { progress: Progress, date: String },
    Occurrence { key: String },
    VapidKey(String),
    Devices(Vec<Device>),
    PushSweep { checked: u32, pushed: u32 },
    Sessions(Vec<SessionEntry>),
    /// The options of a passkey ceremony.
    PasskeyOptions { options: Json, state_token: String },
    Passkeys(Vec<PasskeyEntry>),
}

/// A reply.
#[derive(Debug)]
pub struct Reply {
    pub status: u16,
    pub cookies: Cookies,
    pub body: Body,
}

/// A reply without cookies.
pub open spec fn plain(status: u16, body: Body) -> Reply {
    Reply { status, cookies: Cookies::Nothing, body }
}

/// A reply that is a message.
pub open spec fn says(status: u16, message: &'static str) -> Reply {
    plain(status, Body::Message(message))
}

/// A reply that is a message with a code.
pub open spec fn says_code(status: u16, message: &'static str, code: u8) -> Reply {
    plain(status, Body::Coded(message, code))
}

/// Builds a reply without cookies.
pub fn reply(status: u16, body: Body) -> (r: Reply)
    ensures
        r == plain(status, body),
{
    Reply { status, cookies: Cookies::Nothing, body }
}

/// Builds a reply that is a message.
pub fn message(status: u16, text: &'static str) -> (r: Reply)
    ensures
        r == says(status, text),
{
    reply(status, Body::Message(text))
}

/// Builds a reply that is a message with a code.
pub fn coded(status: u16, text: &'static str, code: u8) -> (r: Reply)
    ensures
        r == says_code(status, text, code),
{
    reply(status, Body::Coded(text, code))
}

// ---------- cookie headers ----------

/// A text that can stand in a header: no control characters but the tab.
pub open spec fn is_header_text(s: Seq<char>) -> bool {
    forall|i: int|
        0 <= i < s.len() ==> ((#[trigger] s[i]) >= ' ' && s[i] != '\u{7f}') || s[i] == '\t'
}

/// `HeaderValue::from_str`: it accepts a text whose UTF-8 bytes are from 32
/// up, but for 127, or tabs. The bytes of a character past ASCII are from 128
/// up.
#[verifier::external_body]
fn is_header_value(s: &str) -> (r: bool)
    ensures
        r == is_header_text(s@),
{
    axum::http::HeaderValue::from_str(s).is_ok()
}

impl Cookie {
    /// The `Set-Cookie` value.
    pub open spec fn form(self, cfg: CookieConfig) -> Seq<char> {
        match self {
            Cookie::Session { token, max_age_secs } => cookie_form(
                SESSION_COOKIE@,
                token@,
                max_age_secs as int,
                cfg,
            ),
            Cookie::Tfa { token } => cookie_form(TFA_COOKIE@, token@, TFA_MAX_AGE_SECS as int, cfg),
            Cookie::ClearSession => cookie_form(SESSION_COOKIE@, ""@, 0, cfg),
            Cookie::ClearTfa => cookie_form(TFA_COOKIE@, ""@, 0, cfg),
        }
    }

    /// Renders the `Set-Cookie` value.
    pub fn render(&self, cfg: &CookieConfig) -> (r: String)
        ensures
            r@ == self.form(*cfg),
    {
        match self {
            Cookie::Session { token, max_age_secs } => session_cookie(
                token.as_str(),
                *max_age_secs,
                cfg,
            ),
            Cookie::Tfa { token } => tfa_cookie(token.as_str(), cfg),
            Cookie::ClearSession => clear_session_cookie(cfg),
            Cookie::ClearTfa => clear_tfa_cookie(cfg),
        }
    }
}

impl Cookies {
    /// The `Set-Cookie` values, in their order.
    pub open spec fn forms(self, cfg: CookieConfig) -> Seq<Seq<char>> {
        match self {
            Cookies::Nothing => Seq::empty(),
            Cookies::One(a) => seq![a.form(cfg)],
            Cookies::Two(a, b) => seq![a.form(cfg), b.form(cfg)],
        }
    }
}

/// Those of the texts that can stand in a header.
pub open spec fn header_texts(texts: Seq<Seq<char>>) -> Seq<Seq<char>>
    decreases texts.len(),
{
    if texts.len() == 0 {
        Seq::empty()
    } else if is_header_text(texts.last()) {
        header_texts(texts.drop_last()).push(texts.last())
    } else {
        header_texts(texts.drop_last())
    }
}

/// The views of a list of texts.
pub open spec fn text_views(v: Seq<String>) -> Seq<Seq<char>> {
    Seq::new(v.len(), |i: int| v[i]@)
}

fn keep_header(headers: &mut Vec<String>, text: String)
    ensures
        text_views(final(headers)@) == (if is_header_text(text@) {
            text_views(old(headers)@).push(text@)
        } else {
            text_views(old(headers)@)
        }),
{
    if is_header_value(text.as_str()) {
        headers.push(text);
        assert(text_views(headers@) =~= text_views(old(headers)@).push(text@));
    }
}

/// The `Set-Cookie` headers of a reply. One that could not stand in a header
/// is left out.
pub fn set_cookie_headers(cookies: &Cookies, cfg: &CookieConfig) -> (r: Vec<String>)
    ensures
        text_views(r@) == header_texts(cookies.forms(*cfg)),
{
    let mut headers: Vec<String> = Vec::new();
    proof {
        reveal_with_fuel(header_texts, 3);
        assert(text_views(headers@) =~= Seq::empty());
    }
    match cookies {
        Cookies::Nothing => {},
        Cookies::One(a) => {
            keep_header(&mut headers, a.render(cfg));
            assert(cookies.forms(*cfg).drop_last() =~= Seq::empty());
        },
        Cookies::Two(a, b) => {
            keep_header(&mut headers, a.render(cfg));
            keep_header(&mut headers, b.render(cfg));
            assert(cookies.forms(*cfg).drop_last() =~= seq![a.form(*cfg)]);
            assert(seq![a.form(*cfg)].drop_last() =~= Seq::empty());
        },
    }
    headers
}

/// Those of the allowed origins that a header can name.
pub fn cors_origins(allowed: &Vec<String>) -> (r: Vec<String>)
    ensures
        text_views(r@) == header_texts(text_views(allowed@)),
{
    let ghost all = text_views(allowed@);
    let mut origins: Vec<String> = Vec::new();
    let mut i: usize = 0;
    assert(text_views(origins@) =~= header_texts(all.take(0)));
    while i < allowed.len()
        invariant
            i <= allowed@.len(),
            all == text_views(allowed@),
            text_views(origins@) == header_texts(all.take(i as int)),
        decreases allowed@.len() - i,
    {
        assert(all.take(i + 1).drop_last() =~= all.take(i as int));
        assert(all.take(i + 1).last() == allowed@[i as int]@);
        keep_header(&mut origins, allowed[i].clone());
        i += 1;
    }
    assert(all.take(i as int) =~= all);
    origins
}

/// The cookies of a reply are set in their order: a session by the cookie of its
/// token and lifetime, a pending second factor by that of its token, and each is
/// cleared by an empty one.
pub proof fn law_cookies_are_sent(
    cfg: CookieConfig,
    token: String,
    text: &str,
    age: i64,
    texts: (String, String, String, String),
    cookies: Cookies,
    r: Vec<String>,
)
    requires
        text@ == token@,
        call_ensures(session_cookie, (text, age, &cfg), texts.0),
        call_ensures(tfa_cookie, (text, &cfg), texts.1),
        call_ensures(clear_session_cookie, (&cfg,), texts.2),
        call_ensures(clear_tfa_cookie, (&cfg,), texts.3),
        is_header_text(texts.0@),
        is_header_text(texts.1@),
        is_header_text(texts.2@),
        is_header_text(texts.3@),
        call_ensures(set_cookie_headers, (&cookies, &cfg), r),
    ensures
        cookies is Nothing ==> r@.len() == 0,
        cookies == Cookies::One(Cookie::Session { token, max_age_secs: age }) ==> text_views(r@)
            == seq![texts.0@],
        cookies == Cookies::One(Cookie::Tfa { token }) ==> text_views(r@) == seq![texts.1@],
        cookies == Cookies::One(Cookie::ClearSession) ==> text_views(r@) == seq![texts.2@],
        cookies == Cookies::One(Cookie::ClearTfa) ==> text_views(r@) == seq![texts.3@],
        cookies == Cookies::Two(
            Cookie::Session { token, max_age_secs: age },
            Cookie::ClearTfa,
        ) ==> text_views(r@) == seq![texts.0@, texts.3@],
{
    reveal_with_fuel(header_texts, 3);
    assert(text_views(r@).len() == r@.len());
    let forms = cookies.forms(cfg);
    assert(forms.len() > 0 ==> forms.drop_last().len() == forms.len() - 1);
    if forms.len() == 2 {
        assert(forms.drop_last() =~= seq![forms[0]]);
        assert(seq![forms[0]].drop_last() =~= Seq::<Seq<char>>::empty());
    }
    if forms.len() == 1 {
        assert(forms.drop_last() =~= Seq::<Seq<char>>::empty());
    }
}

/// Every allowed origin that a header can name is named, in order.
pub proof fn law_allowed_origins_are_named(allowed: Vec<String>, r: Vec<String>)
    requires
        call_ensures(cors_origins, (&allowed,), r),
        forall|i: int| 0 <= i < allowed@.len() ==> is_header_text((#[trigger] allowed@[i])@),
    ensures
        text_views(r@) == text_views(allowed@),
{
    let all = text_views(allowed@);
    assert forall|i: int| 0 <= i < all.len() implies is_header_text(#[trigger] all[i]) by {
        assert(all[i] == allowed@[i]@);
    }
    lemma_all_stand(all);
}

proof fn lemma_all_stand(texts: Seq<Seq<char>>)
    requires
        forall|i: int| 0 <= i < texts.len() ==> is_header_text(#[trigger] texts[i]),
    ensures
        header_texts(texts) == texts,
    decreases texts.len(),
{
    if texts.len() > 0 {
        let rest = texts.drop_last();
        assert forall|i: int| 0 <= i < rest.len() implies is_header_text(#[trigger] rest[i]) by {
            assert(rest[i] == texts[i]);
        }
        lemma_all_stand(rest);
        assert(texts.last() == texts[texts.len() - 1]);
        assert(rest.push(texts.last()) =~= texts);
    } else {
        assert(header_texts(texts) =~= texts);
    }
}

} // verus!
