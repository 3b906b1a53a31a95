//! Who makes a request, and what they may touch.

use vstd::prelude::*;
#[allow(unused_imports)]
use vstd::string::*;

use crate::config::AppState;
use crate::flow::{Action, Event, Flow, Step};
use crate::http::{coded, message, Headers, Method, Reply, FORBIDDEN, INTERNAL_SERVER_ERROR, UNAUTHORIZED};
#[allow(unused_imports)]
use crate::http::{says, says_code, text_views};
use crate::models::Session;
#[allow(unused_imports)]
use crate::object_id::{hex_form, is_object_id, object_id_of};
#[allow(unused_imports)]
use crate::text::{ascii_lowercase, chars_of, contains_text, eq_ignore_ascii_case, find_char, find_text, first_index, first_occurrence, owned, same, text_of, trim, trimmed};
use crate::time::UtcTime;
#[allow(unused_imports)]
use crate::utils::cookies::{cookie_value, get_cookie, SESSION_COOKIE};
use crate::utils::crypto::{decode_live_token, Claims, TokenError};
#[allow(unused_imports)]
use crate::utils::crypto::{claims_view, is_live_result, text_view};
use crate::utils::object_id_from_str;

verus! {

// ---------- the token of a request ----------

/// The token of an `Authorization` header: what follows `Bearer` and one more
/// character, where it is not blank.
pub open spec fn bearer_token(auth: Seq<char>) -> Option<Seq<char>> {
    if auth.len() > 7 && ascii_lowercase(auth.take(6)) == ascii_lowercase("Bearer"@) && trimmed(
        auth.skip(7),
    ).len() > 0 {
        Some(trimmed(auth.skip(7)))
    } else {
        None
    }
}

fn read_bearer(auth: &str) -> (r: Option<String>)
    ensures
        text_view(r) == bearer_token(auth@),
{
    let chars = chars_of(auth);
    if chars.len() <= 7 {
        return None;
    }
    let scheme = text_of(&chars, 0, 6);
    assert(scheme@ =~= auth@.take(6));
    if !eq_ignore_ascii_case(scheme.as_str(), "Bearer") {
        return None;
    }
    let rest = text_of(&chars, 7, chars.len());
    assert(rest@ =~= auth@.skip(7));
    let token = trim(rest.as_str());
    if token.unicode_len() == 0 {
        return None;
    }
    Some(owned(token))
}

/// The token of a request and whether it came with a cookie: the
/// `Authorization` header first, then the session cookie.
pub open spec fn session_token(headers: Headers) -> Option<(Seq<char>, bool)> {
    let bearer = match headers.authorization {
        Some(auth) => bearer_token(auth@),
        None => None,
    };
    match bearer {
        Some(token) => Some((token, false)),
        None => match headers.cookie {
            Some(cookie) => match cookie_value(cookie@, SESSION_COOKIE@) {
                Some(token) => Some((token, true)),
                None => None,
            },
            None => None,
        },
    }
}

/// Reads the session token of a request, and whether it came with a cookie.
pub fn request_session_token(headers: &Headers) -> (r: Option<(String, bool)>)
    ensures
        match r {
            Some(t) => session_token(*headers) == Some((t.0@, t.1)),
            None => session_token(*headers) is None,
        },
{
    let bearer = match &headers.authorization {
        Some(auth) => read_bearer(auth.as_str()),
        None => None,
    };
    match bearer {
        Some(token) => Some((token, false)),
        None => match &headers.cookie {
            Some(cookie) => match get_cookie(cookie.as_str(), SESSION_COOKIE) {
                Some(token) => Some((token, true)),
                None => None,
            },
            None => None,
        },
    }
}

// ---------- the origin of a request ----------

/// The origin of a referer: the scheme, `://`, and what follows up to the next
/// slash.
pub open spec fn referer_origin(referer: Seq<char>) -> Option<Seq<char>> {
    if contains_text(referer, "://"@) {
        let k = choose|k: int| first_occurrence(referer, "://"@, k);
        let rest = referer.skip(k + 3);
        Some(referer.take(k) + "://"@ + rest.take(first_index(rest, '/')))
    } else {
        None
    }
}

/// `origin` is one of the allowed origins.
pub open spec fn is_allowed(allowed: Seq<Seq<char>>, origin: Seq<char>) -> bool {
    allowed.contains(origin)
}

fn read_referer(referer: &str) -> (r: Option<String>)
    ensures
        text_view(r) == referer_origin(referer@),
{
    let chars = chars_of(referer);
    let mark = chars_of("://");
    match find_text(&chars, &mark) {
        None => None,
        Some(k) => {
            proof {
                reveal_strlit("://");
                let j = choose|j: int| first_occurrence(referer@, "://"@, j);
                assert(first_occurrence(referer@, "://"@, k as int));
                assert(contains_text(referer@, "://"@));
                assert(j == k);
                assert(k + 3 <= chars.len());
            }
            let end = find_char(&chars, '/', k + 3);
            let scheme = text_of(&chars, 0, k);
            let host = text_of(&chars, k + 3, end);
            let mut origin = scheme;
            origin.push_str("://");
            origin.push_str(host.as_str());
            proof {
                let rest = referer@.skip(k + 3);
                assert(host@ =~= rest.take(first_index(rest, '/')));
                assert(chars@.subrange(0, k as int) =~= referer@.take(k as int));
                assert(origin@ =~= referer_origin(referer@)->0);
            }
            Some(origin)
        },
    }
}

fn among(allowed: &Vec<String>, origin: &str) -> (r: bool)
    ensures
        r == is_allowed(text_views(allowed@), origin@),
{
    let mut i: usize = 0;
    while i < allowed.len()
        invariant
            i <= allowed@.len(),
            forall|j: int| 0 <= j < i ==> (#[trigger] allowed@[j])@ != origin@,
        decreases allowed@.len() - i,
    {
        if same(allowed[i].as_str(), origin) {
            assert(text_views(allowed@)[i as int] == origin@);
            return true;
        }
        i += 1;
    }
    proof {
        if text_views(allowed@).contains(origin@) {
            let j = choose|j: int|
                0 <= j < allowed@.len() && text_views(allowed@)[j] == origin@;
            assert(allowed@[j]@ == origin@);
        }
    }
    false
}

/// Whether a request that relies on a cookie may do what it asks for. One that
/// changes state must come from an allowed origin, by its `Origin` or else its
/// `Referer`: the browser sends the cookie with requests of other sites too.
pub open spec fn origin_accepted(
    headers: Headers,
    allowed: Seq<Seq<char>>,
    method: Method,
) -> bool {
    if method is Get || method is Head || method is Options {
        true
    } else if headers.origin is Some {
        is_allowed(allowed, trimmed(headers.origin->0@))
    } else if headers.referer is Some {
        match referer_origin(headers.referer->0@) {
            Some(origin) => is_allowed(allowed, origin),
            None => false,
        }
    } else {
        false
    }
}

/// Guards cookie-authenticated requests against forged ones.
pub fn cookie_request_origin_ok(headers: &Headers, allowed: &Vec<String>, method: Method) -> (r:
    bool)
    ensures
        r == origin_accepted(*headers, text_views(allowed@), method),
{
    match method {
        Method::Get | Method::Head | Method::Options => {
            return true;
        },
        Method::Other => {},
    }
    match &headers.origin {
        Some(origin) => among(allowed, trim(origin.as_str())),
        None => match &headers.referer {
            Some(referer) => match read_referer(referer.as_str()) {
                Some(origin) => among(allowed, origin.as_str()),
                None => false,
            },
            None => false,
        },
    }
}

// ---------- owners ----------

/// The reply to a caller who touches what is not theirs.
pub open spec fn forbidden() -> Reply {
    says(FORBIDDEN, "Access denied")
}

/// Lets a caller touch only what is their own: every protected handler that is
/// given an owner calls this with the subject of the verified session. The
/// reply is no 401, so that clients do not take it for an expired session.
pub fn require_owner(claims: &Claims, owner_id: &str) -> (r: Result<(), Reply>)
    ensures
        (r is Ok) == (claims.sub@ == owner_id@),
        r is Err ==> r->Err_0 == forbidden(),
{
    require_sub(claims.sub.as_str(), owner_id)
}

/// As `require_owner`, for the subject alone.
pub fn require_sub(sub: &str, owner_id: &str) -> (r: Result<(), Reply>)
    ensures
        (r is Ok) == (sub@ == owner_id@),
        r is Err ==> r->Err_0 == forbidden(),
{
    if same(sub, owner_id) {
        Ok(())
    } else {
        Err(message(FORBIDDEN, "Access denied"))
    }
}

// ---------- sessions ----------

/// What becomes of a request.
pub enum Admission {
    /// It needs no session.
    Pass,
    /// It is made by the subject of these claims.
    Admit(Claims),
    Deny(Reply),
}

/// What the check of a session waits for.
pub enum VerifyUser {
    /// The sessions of the user.
    Sessions { token: String, claims: Claims },
    /// The session with the token, whoever it belongs to.
    ByToken { claims: Claims },
}

pub open spec fn denied() -> Reply {
    says(UNAUTHORIZED, "Access denied, sign in again")
}

pub open spec fn expired() -> Reply {
    says(UNAUTHORIZED, "Session expired, please sign in again")
}

pub open spec fn unavailable() -> Reply {
    says(INTERNAL_SERVER_ERROR, "DB error")
}

/// The first session with the token.
pub open spec fn session_with(sessions: Seq<Session>, token: Seq<char>) -> Option<Session>
    decreases sessions.len(),
{
    if sessions.len() == 0 {
        None
    } else if sessions[0].token@ == token {
        Some(sessions[0])
    } else {
        session_with(sessions.skip(1), token)
    }
}

/// Finds the first session with the token.
pub fn find_session<'a>(sessions: &'a Vec<Session>, token: &str) -> (r: Option<&'a Session>)
    ensures
        match r {
            Some(s) => session_with(sessions@, token@) == Some(*s),
            None => session_with(sessions@, token@) is None,
        },
{
    let mut i: usize = 0;
    assert(sessions@.skip(0) =~= sessions@);
    while i < sessions.len()
        invariant
            i <= sessions@.len(),
            session_with(sessions@.skip(i as int), token@) == session_with(sessions@, token@),
        decreases sessions@.len() - i,
    {
        assert(sessions@.skip(i as int)[0] == sessions@[i as int]);
        if same(sessions[i].token.as_str(), token) {
            return Some(&sessions[i]);
        }
        assert(sessions@.skip(i as int).skip(1) =~= sessions@.skip(i + 1));
        i += 1;
    }
    None
}

/// What follows once the token of a request has been read.
pub open spec fn token_judged(
    decoded: Result<Claims, TokenError>,
    token: String,
    now: UtcTime,
) -> Step<VerifyUser, Admission> {
    match decoded {
        Err(_) => Step::Done(Admission::Deny(denied())),
        Ok(claims) => if claims.exp < now.secs {
            Step::Done(Admission::Deny(expired()))
        } else if !is_object_id(claims.sub@) {
            Step::Done(Admission::Deny(denied()))
        } else {
            Step::Ask(
                Action::SessionsOf(object_id_of(claims.sub@)),
                VerifyUser::Sessions { token, claims },
            )
        },
    }
}

/// Decides on a request by what its token was read as.
pub fn judge_token(decoded: Result<Claims, TokenError>, token: String, now: UtcTime) -> (r: Step<
    VerifyUser,
    Admission,
>)
    requires
        now.is_clock(),
    ensures
        r == token_judged(decoded, token, now),
{
    match decoded {
        Err(_) => Step::Done(Admission::Deny(message(UNAUTHORIZED, "Access denied, sign in again"))),
        Ok(claims) => {
            if claims.exp < now.secs as u64 {
                return Step::Done(
                    Admission::Deny(message(UNAUTHORIZED, "Session expired, please sign in again")),
                );
            }
            match object_id_from_str(claims.sub.as_str()) {
                None => Step::Done(
                    Admission::Deny(message(UNAUTHORIZED, "Access denied, sign in again")),
                ),
                Some(uid) => Step::Ask(
                    Action::SessionsOf(uid),
                    VerifyUser::Sessions { token, claims },
                ),
            }
        },
    }
}

/// Admits a request or not. A preflight needs no session. Any other request
/// needs a token, from an allowed origin where it came with a cookie, whose
/// claims are good; then its session is looked up.
pub fn verify_user(headers: &Headers, method: Method, app: &AppState, now: UtcTime) -> (r: Step<
    VerifyUser,
    Admission,
>)
    requires
        now.is_clock(),
    ensures
        if method is Options {
            r == Step::<VerifyUser, Admission>::Done(Admission::Pass)
        } else {
            match session_token(*headers) {
                None => r == Step::<VerifyUser, Admission>::Done(
                    Admission::Deny(
                        says_code(UNAUTHORIZED, "Authentication token wasn't found", 1),
                    ),
                ),
                Some((token, via_cookie)) => if via_cookie && !origin_accepted(
                    *headers,
                    text_views(app.allowed_origins@),
                    method,
                ) {
                    r == Step::<VerifyUser, Admission>::Done(Admission::Deny(forbidden()))
                } else {
                    exists|decoded: Result<Claims, TokenError>, t: String|
                        t@ == token && is_live_result(
                            claims_view(decoded),
                            token,
                            app.jwt_secret@,
                        ) && r == #[trigger] token_judged(decoded, t, now)
                },
            }
        },
{
    if method == Method::Options {
        return Step::Done(Admission::Pass);
    }
    let (token, via_cookie) = match request_session_token(headers) {
        Some(t) => t,
        None => {
            return Step::Done(
                Admission::Deny(coded(UNAUTHORIZED, "Authentication token wasn't found", 1)),
            );
        },
    };
    if via_cookie && !cookie_request_origin_ok(headers, &app.allowed_origins, method) {
        return Step::Done(Admission::Deny(message(FORBIDDEN, "Access denied")));
    }
    let decoded = decode_live_token(token.as_str(), app.jwt_secret.as_str());
    let ghost (d, t) = (decoded, token);
    let r = judge_token(decoded, token, now);
    assert(r == token_judged(d, t, now));
    r
}

impl VerifyUser {
    /// What follows an answer. A session row of the user with the token admits
    /// the request unless the row has expired; rows that store the user as
    /// text are found by the token, and count only where they are the user's.
    pub open spec fn next(self, event: Event, now: UtcTime) -> Step<VerifyUser, Admission> {
        match self {
            VerifyUser::Sessions { token, claims } => match event {
                Event::Sessions(sessions) => match session_with(sessions@, token@) {
                    Some(s) => if s.expAt < now.secs {
                        Step::Done(Admission::Deny(expired()))
                    } else {
                        Step::Done(Admission::Admit(claims))
                    },
                    None => Step::Ask(
                        Action::SessionByToken(token),
                        VerifyUser::ByToken { claims },
                    ),
                },
                _ => Step::Done(Admission::Deny(unavailable())),
            },
            VerifyUser::ByToken { claims } => match event {
                Event::Session(Some(row)) => if hex_form(row.userId@) != claims.sub@ {
                    Step::Done(Admission::Deny(denied()))
                } else if row.expAt < now.secs {
                    Step::Done(Admission::Deny(expired()))
                } else {
                    Step::Done(Admission::Admit(claims))
                },
                Event::Session(None) => Step::Done(Admission::Deny(denied())),
                _ => Step::Done(Admission::Deny(unavailable())),
            },
        }
    }
}

impl Flow for VerifyUser {
    type Out = Admission;

    open spec fn ready(self) -> bool {
        true
    }

    fn resume(self, app: &AppState, event: Event, now: UtcTime) -> (r: Step<VerifyUser, Admission>)
        ensures
            r == self.next(event, now),
    {
        match self {
            VerifyUser::Sessions { token, claims } => match event {
                Event::Sessions(sessions) => match find_session(&sessions, token.as_str()) {
                    Some(s) => {
                        if s.expAt < now.secs {
                            Step::Done(
                                Admission::Deny(
                                    message(UNAUTHORIZED, "Session expired, please sign in again"),
                                ),
                            )
                        } else {
                            Step::Done(Admission::Admit(claims))
                        }
                    },
                    None => Step::Ask(
                        Action::SessionByToken(token),
                        VerifyUser::ByToken { claims },
                    ),
                },
                _ => Step::Done(Admission::Deny(message(INTERNAL_SERVER_ERROR, "DB error"))),
            },
            VerifyUser::ByToken { claims } => match event {
                Event::Session(Some(row)) => {
                    let owner = row.userId.to_hex();
                    if !same(owner.as_str(), claims.sub.as_str()) {
                        Step::Done(
                            Admission::Deny(message(UNAUTHORIZED, "Access denied, sign in again")),
                        )
                    } else if row.expAt < now.secs {
                        Step::Done(
                            Admission::Deny(
                                message(UNAUTHORIZED, "Session expired, please sign in again"),
                            ),
                        )
                    } else {
                        Step::Done(Admission::Admit(claims))
                    }
                },
                Event::Session(None) => Step::Done(
                    Admission::Deny(message(UNAUTHORIZED, "Access denied, sign in again")),
                ),
                _ => Step::Done(Admission::Deny(message(INTERNAL_SERVER_ERROR, "DB error"))),
            },
        }
    }
}

/// A session row that has not expired backs the request: one with its token,
/// or one found by the token that belongs to the subject.
pub open spec fn has_live_session(
    flow: VerifyUser,
    event: Event,
    now: UtcTime,
    claims: Claims,
) -> bool {
    match (flow, event) {
        (VerifyUser::Sessions { token, claims: c }, Event::Sessions(sessions)) => c == claims
            && exists|i: int|
            0 <= i < sessions@.len() && (#[trigger] sessions@[i]).token@ == token@
                && sessions@[i].expAt >= now.secs,
        (VerifyUser::ByToken { claims: c }, Event::Session(Some(row))) => c == claims
            && row.expAt >= now.secs && hex_form(row.userId@) == claims.sub@,
        _ => false,
    }
}

/// No request is admitted without a live session row behind it.
pub proof fn law_admission_needs_a_live_session(
    flow: VerifyUser,
    event: Event,
    now: UtcTime,
    claims: Claims,
)
    requires
        flow.next(event, now) == Step::<VerifyUser, Admission>::Done(Admission::Admit(claims)),
    ensures
        has_live_session(flow, event, now, claims),
{
    match (flow, event) {
        (VerifyUser::Sessions { token, claims: _ }, Event::Sessions(sessions)) => {
            lemma_session_with(sessions@, token@);
        },
        _ => {},
    }
}

/// The session that is found is one of them and has the token.
pub proof fn lemma_session_with(sessions: Seq<Session>, token: Seq<char>)
    ensures
        session_with(sessions, token) matches Some(s) ==> s.token@ == token && exists|i: int|
            0 <= i < sessions.len() && #[trigger] sessions[i] == s,
    decreases sessions.len(),
{
    if sessions.len() > 0 && sessions[0].token@ != token {
        lemma_session_with(sessions.skip(1), token);
        if session_with(sessions, token) is Some {
            let s = session_with(sessions, token)->0;
            let i = choose|i: int| 0 <= i < sessions.skip(1).len() && #[trigger] sessions.skip(1)[i] == s;
            assert(sessions[i + 1] == s);
        }
    }
}

// ---------- sessions outside the protected routes ----------

/// What the lookup of a request's session waits for: the session with the
/// token.
pub struct BearerSession {
    pub sub: String,
}

/// What follows once the token of a request has been read.
pub open spec fn bearer_judged(
    decoded: Result<Claims, TokenError>,
    token: String,
    now: UtcTime,
) -> Step<BearerSession, Option<String>> {
    match decoded {
        Err(_) => Step::Done(None),
        Ok(claims) => if claims.exp < now.secs {
            Step::Done(None)
        } else {
            Step::Ask(Action::SessionByToken(token), BearerSession { sub: claims.sub })
        },
    }
}

/// Decides on the session of a request by what its token was read as.
pub fn judge_bearer(decoded: Result<Claims, TokenError>, token: String, now: UtcTime) -> (r: Step<
    BearerSession,
    Option<String>,
>)
    requires
        now.is_clock(),
    ensures
        r == bearer_judged(decoded, token, now),
{
    match decoded {
        Err(_) => Step::Done(None),
        Ok(claims) => {
            if claims.exp < now.secs as u64 {
                Step::Done(None)
            } else {
                Step::Ask(Action::SessionByToken(token), BearerSession { sub: claims.sub })
            }
        },
    }
}

/// What the lookup of a request's session begins with.
pub open spec fn is_bearer_start(
    r: Step<BearerSession, Option<String>>,
    headers: Headers,
    secret: Seq<char>,
    now: UtcTime,
) -> bool {
    match session_token(headers) {
        None => r == Step::<BearerSession, Option<String>>::Done(None),
        Some((token, _)) => exists|decoded: Result<Claims, TokenError>, t: String|
            t@ == token && is_live_result(claims_view(decoded), token, secret) && r
                == #[trigger] bearer_judged(decoded, t, now),
    }
}

/// Looks up who makes a request, for the public endpoints that accept a live
/// session as well as a reset token.
pub fn bearer_session_user(headers: &Headers, app: &AppState, now: UtcTime) -> (r: Step<
    BearerSession,
    Option<String>,
>)
    requires
        now.is_clock(),
    ensures
        is_bearer_start(r, *headers, app.jwt_secret@, now),
{
    match request_session_token(headers) {
        None => Step::Done(None),
        Some((token, _)) => {
            let decoded = decode_live_token(token.as_str(), app.jwt_secret.as_str());
            let ghost (d, t) = (decoded, token);
            let r = judge_bearer(decoded, token, now);
            assert(r == bearer_judged(d, t, now));
            r
        },
    }
}

impl BearerSession {
    /// The owner of the session: the subject, where there is a session with
    /// the token that belongs to the subject and has not expired.
    pub open spec fn owner(self, event: Event, now: UtcTime) -> Option<String> {
        match event {
            Event::Session(Some(row)) => if row.expAt >= now.secs && hex_form(row.userId@)
                == self.sub@ {
                Some(self.sub)
            } else {
                None
            },
            _ => None,
        }
    }

    /// Reads the owner of the session from the answer.
    pub fn finish(self, event: Event, now: UtcTime) -> (r: Option<String>)
        ensures
            r == self.owner(event, now),
    {
        match event {
            Event::Session(Some(row)) => {
                let owner = row.userId.to_hex();
                if row.expAt >= now.secs && same(owner.as_str(), self.sub.as_str()) {
                    Some(self.sub)
                } else {
                    None
                }
            },
            _ => None,
        }
    }
}

} // verus!
