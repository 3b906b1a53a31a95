//! Which requests are admitted.

use vstd::prelude::*;
#[allow(unused_imports)]
use vstd::string::*;

use crate::config::AppState;
#[allow(unused_imports)]
use crate::flow::{Action, Event, Flow, Step};
#[allow(unused_imports)]
use crate::http::{text_views, Headers, Method, FORBIDDEN, UNAUTHORIZED};
#[allow(unused_imports)]
use crate::middleware::auth::{cookie_request_origin_ok, referer_origin, request_session_token, session_token, session_with, verify_user, Admission, VerifyUser};
#[allow(unused_imports)]
use crate::models::Session;
#[allow(unused_imports)]
use crate::object_id::{hex_form, is_object_id, object_id_of, ObjectId};
#[allow(unused_imports)]
use crate::store::{is_list, Rows};
#[allow(unused_imports)]
use crate::text::{ascii_lowercase, contains_text, first_index, first_occurrence, lemma_first_index_is, occurs_at, trimmed};
use crate::time::UtcTime;
#[allow(unused_imports)]
use crate::utils::cookies::{law_cookie_reads_back, SESSION_COOKIE};
#[allow(unused_imports)]
use crate::utils::crypto::{token_claims, was_rejected, ClaimsView, TokenError};

verus! {

/// The token of a request is what its `Authorization` header says after
/// `Bearer`, in letters of either case.
pub proof fn law_bearer_token_is_read(
    headers: Headers,
    scheme: Seq<char>,
    token: Seq<char>,
    r: Option<(String, bool)>,
)
    requires
        call_ensures(request_session_token, (&headers,), r),
        ascii_lowercase(scheme) == ascii_lowercase("Bearer"@),
        token.len() > 0,
        trimmed(token) == token,
        headers.authorization matches Some(a) && a@ == scheme + " "@ + token,
    ensures
        r matches Some((t, by_cookie)) && t@ == token && !by_cookie,
{
    reveal_strlit("Bearer");
    reveal_strlit(" ");
    let a = headers.authorization->0@;
    assert(ascii_lowercase(scheme).len() == scheme.len());
    assert(ascii_lowercase("Bearer"@).len() == 6);
    assert(a.take(6) =~= scheme);
    assert(a.skip(7) =~= token);
}

/// Without an `Authorization` header the token of a request is that of the
/// session cookie.
pub proof fn law_cookie_token_is_read(headers: Headers, token: Seq<char>, r: Option<(String, bool)>)
    requires
        call_ensures(request_session_token, (&headers,), r),
        token.len() > 0,
        trimmed(token) == token,
        !token.contains(';'),
        headers.authorization is None,
        headers.cookie matches Some(c) && c@ == SESSION_COOKIE@ + seq!['='] + token,
    ensures
        r matches Some((t, by_cookie)) && t@ == token && by_cookie,
{
    reveal_strlit("noap_session");
    law_cookie_reads_back(SESSION_COOKIE@, token);
}

/// A request without a token, of either kind, is turned away, and so is one with
/// a token that no session was given; a preflight passes without one.
pub proof fn law_no_token_no_admission(
    headers: Headers,
    method: Method,
    app: AppState,
    now: UtcTime,
    r: Step<VerifyUser, Admission>,
)
    requires
        call_ensures(verify_user, (&headers, method, &app, now), r),
    ensures
        method == Method::Options ==> r == Step::<VerifyUser, Admission>::Done(Admission::Pass),
        method != Method::Options && headers.authorization is None && headers.cookie is None ==> (
        r matches Step::Done(Admission::Deny(reply)) && reply.status == UNAUTHORIZED),
        method != Method::Options ==> !(r matches Step::Done(Admission::Pass)) && !(
        r matches Step::Done(Admission::Admit(_))),
{
}

/// A request with a token that speaks for a user, and of which a session of that
/// user is stored that has not expired, is admitted as that user's: with the
/// token in a header, or in a cookie where it changes nothing or comes from an
/// allowed origin. Only `jsonwebtoken` may turn it away before.
pub proof fn law_live_session_is_admitted(
    headers: Headers,
    method: Method,
    app: AppState,
    began: UtcTime,
    start: Step<VerifyUser, Admission>,
    rows: Rows,
    id: ObjectId,
    token: Seq<char>,
    by_cookie: bool,
    claims: ClaimsView,
    sessions: Vec<Session>,
    now: UtcTime,
    r: Step<VerifyUser, Admission>,
)
    requires
        call_ensures(verify_user, (&headers, method, &app, began), start),
        method != Method::Options,
        session_token(headers) == Some((token, by_cookie)),
        by_cookie ==> method == Method::Get || method == Method::Head || (headers.origin matches
            Some(o) && text_views(app.allowed_origins@).contains(trimmed(o@))),
        token_claims(token, app.jwt_secret@) == Ok::<ClaimsView, TokenError>(claims),
        !was_rejected(token, app.jwt_secret@),
        claims.exp >= began.secs,
        is_object_id(claims.sub),
        rows.sessions.dom().contains(id),
        rows.sessions[id].userId == object_id_of(claims.sub),
        rows.sessions[id].token@ == token,
        forall|i: ObjectId| #[trigger]
            rows.sessions.dom().contains(i) && rows.sessions[i].token@ == token
                ==> rows.sessions[i].expAt >= now.secs,
        is_list(
            sessions@,
            rows.sessions,
            |row: Session| row.userId == object_id_of(claims.sub),
        ),
        start matches Step::Ask(_, state) ==> call_ensures(
            <VerifyUser as Flow>::resume,
            (state, &app, Event::Sessions(sessions), now),
            r,
        ),
    ensures
        start matches Step::Ask(Action::SessionsOf(user), _) && user == object_id_of(claims.sub),
        r matches Step::Done(Admission::Admit(c)) && c@ == claims,
{
    assert(sessions@.contains(rows.sessions[id]));
    let k = choose|k: int| 0 <= k < sessions@.len() && sessions@[k] == rows.sessions[id];
    lemma_found(sessions@, token, k);
    let s = session_with(sessions@, token)->0;
    let i = choose|i: int| 0 <= i < sessions@.len() && sessions@[i] == s;
    let j = choose|j: ObjectId| #[trigger]
        rows.sessions.dom().contains(j) && rows.sessions[j] == sessions@[i];
    assert(rows.sessions.dom().contains(j));
}

proof fn lemma_found(sessions: Seq<Session>, token: Seq<char>, k: int)
    requires
        0 <= k < sessions.len(),
        sessions[k].token@ == token,
    ensures
        session_with(sessions, token) matches Some(s) && s.token@ == token && sessions.contains(s),
    decreases sessions.len(),
{
    if sessions[0].token@ == token {
        assert(sessions.contains(sessions[0]));
    } else {
        let rest = sessions.skip(1);
        assert(rest[k - 1] == sessions[k]);
        lemma_found(rest, token, k - 1);
        let s = session_with(rest, token)->0;
        let i = choose|i: int| 0 <= i < rest.len() && rest[i] == s;
        assert(sessions[i + 1] == s);
    }
}

/// A session that is stored for the user as text is found by its token: the
/// request is admitted where it is the user's and has not expired, and turned
/// away where it is not, or where there is none.
pub proof fn law_session_stored_as_text_is_admitted(
    state: VerifyUser,
    app: AppState,
    row: Option<Session>,
    now: UtcTime,
    r: Step<VerifyUser, Admission>,
)
    requires
        state is ByToken,
        call_ensures(<VerifyUser as Flow>::resume, (state, &app, Event::Session(row), now), r),
    ensures
        ({
            let claims = state->ByToken_claims;
            let live = row matches Some(s) && s.expAt >= now.secs && hex_form(s.userId@)
                == claims.sub@;
            &&& live ==> r == Step::<VerifyUser, Admission>::Done(Admission::Admit(claims))
            &&& !live ==> (r matches Step::Done(Admission::Deny(reply)) && reply.status
                == UNAUTHORIZED)
        }),
{
}

/// A request that changes something and relies on a cookie is turned away where
/// it does not come from an allowed origin.
pub proof fn law_forged_request_is_turned_away(
    headers: Headers,
    app: AppState,
    token: Seq<char>,
    now: UtcTime,
    r: Step<VerifyUser, Admission>,
)
    requires
        call_ensures(verify_user, (&headers, Method::Other, &app, now), r),
        session_token(headers) == Some((token, true)),
        match headers.origin {
            Some(o) => !text_views(app.allowed_origins@).contains(trimmed(o@)),
            None => headers.referer is None,
        },
    ensures
        r matches Step::Done(Admission::Deny(reply)) && reply.status == FORBIDDEN,
{
}

/// The origin of a referer is its scheme and host, without the path.
pub proof fn law_referer_names_its_origin(scheme: Seq<char>, host: Seq<char>, path: Seq<char>)
    requires
        !scheme.contains(':'),
        !host.contains('/'),
    ensures
        referer_origin(scheme + "://"@ + host + seq!['/'] + path) == Some(
            scheme + "://"@ + host,
        ),
        referer_origin(scheme + "://"@ + host) == Some(scheme + "://"@ + host),
{
    lemma_referer(scheme, host, seq!['/'] + path);
    lemma_referer(scheme, host, Seq::empty());
    assert(scheme + "://"@ + host + (seq!['/'] + path) =~= scheme + "://"@ + host + seq!['/']
        + path);
    assert(scheme + "://"@ + host + Seq::<char>::empty() =~= scheme + "://"@ + host);
}

proof fn lemma_referer(scheme: Seq<char>, host: Seq<char>, tail: Seq<char>)
    requires
        !scheme.contains(':'),
        !host.contains('/'),
        tail.len() > 0 ==> tail[0] == '/',
    ensures
        referer_origin(scheme + "://"@ + host + tail) == Some(scheme + "://"@ + host),
{
    reveal_strlit("://");
    let mark = "://"@;
    let text = scheme + mark + host + tail;
    let k = scheme.len() as int;
    assert(mark.len() == 3 && mark[0] == ':');
    assert(text.subrange(k, k + 3) =~= mark);
    assert(occurs_at(text, mark, k));
    assert forall|j: int| 0 <= j < k implies !occurs_at(text, mark, j) by {
        assert(text[j] == scheme[j]);
        if occurs_at(text, mark, j) {
            assert(text.subrange(j, j + 3)[0] == text[j]);
            assert(scheme.contains(':'));
        }
    }
    assert(first_occurrence(text, mark, k));
    assert(contains_text(text, mark));
    let j = choose|j: int| first_occurrence(text, mark, j);
    assert(j == k);
    let rest = text.skip(k + 3);
    assert(rest =~= host + tail);
    assert forall|i: int| 0 <= i < host.len() implies rest[i] != '/' by {
        assert(rest[i] == host[i]);
    }
    if tail.len() > 0 {
        assert(rest[host.len() as int] == '/');
    }
    lemma_slash(rest, host.len() as int);
    assert(rest.take(host.len() as int) =~= host);
    assert(text.take(k) =~= scheme);
}

proof fn lemma_slash(s: Seq<char>, k: int)
    requires
        0 <= k <= s.len(),
        forall|i: int| 0 <= i < k ==> s[i] != '/',
        k < s.len() ==> s[k] == '/',
    ensures
        first_index(s, '/') == k,
    decreases s.len(),
{
    if k < s.len() {
        lemma_first_index_is(s, '/', k);
    } else if s.len() > 0 {
        let rest = s.skip(1);
        assert forall|i: int| 0 <= i < k - 1 implies rest[i] != '/' by {
            assert(rest[i] == s[i + 1]);
        }
        lemma_slash(rest, k - 1);
    }
}

/// A request that relies on a cookie is accepted by its origin, or else by that
/// of its referer, where that is one of the allowed ones.
pub proof fn law_allowed_origin_is_accepted(
    headers: Headers,
    allowed: Vec<String>,
    scheme: Seq<char>,
    host: Seq<char>,
    path: Seq<char>,
    r: bool,
)
    requires
        call_ensures(cookie_request_origin_ok, (&headers, &allowed, Method::Other), r),
        !scheme.contains(':'),
        !host.contains('/'),
    ensures
        headers.origin matches Some(o) ==> r == text_views(allowed@).contains(trimmed(o@)),
        headers.origin is None && (headers.referer matches Some(t) && t@ == scheme + "://"@ + host
            + seq!['/'] + path) ==> r == text_views(allowed@).contains(scheme + "://"@ + host),
        headers.origin is None && headers.referer is None ==> !r,
{
    law_referer_names_its_origin(scheme, host, path);
}

} // verus!
