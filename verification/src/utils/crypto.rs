//! Session tokens, single-purpose tokens and password hashes.

use vstd::prelude::*;
#[allow(unused_imports)]
use vstd::string::*;

use crate::json::{from_value, to_value, Json, JsonNumber};
#[allow(unused_imports)]
use crate::json::{lemma_plain_is_whole, is_plain, is_record, json_content, text_member, unsigned_number, JsonView};
#[allow(unused_imports)]
use crate::text::{is_ascii_alphanumeric, owned, same};
#[allow(unused_imports)]
use crate::time::two_digits;
use crate::time::{clock, UtcTime};

pub mod read;

verus! {

// ---------- claims ----------

/// Whom a token speaks of.
#[derive(Debug)]
pub struct JwtSub {
    pub _id: String,
    pub name: String,
    pub googleAccount: bool,
}

/// The mathematical form of a `JwtSub`.
pub struct JwtSubView {
    pub _id: Seq<char>,
    pub name: Seq<char>,
    pub googleAccount: bool,
}

impl View for JwtSub {
    type V = JwtSubView;

    open spec fn view(&self) -> JwtSubView {
        JwtSubView { _id: self._id@, name: self.name@, googleAccount: self.googleAccount }
    }
}

impl Clone for JwtSub {
    fn clone(&self) -> (r: JwtSub)
        ensures
            r == *self,
    {
        JwtSub {
            _id: self._id.clone(),
            name: self.name.clone(),
            googleAccount: self.googleAccount,
        }
    }
}

/// What a session token says. `sub` is always the identifier of the user.
#[derive(Debug)]
pub struct Claims {
    pub iss: String,
    pub sub: String,
    pub user: Option<JwtSub>,
    pub exp: u64,
}

/// The mathematical form of `Claims`.
pub struct ClaimsView {
    pub iss: Seq<char>,
    pub sub: Seq<char>,
    pub user: Option<JwtSubView>,
    pub exp: u64,
}

/// The views under an option.
pub open spec fn sub_view(user: Option<JwtSub>) -> Option<JwtSubView> {
    match user {
        Some(u) => Some(u@),
        None => None,
    }
}

impl View for Claims {
    type V = ClaimsView;

    open spec fn view(&self) -> ClaimsView {
        ClaimsView { iss: self.iss@, sub: self.sub@, user: sub_view(self.user), exp: self.exp }
    }
}

impl Clone for Claims {
    fn clone(&self) -> (r: Claims)
        ensures
            r == *self,
    {
        Claims {
            iss: self.iss.clone(),
            sub: self.sub.clone(),
            user: match &self.user {
                Some(u) => Some(u.clone()),
                None => None,
            },
            exp: self.exp,
        }
    }
}

impl ClaimsView {
    /// The subject in full: as the token carries it, else its identifier alone.
    pub open spec fn subject(self) -> JwtSubView {
        match self.user {
            Some(u) => u,
            None => JwtSubView { _id: self.sub, name: Seq::empty(), googleAccount: false },
        }
    }
}

impl Claims {
    /// The identifier of the user.
    pub fn sub_id(&self) -> (r: &str)
        ensures
            r@ == self@.sub,
    {
        self.sub.as_str()
    }

    /// The subject, where the token carries it in full.
    pub fn sub_obj(&self) -> (r: Option<&JwtSub>)
        ensures
            match r {
                Some(u) => self.user == Some(*u),
                None => self.user is None,
            },
    {
        match &self.user {
            Some(u) => Some(u),
            None => None,
        }
    }

    /// The subject in full, with an empty name where the token carries only
    /// its identifier.
    pub fn jwt_sub(&self) -> (r: JwtSub)
        ensures
            r@ == self@.subject(),
    {
        match &self.user {
            Some(u) => u.clone(),
            None => JwtSub {
                _id: self.sub.clone(),
                name: String::new(),
                googleAccount: false,
            },
        }
    }
}

/// Why a JSON value is no claims.
#[derive(Clone, Copy, Debug, PartialEq, Eq, Structural)]
pub enum ClaimsError {
    ExpectedObject,
    InvalidSubObject,
    InvalidSubType,
    MissingSub,
}

/// The subject that a JSON value writes: an object with the three members, or
/// an array of the three values.
pub open spec fn jwt_sub_of(v: JsonView) -> Option<JwtSubView> {
    match v {
        JsonView::Object(_) => sub_of_parts(
            v.member("_id"@),
            v.member("name"@),
            v.member("googleAccount"@),
        ),
        JsonView::Array(items) => if items.len() == 3 {
            sub_of_parts(Some(items[0]), Some(items[1]), Some(items[2]))
        } else {
            None
        },
        _ => None,
    }
}

/// The subject of three values, where they are there and of the right kind.
pub open spec fn sub_of_parts(
    id: Option<JsonView>,
    name: Option<JsonView>,
    google: Option<JsonView>,
) -> Option<JwtSubView> {
    match (id, name, google) {
        (Some(i), Some(n), Some(g)) => match (i.text(), n.text(), g.boolean()) {
            (Some(_id), Some(name), Some(googleAccount)) => Some(
                JwtSubView { _id, name, googleAccount },
            ),
            _ => None,
        },
        _ => None,
    }
}

fn sub_from_parts(id: Option<&Json>, name: Option<&Json>, google: Option<&Json>) -> (r: Option<
    JwtSub,
>)
    ensures
        sub_view(r) == sub_of_parts(
            match id {
                Some(v) => Some(v@),
                None => None,
            },
            match name {
                Some(v) => Some(v@),
                None => None,
            },
            match google {
                Some(v) => Some(v@),
                None => None,
            },
        ),
{
    match (id, name, google) {
        (Some(i), Some(n), Some(g)) => match (i.as_str(), n.as_str(), g.as_bool()) {
            (Some(_id), Some(name), Some(googleAccount)) => Some(
                JwtSub { _id: owned(_id), name: owned(name), googleAccount },
            ),
            _ => None,
        },
        _ => None,
    }
}

/// Reads a subject from JSON.
pub fn jwt_sub_from_json(v: &Json) -> (r: Option<JwtSub>)
    ensures
        sub_view(r) == jwt_sub_of(v@),
{
    match v {
        Json::Object(_) => sub_from_parts(v.get("_id"), v.get("name"), v.get("googleAccount")),
        Json::Array(items) => {
            if items.len() == 3 {
                sub_from_parts(Some(&items[0]), Some(&items[1]), Some(&items[2]))
            } else {
                None
            }
        },
        _ => None,
    }
}

/// The subject under the member `user`.
pub open spec fn user_member(v: JsonView) -> Option<JwtSubView> {
    match v.member("user"@) {
        Some(u) => jwt_sub_of(u),
        None => None,
    }
}

/// What the member `sub` gives: the identifier and the subject. A text is the
/// identifier, beside which `user` may hold the subject; an object is the
/// subject itself.
pub open spec fn sub_member(v: JsonView) -> Result<(Seq<char>, Option<JwtSubView>), ClaimsError> {
    match v.member("sub"@) {
        None => Ok((Seq::empty(), None)),
        Some(JsonView::Text(s)) => Ok((s, user_member(v))),
        Some(JsonView::Object(m)) => match jwt_sub_of(JsonView::Object(m)) {
            Some(u) => Ok((u._id, Some(u))),
            None => Err(ClaimsError::InvalidSubObject),
        },
        Some(_) => Err(ClaimsError::InvalidSubType),
    }
}

/// The claims that a JSON value writes. Where `sub` gives no identifier,
/// `user` does.
pub open spec fn claims_of(v: JsonView) -> Result<ClaimsView, ClaimsError> {
    if !(v is Object) {
        Err(ClaimsError::ExpectedObject)
    } else {
        match sub_member(v) {
            Err(e) => Err(e),
            Ok((id, user)) => {
                let (sub, user) = if id.len() == 0 && user_member(v) is Some {
                    (user_member(v)->0._id, user_member(v))
                } else {
                    (id, user)
                };
                if sub.len() == 0 {
                    Err(ClaimsError::MissingSub)
                } else {
                    Ok(
                        ClaimsView {
                            iss: match text_member(v, "iss"@) {
                                Some(s) => s,
                                None => "login-form"@,
                            },
                            sub,
                            user,
                            exp: match v.member("exp"@) {
                                Some(n) => match n.unsigned() {
                                    Some(exp) => exp,
                                    None => 0,
                                },
                                None => 0,
                            },
                        },
                    )
                }
            },
        }
    }
}

/// Reads claims from JSON: tokens whose `sub` is a text, beside which `user`
/// may hold the subject, and older ones whose `sub` is the subject.
pub fn claims_from_json(v: &Json) -> (r: Result<Claims, ClaimsError>)
    ensures
        match r {
            Ok(c) => claims_of(v@) == Ok::<ClaimsView, ClaimsError>(c@),
            Err(e) => claims_of(v@) == Err::<ClaimsView, ClaimsError>(e),
        },
{
    match v {
        Json::Object(_) => {},
        _ => {
            return Err(ClaimsError::ExpectedObject);
        },
    }
    let iss = match v.get_str("iss") {
        Some(s) => owned(s),
        None => owned("login-form"),
    };
    let exp: u64 = match v.get("exp") {
        Some(n) => match n.as_u64() {
            Some(exp) => exp,
            None => 0,
        },
        None => 0,
    };
    let named = match v.get("user") {
        Some(u) => jwt_sub_from_json(u),
        None => None,
    };
    let (id, user) = match v.get("sub") {
        None => (String::new(), None),
        Some(sub) => match sub {
            Json::Text(s) => (
                s.clone(),
                match &named {
                    Some(u) => Some(u.clone()),
                    None => None,
                },
            ),
            Json::Object(_) => match jwt_sub_from_json(sub) {
                Some(u) => (u._id.clone(), Some(u)),
                None => {
                    return Err(ClaimsError::InvalidSubObject);
                },
            },
            _ => {
                return Err(ClaimsError::InvalidSubType);
            },
        },
    };
    let no_id = id.as_str().unicode_len() == 0;
    let (sub, user) = match named {
        Some(u) => {
            if no_id {
                (u._id.clone(), Some(u))
            } else {
                (id, user)
            }
        },
        None => (id, user),
    };
    if sub.as_str().unicode_len() == 0 {
        return Err(ClaimsError::MissingSub);
    }
    Ok(Claims { iss, sub, user, exp })
}

// ---------- signed tokens ----------

/// An error of `jsonwebtoken`.
#[verifier::external_type_specification]
#[verifier::external_body]
pub struct ExJwtError(jsonwebtoken::errors::Error);

/// The text of the HS512 token that `jsonwebtoken::encode` signs.
pub uninterp spec fn jwt_text(claims: JsonView, secret: Seq<char>) -> Seq<char>;

/// The claims of an HS512 token that `jsonwebtoken::decode` accepts when it
/// leaves the expiry aside, `None` for a token that it rejects.
pub uninterp spec fn jwt_claims(token: Seq<char>, secret: Seq<char>) -> Option<JsonView>;

/// Claims that pass the validation of `jsonwebtoken`, the expiry aside: an
/// expiry, a subject and an issuer that are read, and no audience.
pub open spec fn is_valid_claims(claims: JsonView) -> bool {
    &&& claims.member("exp"@) is Some
    &&& claims.member("exp"@)->0.unsigned() is Some
    &&& text_member(claims, "sub"@) is Some
    &&& text_member(claims, "iss"@) is Some
    &&& claims.member("aud"@) is None
    &&& claims.member("nbf"@) is None
}

/// A text of letters, digits, `-`, `_` and `.`.
pub open spec fn is_token_text(token: Seq<char>) -> bool {
    token.len() > 0 && forall|i: int|
        0 <= i < token.len() ==> is_ascii_alphanumeric(#[trigger] token[i]) || token[i] == '-'
            || token[i] == '_' || token[i] == '.'
}

/// `jsonwebtoken::encode` with HS512 and the secret's bytes as the key. It
/// signs any JSON value, into base64url parts joined by dots, and the same
/// value and secret give the same token. `jsonwebtoken::decode` gives valid
/// claims back.
#[verifier::external_body]
fn jwt_encode(claims: &serde_json::Value, secret: &str) -> (r: Result<
    String,
    jsonwebtoken::errors::Error,
>)
    requires
        is_plain(json_content(*claims)),
    ensures
        r is Ok,
        r->Ok_0@ == jwt_text(json_content(*claims), secret@),
        is_token_text(r->Ok_0@),
        is_valid_claims(json_content(*claims)) ==> jwt_claims(r->Ok_0@, secret@) == Some(
            json_content(*claims),
        ),
{
    jsonwebtoken::encode(
        &jsonwebtoken::Header::new(jsonwebtoken::Algorithm::HS512),
        claims,
        &jsonwebtoken::EncodingKey::from_secret(secret.as_bytes()),
    )
}

/// `jsonwebtoken::decode` with the default validation for HS512 and the
/// secret's bytes as the key. With `check_expiry` it also rejects a token that
/// expired more than a minute before the time of the system's clock, of which
/// nothing is said here.
#[verifier::external_body]
fn jwt_decode(token: &str, secret: &str, check_expiry: bool) -> (r: Result<
    serde_json::Value,
    jsonwebtoken::errors::Error,
>)
    ensures
        r is Ok ==> jwt_claims(token@, secret@) == Some(json_content(r->Ok_0)),
        r is Err ==> check_expiry || jwt_claims(token@, secret@) is None,
{
    let mut validation = jsonwebtoken::Validation::new(jsonwebtoken::Algorithm::HS512);
    validation.validate_exp = check_expiry;
    jsonwebtoken::decode::<serde_json::Value>(
        token,
        &jsonwebtoken::DecodingKey::from_secret(secret.as_bytes()),
        &validation,
    ).map(|data| data.claims)
}

/// Why a token is not accepted.
#[derive(Clone, Copy, Debug, PartialEq, Eq, Structural)]
pub enum TokenError {
    /// It is malformed, or its signature or its registered claims are not
    /// accepted.
    Rejected,
    /// It is signed, but what it says is no claims.
    Claims(ClaimsError),
}

/// What `decode_token` gives for a token.
pub open spec fn token_claims(token: Seq<char>, secret: Seq<char>) -> Result<
    ClaimsView,
    TokenError,
> {
    match jwt_claims(token, secret) {
        None => Err(TokenError::Rejected),
        Some(v) => match claims_of(v) {
            Ok(c) => Ok(c),
            Err(e) => Err(TokenError::Claims(e)),
        },
    }
}

/// The result as a mathematical value.
pub open spec fn claims_view(r: Result<Claims, TokenError>) -> Result<ClaimsView, TokenError> {
    match r {
        Ok(c) => Ok(c@),
        Err(e) => Err(e),
    }
}

/// The claims of a token whose signature is good, expired or not.
pub fn decode_token(token: &str, secret: &str) -> (r: Result<Claims, TokenError>)
    ensures
        claims_view(r) == token_claims(token@, secret@),
{
    match jwt_decode(token, secret, false) {
        Err(_) => Err(TokenError::Rejected),
        Ok(value) => match claims_from_json(&from_value(value)) {
            Ok(c) => Ok(c),
            Err(e) => Err(TokenError::Claims(e)),
        },
    }
}

/// `jsonwebtoken::decode` was called on a token, with the check of its expiry by
/// the system's clock, and rejected it.
pub closed spec fn was_rejected(token: Seq<char>, secret: Seq<char>) -> bool {
    exists|t: &str, s: &str, e: jsonwebtoken::errors::Error|
        t@ == token && s@ == secret && #[trigger] call_ensures(
            jwt_decode,
            (t, s, true),
            Err::<serde_json::Value, jsonwebtoken::errors::Error>(e),
        )
}

/// Calls a function that decodes, and keeps that the result is what it returned.
fn decoded_by(
    decode: impl Fn(&str, &str, bool) -> Result<serde_json::Value, jsonwebtoken::errors::Error>,
    token: &str,
    secret: &str,
    check_expiry: bool,
) -> (r: Result<serde_json::Value, jsonwebtoken::errors::Error>)
    requires
        call_requires(decode, (token, secret, check_expiry)),
    ensures
        call_ensures(decode, (token, secret, check_expiry), r),
{
    decode(token, secret, check_expiry)
}

/// The claims of a token whose signature is good and that has not expired by
/// the system's clock. Whether a token is rejected for its expiry is up to the
/// clock, so a good token may be rejected here as well, but only where
/// `jsonwebtoken` rejects it.
pub open spec fn is_live_result(
    r: Result<ClaimsView, TokenError>,
    token: Seq<char>,
    secret: Seq<char>,
) -> bool {
    r == token_claims(token, secret) || (was_rejected(token, secret) && r == Err::<
        ClaimsView,
        TokenError,
    >(TokenError::Rejected))
}

/// As `decode_token`, but a token that expired more than a minute ago is
/// rejected.
pub fn decode_live_token(token: &str, secret: &str) -> (r: Result<Claims, TokenError>)
    ensures
        is_live_result(claims_view(r), token@, secret@),
{
    match decoded_by(jwt_decode, token, secret, true) {
        Err(_) => Err(TokenError::Rejected),
        Ok(value) => match claims_from_json(&from_value(value)) {
            Ok(c) => Ok(c),
            Err(e) => Err(TokenError::Claims(e)),
        },
    }
}

/// The JSON form of a subject.
pub open spec fn sub_json(sub: JwtSubView) -> JsonView {
    JsonView::Object(
        seq![
            ("_id"@, JsonView::Text(sub._id)),
            ("name"@, JsonView::Text(sub.name)),
            ("googleAccount"@, JsonView::Bool(sub.googleAccount)),
        ],
    )
}

/// The JSON form of the claims of a new session.
pub open spec fn session_json(sub: JwtSubView, exp: u64) -> JsonView {
    JsonView::Object(
        seq![
            ("iss"@, JsonView::Text("login-form"@)),
            ("sub"@, JsonView::Text(sub._id)),
            ("user"@, sub_json(sub)),
            ("exp"@, JsonView::Number(unsigned_number(exp))),
        ],
    )
}

/// The claims of a new session.
pub open spec fn session_claims(sub: JwtSubView, exp: u64) -> ClaimsView {
    ClaimsView { iss: "login-form"@, sub: sub._id, user: Some(sub), exp }
}

/// When a session that starts now ends.
pub open spec fn session_expiry(now: UtcTime) -> u64 {
    (now.secs + 604800) as u64
}

proof fn lemma_claim_names()
    ensures
        "iss"@ != "sub"@,
        "iss"@ != "user"@,
        "iss"@ != "exp"@,
        "iss"@ != "aud"@,
        "iss"@ != "nbf"@,
        "iss"@ != "purpose"@,
        "sub"@ != "user"@,
        "sub"@ != "exp"@,
        "sub"@ != "aud"@,
        "sub"@ != "nbf"@,
        "sub"@ != "purpose"@,
        "user"@ != "exp"@,
        "user"@ != "aud"@,
        "user"@ != "nbf"@,
        "user"@ != "purpose"@,
        "exp"@ != "aud"@,
        "exp"@ != "nbf"@,
        "exp"@ != "purpose"@,
        "purpose"@ != "aud"@,
        "purpose"@ != "nbf"@,
        "_id"@ != "name"@,
        "_id"@ != "googleAccount"@,
        "name"@ != "googleAccount"@,
{
    reveal_strlit("iss");
    reveal_strlit("sub");
    reveal_strlit("user");
    reveal_strlit("exp");
    reveal_strlit("aud");
    reveal_strlit("nbf");
    reveal_strlit("purpose");
    reveal_strlit("_id");
    reveal_strlit("name");
    reveal_strlit("googleAccount");
    assert("iss"@[0] == 'i' && "sub"@[0] == 's' && "user"@[0] == 'u' && "exp"@[0] == 'e');
    assert("aud"@[0] == 'a' && "nbf"@[0] == 'n' && "purpose"@[0] == 'p');
    assert("_id"@[0] == '_' && "name"@[0] == 'n' && "googleAccount"@[0] == 'g');
}

/// The JSON form of a session's claims is plain, valid, and reads back.
proof fn lemma_session_json(sub: JwtSubView, exp: u64)
    ensures
        is_plain(session_json(sub, exp)),
        is_valid_claims(session_json(sub, exp)),
        sub._id.len() > 0 ==> claims_of(session_json(sub, exp)) == Ok::<ClaimsView, ClaimsError>(
            session_claims(sub, exp),
        ),
        text_member(session_json(sub, exp), "purpose"@) is None,
{
    lemma_claim_names();
    reveal_with_fuel(crate::json::first_member, 6);
    let v = session_json(sub, exp);
    let m = v->Object_0;
    assert(m.skip(1)[0] == m[1]);
    assert(m.skip(1).skip(1)[0] == m[2]);
    assert(m.skip(1).skip(1).skip(1)[0] == m[3]);
    assert(m.skip(1).skip(1).skip(1).skip(1).len() == 0);
    let u = sub_json(sub);
    let w = u->Object_0;
    assert(w.skip(1)[0] == w[1]);
    assert(w.skip(1).skip(1)[0] == w[2]);
    assert(is_record(u));
}

/// The JSON form of a session's claims reads back as the claims.
pub proof fn lemma_session_claims(sub: JwtSubView, exp: u64)
    requires
        sub._id.len() > 0,
    ensures
        claims_of(session_json(sub, exp)) == Ok::<ClaimsView, ClaimsError>(
            session_claims(sub, exp),
        ),
{
    lemma_session_json(sub, exp);
}

fn sub_to_json(sub: &JwtSub) -> (r: Json)
    ensures
        r@ == sub_json(sub@),
{
    let r = Json::Object(
        vec![
            (owned("_id"), Json::Text(sub._id.clone())),
            (owned("name"), Json::Text(sub.name.clone())),
            (owned("googleAccount"), Json::Bool(sub.googleAccount)),
        ],
    );
    proof {
        reveal_with_fuel(Json::view, 2);
        assert(r@->Object_0 =~= sub_json(sub@)->Object_0);
    }
    r
}

fn number_json(n: u64) -> (r: Json)
    ensures
        r@ == JsonView::Number(unsigned_number(n)),
{
    Json::Number(
        JsonNumber {
            signed: if n <= i64::MAX as u64 {
                Some(n as i64)
            } else {
                None
            },
            unsigned: Some(n),
        },
    )
}

/// A session token for `sub` that expires at `exp`.
pub fn create_token_until(sub: &JwtSub, secret: &str, exp: u64) -> (r: Result<String, TokenError>)
    ensures
        r is Ok,
        r->Ok_0@ == jwt_text(session_json(sub@, exp), secret@),
        is_token_text(r->Ok_0@),
        sub._id@.len() > 0 ==> token_claims(r->Ok_0@, secret@) == Ok::<ClaimsView, TokenError>(
            session_claims(sub@, exp),
        ),
        jwt_claims(r->Ok_0@, secret@) == Some(session_json(sub@, exp)),
{
    let claims = Json::Object(
        vec![
            (owned("iss"), Json::Text(owned("login-form"))),
            (owned("sub"), Json::Text(sub._id.clone())),
            (owned("user"), sub_to_json(sub)),
            (owned("exp"), number_json(exp)),
        ],
    );
    proof {
        lemma_session_json(sub@, exp);
        reveal_with_fuel(Json::view, 2);
        assert(claims@->Object_0 =~= session_json(sub@, exp)->Object_0);
        lemma_plain_is_whole(claims@);
    }
    match jwt_encode(&to_value(claims), secret) {
        Ok(token) => Ok(token),
        Err(_) => Err(TokenError::Rejected),
    }
}

/// A session token for `sub` that is minted at `now` and lasts seven days.
pub fn create_token_at(sub: &JwtSub, secret: &str, now: UtcTime) -> (r: Result<String, TokenError>)
    requires
        now.is_clock(),
    ensures
        r is Ok,
        r->Ok_0@ == jwt_text(session_json(sub@, session_expiry(now)), secret@),
        is_token_text(r->Ok_0@),
        sub._id@.len() > 0 ==> token_claims(r->Ok_0@, secret@) == Ok::<ClaimsView, TokenError>(
            session_claims(sub@, session_expiry(now)),
        ),
        jwt_claims(r->Ok_0@, secret@) == Some(session_json(sub@, session_expiry(now))),
{
    create_token_until(sub, secret, now.secs as u64 + 604800)
}

/// A session token for `sub` that lasts seven days from the time of the call.
pub fn create_token(sub: JwtSub, secret: &str) -> (r: Result<String, TokenError>)
    ensures
        r is Ok,
        is_token_text(r->Ok_0@),
        exists|now: UtcTime|
            now.is_clock() && r->Ok_0@ == jwt_text(
                session_json(sub@, #[trigger] session_expiry(now)),
                secret@,
            ) && (sub._id@.len() > 0 ==> token_claims(r->Ok_0@, secret@) == Ok::<
                ClaimsView,
                TokenError,
            >(session_claims(sub@, session_expiry(now)))),
{
    let now = clock();
    create_token_at(&sub, secret, now)
}

// ---------- single-purpose tokens ----------

/// How long a reset token lasts: fifteen minutes.
pub const RESET_TOKEN_SECS: i64 = 900;

/// How long a token for a pending second factor lasts: ten minutes.
pub const TFA_TOKEN_SECS: i64 = 600;

/// The JSON form of the claims of a single-purpose token.
pub open spec fn purpose_json(user_id: Seq<char>, purpose: Seq<char>, exp: u64) -> JsonView {
    JsonView::Object(
        seq![
            ("iss"@, JsonView::Text("login-form"@)),
            ("sub"@, JsonView::Text(user_id)),
            ("purpose"@, JsonView::Text(purpose)),
            ("exp"@, JsonView::Number(unsigned_number(exp))),
        ],
    )
}

/// The user whom a token speaks for, where it is of this purpose and has not
/// expired.
pub open spec fn purpose_owner(
    token: Seq<char>,
    secret: Seq<char>,
    purpose: Seq<char>,
    now: UtcTime,
) -> Option<Seq<char>> {
    match jwt_claims(token, secret) {
        None => None,
        Some(v) => if text_member(v, "purpose"@) == Some(purpose) && v.member("exp"@) is Some
            && v.member("exp"@)->0.unsigned() is Some && v.member("exp"@)->0.unsigned()->0
            >= now.secs {
            text_member(v, "sub"@)
        } else {
            None
        },
    }
}

/// The view under an option.
pub open spec fn text_view(s: Option<String>) -> Option<Seq<char>> {
    match s {
        Some(t) => Some(t@),
        None => None,
    }
}

proof fn lemma_purpose_json(user_id: Seq<char>, purpose: Seq<char>, exp: u64)
    ensures
        is_plain(purpose_json(user_id, purpose, exp)),
        is_valid_claims(purpose_json(user_id, purpose, exp)),
        text_member(purpose_json(user_id, purpose, exp), "purpose"@) == Some(purpose),
        text_member(purpose_json(user_id, purpose, exp), "sub"@) == Some(user_id),
        purpose_json(user_id, purpose, exp).member("exp"@)->0.unsigned() == Some(exp),
{
    lemma_claim_names();
    reveal_with_fuel(crate::json::first_member, 6);
    let m = purpose_json(user_id, purpose, exp)->Object_0;
    assert(m.skip(1)[0] == m[1]);
    assert(m.skip(1).skip(1)[0] == m[2]);
    assert(m.skip(1).skip(1).skip(1)[0] == m[3]);
    assert(m.skip(1).skip(1).skip(1).skip(1).len() == 0);
}

fn purpose_token(user_id: &str, purpose: &str, secret: &str, secs: i64, now: UtcTime) -> (r: Result<
    String,
    TokenError,
>)
    requires
        now.is_clock(),
        0 <= secs <= 604800,
    ensures
        r is Ok,
        is_token_text(r->Ok_0@),
        jwt_claims(r->Ok_0@, secret@) == Some(
            purpose_json(user_id@, purpose@, (now.secs + secs) as u64),
        ),
        r->Ok_0@ == jwt_text(
            purpose_json(user_id@, purpose@, (now.secs + secs) as u64),
            secret@,
        ),
{
    let exp: u64 = now.secs as u64 + secs as u64;
    let claims = Json::Object(
        vec![
            (owned("iss"), Json::Text(owned("login-form"))),
            (owned("sub"), Json::Text(owned(user_id))),
            (owned("purpose"), Json::Text(owned(purpose))),
            (owned("exp"), number_json(exp)),
        ],
    );
    proof {
        lemma_purpose_json(user_id@, purpose@, exp);
        reveal_with_fuel(Json::view, 2);
        assert(claims@->Object_0 =~= purpose_json(user_id@, purpose@, exp)->Object_0);
        lemma_plain_is_whole(claims@);
    }
    match jwt_encode(&to_value(claims), secret) {
        Ok(token) => Ok(token),
        Err(_) => Err(TokenError::Rejected),
    }
}

fn verify_purpose(token: &str, purpose: &str, secret: &str, now: UtcTime) -> (r: Option<String>)
    ensures
        text_view(r) == purpose_owner(token@, secret@, purpose@, now),
{
    match jwt_decode(token, secret, false) {
        Err(_) => None,
        Ok(value) => {
            let v = from_value(value);
            let right = match v.get_str("purpose") {
                Some(p) => same(p, purpose),
                None => false,
            };
            let live = match v.get("exp") {
                Some(n) => match n.as_u64() {
                    Some(exp) => now.secs < 0 || exp >= now.secs as u64,
                    None => false,
                },
                None => false,
            };
            if right && live {
                match v.get_str("sub") {
                    Some(s) => Some(owned(s)),
                    None => None,
                }
            } else {
                None
            }
        },
    }
}

/// A proof of email ownership for the next recovery step.
pub fn create_reset_token(user_id: &str, secret: &str, now: UtcTime) -> (r: Result<
    String,
    TokenError,
>)
    requires
        now.is_clock(),
    ensures
        r is Ok,
        is_token_text(r->Ok_0@),
        jwt_claims(r->Ok_0@, secret@) == Some(
            purpose_json(user_id@, "reset"@, (now.secs + RESET_TOKEN_SECS) as u64),
        ),
        r->Ok_0@ == jwt_text(
            purpose_json(user_id@, "reset"@, (now.secs + RESET_TOKEN_SECS) as u64),
            secret@,
        ),
{
    purpose_token(user_id, "reset", secret, RESET_TOKEN_SECS, now)
}

/// The user whose email ownership a token proves at `now`.
pub fn verify_reset_token(token: &str, secret: &str, now: UtcTime) -> (r: Option<String>)
    ensures
        text_view(r) == purpose_owner(token@, secret@, "reset"@, now),
{
    verify_purpose(token, "reset", secret, now)
}

/// A proof that the first factor was accepted and the second is pending.
pub fn create_tfa_token(user_id: &str, secret: &str, now: UtcTime) -> (r: Result<
    String,
    TokenError,
>)
    requires
        now.is_clock(),
    ensures
        r is Ok,
        is_token_text(r->Ok_0@),
        jwt_claims(r->Ok_0@, secret@) == Some(
            purpose_json(user_id@, "tfa"@, (now.secs + TFA_TOKEN_SECS) as u64),
        ),
        r->Ok_0@ == jwt_text(
            purpose_json(user_id@, "tfa"@, (now.secs + TFA_TOKEN_SECS) as u64),
            secret@,
        ),
{
    purpose_token(user_id, "tfa", secret, TFA_TOKEN_SECS, now)
}

/// The user whose second factor a token shows to be pending at `now`.
pub fn verify_tfa_token(token: &str, secret: &str, now: UtcTime) -> (r: Option<String>)
    ensures
        text_view(r) == purpose_owner(token@, secret@, "tfa"@, now),
{
    verify_purpose(token, "tfa", secret, now)
}

/// A single-purpose token speaks for its user, for its purpose, until it
/// expires, and no longer.
pub proof fn law_purpose_token_lasts(
    token: Seq<char>,
    secret: Seq<char>,
    user_id: Seq<char>,
    purpose: Seq<char>,
    exp: u64,
    now: UtcTime,
)
    requires
        jwt_claims(token, secret) == Some(purpose_json(user_id, purpose, exp)),
    ensures
        purpose_owner(token, secret, purpose, now) == (if now.secs <= exp {
            Some(user_id)
        } else {
            None
        }),
{
    lemma_purpose_json(user_id, purpose, exp);
}

/// A token of one purpose proves nothing for another.
pub proof fn law_purposes_are_apart(
    token: Seq<char>,
    secret: Seq<char>,
    user_id: Seq<char>,
    purpose: Seq<char>,
    other: Seq<char>,
    exp: u64,
    now: UtcTime,
)
    requires
        jwt_claims(token, secret) == Some(purpose_json(user_id, purpose, exp)),
        purpose != other,
    ensures
        purpose_owner(token, secret, other, now) is None,
{
    lemma_purpose_json(user_id, purpose, exp);
}

/// A session token proves nothing in place of a single-purpose token.
pub proof fn law_session_token_has_no_purpose(
    token: Seq<char>,
    secret: Seq<char>,
    sub: JwtSubView,
    exp: u64,
    purpose: Seq<char>,
    now: UtcTime,
)
    requires
        jwt_claims(token, secret) == Some(session_json(sub, exp)),
    ensures
        purpose_owner(token, secret, purpose, now) is None,
{
    lemma_session_json(sub, exp);
}

// ---------- passwords ----------

/// An error of `bcrypt`.
#[verifier::external_type_specification]
#[verifier::external_body]
pub struct ExBcryptError(bcrypt::BcryptError);

/// What `bcrypt::verify` says of a password and a hash, `None` where the hash
/// is malformed.
pub uninterp spec fn bcrypt_matches(password: Seq<char>, hash: Seq<char>) -> Option<bool>;

/// The cost of a password hash.
pub const HASH_COST: u32 = 10;

/// `hash` is the text of a hash of this cost: the version, the cost in two
/// digits, and 53 characters of salt and hash.
pub open spec fn is_hash_text(hash: Seq<char>, cost: int) -> bool {
    hash.len() == 60 && hash.take(7) == "$2b$"@ + two_digits(cost) + "$"@
}

/// `bcrypt::hash`: a hash of the cost, with which `bcrypt::verify` accepts the
/// password. The salt is random, so nothing else is said of the hash. With a
/// cost that is allowed it fails only where the system has no random bytes to
/// give; whether it has any is not for the arguments to decide, so no success
/// is promised.
#[verifier::external_body]
fn bcrypt_hash(password: &str, cost: u32) -> (r: Result<String, bcrypt::BcryptError>)
    requires
        4 <= cost <= 31,
    ensures
        r is Ok ==> bcrypt_matches(password@, r->Ok_0@) == Some(true),
        r is Ok ==> is_hash_text(r->Ok_0@, cost as int),
{
    bcrypt::hash(password, cost)
}

/// `bcrypt::verify`: whether a password has this hash.
#[verifier::external_body]
fn bcrypt_verify(password: &str, hash: &str) -> (r: Result<bool, bcrypt::BcryptError>)
    ensures
        r is Ok ==> bcrypt_matches(password@, hash@) == Some(r->Ok_0),
        r is Err ==> bcrypt_matches(password@, hash@) is None,
{
    bcrypt::verify(password, hash)
}

/// `bcrypt::hash` was called on a password and failed.
pub closed spec fn hash_failed(password: Seq<char>) -> bool {
    exists|p: &str, e: bcrypt::BcryptError|
        p@ == password && #[trigger] call_ensures(
            bcrypt_hash,
            (p, HASH_COST),
            Err::<String, bcrypt::BcryptError>(e),
        )
}

/// Calls a function that hashes, and keeps that the result is what it returned.
fn hashed_by(
    hash: impl Fn(&str, u32) -> Result<String, bcrypt::BcryptError>,
    password: &str,
    cost: u32,
) -> (r: Result<String, bcrypt::BcryptError>)
    requires
        call_requires(hash, (password, cost)),
    ensures
        call_ensures(hash, (password, cost), r),
{
    hash(password, cost)
}

/// A hash that a password matches, of the cost that passwords are hashed with;
/// `None` only where `bcrypt` was asked for one and had none to give: there was
/// no randomness for its salt.
pub fn hash_password(password: &str) -> (r: Option<String>)
    ensures
        r is Some ==> bcrypt_matches(password@, r->0@) == Some(true),
        r is Some ==> is_hash_text(r->0@, HASH_COST as int),
        r is None ==> hash_failed(password@),
{
    match hashed_by(bcrypt_hash, password, HASH_COST) {
        Ok(h) => Some(h),
        Err(_) => None,
    }
}

/// Whether a password matches a hash, `None` where the hash is malformed.
pub fn verify_password(password: &str, hash: &str) -> (r: Option<bool>)
    ensures
        r == bcrypt_matches(password@, hash@),
{
    match bcrypt_verify(password, hash) {
        Ok(b) => Some(b),
        Err(_) => None,
    }
}

/// A password is without a hash only where `bcrypt` was asked for one and gave
/// an error.
proof fn law_only_bcrypt_gives_no_hash(password: Seq<char>)
    requires
        hash_failed(password),
    ensures
        exists|p: &str, e: bcrypt::BcryptError|
            p@ == password && #[trigger] call_ensures(
                bcrypt_hash,
                (p, 10),
                Err::<String, bcrypt::BcryptError>(e),
            ),
{
}

/// A token that has not expired is rejected only where `jsonwebtoken` was asked
/// for its claims and gave an error.
proof fn law_only_jsonwebtoken_rejects(token: Seq<char>, secret: Seq<char>)
    requires
        was_rejected(token, secret),
    ensures
        exists|t: &str, s: &str, e: jsonwebtoken::errors::Error|
            t@ == token && s@ == secret && #[trigger] call_ensures(
                jwt_decode,
                (t, s, true),
                Err::<serde_json::Value, jsonwebtoken::errors::Error>(e),
            ),
{
}

/// A hash is of the password, and took `bcrypt` a cost of ten.
pub proof fn law_hash_is_of_the_password(password: &str, r: Option<String>)
    requires
        call_ensures(hash_password, (password,), r),
    ensures
        r matches Some(hash) ==> bcrypt_matches(password@, hash@) == Some(true) && is_hash_text(
            hash@,
            10,
        ),
        r is None ==> hash_failed(password@),
{
}

} // verus!
