//! Passkeys: what `webauthn-rs` checks, as texts and bytes.
//!
//! Credentials, assertions, passkeys and the states of ceremonies are the JSON
//! texts that `serde_json` reads them from and writes them to.

use vstd::prelude::*;
#[allow(unused_imports)]
use vstd::string::*;

#[allow(unused_imports)]
use crate::encoding::base64_text;
use crate::json::{from_value, value_text, Json};
#[allow(unused_imports)]
use crate::json::{is_whole, json_content, json_text, text_member, JsonView};

verus! {

/// The site that passkeys are bound to.
pub struct Party<'a> {
    pub id: &'a str,
    pub origin: &'a str,
    pub name: &'a str,
}

/// `webauthn-rs` accepts the identifier for the origin: the origin is a URL,
/// and the identifier is its domain or a parent of it.
pub uninterp spec fn is_party(id: Seq<char>, origin: Seq<char>) -> bool;

/// `url::Url::parse` of the origin and `webauthn_rs::WebauthnBuilder::new`, of
/// which only the verdict is kept: a function of the two texts.
#[verifier::external_body]
fn party_accepted(id: &str, origin: &str) -> (r: bool)
    ensures
        r == is_party(id@, origin@),
{
    webauthn_rs::prelude::Url::parse(origin)
        .is_ok_and(|url| webauthn_rs::WebauthnBuilder::new(id, &url).is_ok())
}

impl<'a> Party<'a> {
    /// Whether passkeys can be bound to this site.
    pub open spec fn is_valid(self) -> bool {
        is_party(self.id@, self.origin@)
    }

    /// Whether passkeys can be bound to this site.
    pub fn check(&self) -> (r: bool)
        ensures
            r == self.is_valid(),
    {
        party_accepted(self.id, self.origin)
    }
}

// ---------- handles ----------

/// The bytes of the version 5 UUID of a text in the namespace for URLs.
pub uninterp spec fn uuid_of(text: Seq<char>) -> Seq<u8>;

/// `uuid::Uuid::new_v5` in the namespace for URLs: sixteen bytes, a function of
/// the text.
#[verifier::external_body]
fn uuid_v5(text: &str) -> (r: Vec<u8>)
    ensures
        r@ == uuid_of(text@),
        r@.len() == 16,
{
    uuid::Uuid::new_v5(&uuid::Uuid::NAMESPACE_URL, text.as_bytes()).as_bytes().to_vec()
}

/// The handle of a user: the same at every sign-in.
pub fn user_uuid(user_id_hex: &str) -> (r: Vec<u8>)
    ensures
        r@ == uuid_of(user_id_hex@),
        r@.len() == 16,
{
    uuid_v5(user_id_hex)
}

// ---------- registration ----------

/// The text at two names.
pub open spec fn text_at(v: JsonView, outer: Seq<char>, inner: Seq<char>) -> Option<Seq<char>> {
    match v.member(outer) {
        Some(m) => text_member(m, inner),
        None => None,
    }
}

/// A ceremony that has begun: the options for the browser and the state to keep.
pub struct Started {
    pub options: serde_json::Value,
    pub state: serde_json::Value,
}

/// The state of a ceremony, read under the name `kept`, holds the challenge that
/// the options put to the browser.
pub open spec fn same_challenge(state: JsonView, kept: Seq<char>, options: JsonView) -> bool {
    text_at(state, kept, "challenge"@) is Some && text_at(state, kept, "challenge"@) == text_member(
        options,
        "challenge"@,
    )
}

/// `state` is the text of the state of a registration that put the challenge of
/// `options` to the browser.
pub open spec fn keeps_registration(state: Seq<char>, options: JsonView) -> bool {
    reads_as_registration(state) && exists|v: JsonView| #[trigger]
        json_text(v) == state && same_challenge(v, "rs"@, options)
}

/// `state` is the text of the state of a sign-in that put the challenge of
/// `options` to the browser.
pub open spec fn keeps_authentication(state: Seq<char>, options: JsonView) -> bool {
    reads_as_authentication(state) && exists|v: JsonView| #[trigger]
        json_text(v) == state && same_challenge(v, "ast"@, options)
}

/// The bytes of each.
pub open spec fn byte_views(items: Seq<Vec<u8>>) -> Seq<Seq<u8>> {
    Seq::new(items.len(), |i: int| items[i]@)
}

/// `v` lists the credentials under `excludeCredentials`, in their order.
pub open spec fn excludes(v: JsonView, credentials: Seq<Seq<u8>>) -> bool {
    v.member("excludeCredentials"@) matches Some(JsonView::Array(items)) && items.len()
        == credentials.len() && forall|i: int|
        0 <= i < items.len() ==> text_member(#[trigger] items[i], "id"@) == Some(
            base64_text(credentials[i], true),
        )
}

/// `v` is the options of a registration at a site, for a user, that leaves out
/// the credentials that the user has. The user has to be verified.
pub open spec fn is_creation(
    v: JsonView,
    party_id: Seq<char>,
    party_name: Seq<char>,
    handle: Seq<u8>,
    email: Seq<char>,
    name: Seq<char>,
    credentials: Seq<Seq<u8>>,
) -> bool {
    &&& text_at(v, "rp"@, "id"@) == Some(party_id)
    &&& text_at(v, "rp"@, "name"@) == Some(party_name)
    &&& text_at(v, "user"@, "id"@) == Some(base64_text(handle, true))
    &&& text_at(v, "user"@, "name"@) == Some(email)
    &&& text_at(v, "user"@, "displayName"@) == Some(name)
    &&& text_at(v, "authenticatorSelection"@, "userVerification"@) == Some("required"@)
    &&& text_member(v, "challenge"@) is Some
    &&& excludes(v, credentials)
}

/// `webauthn_rs::Webauthn::start_passkey_registration`, with what it returns
/// written as JSON. It fails where the site is not accepted or a name is empty.
/// The challenge is random: of it is said that the state keeps the one that the
/// options put. The state has no two members of one name and no fraction, and
/// its text reads back as the state of a registration. `rand::rng` is taken to
/// have the random bytes of the challenge.
#[verifier::external_body]
fn registration_start(
    party: &Party,
    handle: &Vec<u8>,
    email: &str,
    name: &str,
    credentials: Vec<Vec<u8>>,
) -> (r: Option<Started>)
    requires
        handle@.len() == 16,
    ensures
        (r is Some) == (is_party(party.id@, party.origin@) && email@.len() > 0 && name@.len() > 0),
        r matches Some(s) ==> is_creation(
            json_content(s.options),
            party.id@,
            party.name@,
            handle@,
            email@,
            name@,
            byte_views(credentials@),
        ),
        r matches Some(s) ==> is_whole(json_content(s.state)) && reads_as_registration(
            json_text(json_content(s.state)),
        ) && same_challenge(json_content(s.state), "rs"@, json_content(s.options)),
{
    let url = webauthn_rs::prelude::Url::parse(party.origin).ok()?;
    let builder = webauthn_rs::WebauthnBuilder::new(party.id, &url).ok()?.rp_name(party.name);
    let user = uuid::Uuid::from_slice(handle).ok()?;
    let known = Some(credentials.into_iter().map(|c| c.into()).collect());
    let site = builder.build().ok()?;
    let (ccr, kept) = site.start_passkey_registration(user, email, name, known).ok()?;
    let state = serde_json::to_value(kept).ok()?;
    Some(Started { options: serde_json::to_value(ccr.public_key).ok()?, state })
}

/// A ceremony that has begun, with the options read.
pub struct Begun {
    pub options: Json,
    pub state: String,
}

/// Begins a registration.
pub fn start_registration(
    party: &Party,
    handle: &Vec<u8>,
    email: &str,
    name: &str,
    credentials: Vec<Vec<u8>>,
) -> (r: Option<Begun>)
    requires
        handle@.len() == 16,
    ensures
        (r is Some) == (party.is_valid() && email@.len() > 0 && name@.len() > 0),
        r matches Some(b) ==> is_creation(
            b.options@,
            party.id@,
            party.name@,
            handle@,
            email@,
            name@,
            byte_views(credentials@),
        ) && keeps_registration(b.state@, b.options@),
{
    match registration_start(party, handle, email, name, credentials) {
        Some(s) => {
            let state = value_text(&s.state);
            assert(json_text(json_content(s.state)) == state@);
            Some(Begun { options: from_value(s.options), state })
        },
        None => None,
    }
}

/// A text is the state of a registration.
pub uninterp spec fn reads_as_registration(state: Seq<char>) -> bool;

/// `serde_json::from_str` of a `webauthn_rs::prelude::PasskeyRegistration`, of
/// which only the verdict is kept: a function of the text.
#[verifier::external_body]
pub(crate) fn is_registration_state(state: &str) -> (r: bool)
    ensures
        r == reads_as_registration(state@),
{
    serde_json::from_str::<webauthn_rs::prelude::PasskeyRegistration>(state).is_ok()
}

/// The credential identifier and the text of the passkey that a registration
/// ends in, by the site's identifier, origin and name, the credential and the
/// state; `None` where the credential is rejected.
pub uninterp spec fn registered(
    id: Seq<char>,
    origin: Seq<char>,
    name: Seq<char>,
    credential: Seq<char>,
    state: Seq<char>,
) -> Option<(Seq<u8>, Seq<char>)>;

/// A passkey that was registered.
pub struct Registered {
    pub credential_id: Vec<u8>,
    pub passkey: String,
}

/// `webauthn_rs::Webauthn::finish_passkey_registration`, from and to JSON: a
/// function of the site, the credential and the state. `None` also where one of
/// the texts is not what it stands for.
#[verifier::external_body]
pub(crate) fn registration_finish(party: &Party, credential: &str, state: &str) -> (r: Option<
    Registered,
>)
    ensures
        match r {
            Some(p) => registered(party.id@, party.origin@, party.name@, credential@, state@)
                == Some((p.credential_id@, p.passkey@)),
            None => registered(party.id@, party.origin@, party.name@, credential@, state@) is None,
        },
{
    let url = webauthn_rs::prelude::Url::parse(party.origin).ok()?;
    let builder = webauthn_rs::WebauthnBuilder::new(party.id, &url).ok()?.rp_name(party.name);
    let credential = serde_json::from_str(credential).ok()?;
    let state = serde_json::from_str(state).ok()?;
    let key = builder.build().ok()?.finish_passkey_registration(&credential, &state).ok()?;
    let passkey = serde_json::to_string(&key).ok()?;
    Some(Registered { credential_id: key.cred_id().to_vec(), passkey })
}

// ---------- stored passkeys ----------

/// The credential identifier of a stored passkey, `None` where the text is no
/// passkey.
pub uninterp spec fn credential_of(passkey: Seq<char>) -> Option<Seq<u8>>;

/// `serde_json::from_str` of a `webauthn_rs::prelude::Passkey` and its
/// `cred_id`: a function of the text.
#[verifier::external_body]
pub(crate) fn passkey_credential(passkey: &str) -> (r: Option<Vec<u8>>)
    ensures
        match r {
            Some(id) => credential_of(passkey@) == Some(id@),
            None => credential_of(passkey@) is None,
        },
{
    let key: webauthn_rs::prelude::Passkey = serde_json::from_str(passkey).ok()?;
    Some(key.cred_id().to_vec())
}

// ---------- authentication ----------

/// `v` is the options of a sign-in at a site with any of its passkeys. The user
/// has to be verified.
pub open spec fn is_request(v: JsonView, party_id: Seq<char>) -> bool {
    &&& text_member(v, "rpId"@) == Some(party_id)
    &&& text_member(v, "userVerification"@) == Some("required"@)
    &&& v.member("allowCredentials"@) == Some(JsonView::Array(Seq::empty()))
    &&& text_member(v, "challenge"@) is Some
}

/// `webauthn_rs::Webauthn::start_discoverable_authentication`, with what it
/// returns written as JSON. It fails where the site is not accepted. The
/// challenge is random: of it is said that the state keeps the one that the
/// options put. The state has no two members of one name and no fraction, and
/// its text reads back as the state of a sign-in. `rand::rng` is taken to have
/// the random bytes of the challenge.
#[verifier::external_body]
fn authentication_start(party: &Party) -> (r: Option<Started>)
    ensures
        (r is Some) == is_party(party.id@, party.origin@),
        r matches Some(s) ==> is_request(json_content(s.options), party.id@),
        r matches Some(s) ==> is_whole(json_content(s.state)) && reads_as_authentication(
            json_text(json_content(s.state)),
        ) && same_challenge(json_content(s.state), "ast"@, json_content(s.options)),
{
    let url = webauthn_rs::prelude::Url::parse(party.origin).ok()?;
    let builder = webauthn_rs::WebauthnBuilder::new(party.id, &url).ok()?.rp_name(party.name);
    let (rcr, kept) = builder.build().ok()?.start_discoverable_authentication().ok()?;
    let state = serde_json::to_value(kept).ok()?;
    Some(Started { options: serde_json::to_value(rcr.public_key).ok()?, state })
}

/// Begins a sign-in.
pub fn start_authentication(party: &Party) -> (r: Option<Begun>)
    ensures
        (r is Some) == party.is_valid(),
        r matches Some(b) ==> is_request(b.options@, party.id@) && keeps_authentication(
            b.state@,
            b.options@,
        ),
{
    match authentication_start(party) {
        Some(s) => {
            let state = value_text(&s.state);
            assert(json_text(json_content(s.state)) == state@);
            Some(Begun { options: from_value(s.options), state })
        },
        None => None,
    }
}

/// A text is the state of a sign-in.
pub uninterp spec fn reads_as_authentication(state: Seq<char>) -> bool;

/// `serde_json::from_str` of a
/// `webauthn_rs::prelude::DiscoverableAuthentication`, of which only the
/// verdict is kept: a function of the text.
#[verifier::external_body]
pub(crate) fn is_authentication_state(state: &str) -> (r: bool)
    ensures
        r == reads_as_authentication(state@),
{
    serde_json::from_str::<webauthn_rs::prelude::DiscoverableAuthentication>(state).is_ok()
}

/// The handle and the credential identifier that an assertion claims, by the
/// site's identifier, origin and name; `None` where it claims none.
pub uninterp spec fn identified(
    id: Seq<char>,
    origin: Seq<char>,
    name: Seq<char>,
    assertion: Seq<char>,
) -> Option<(Seq<u8>, Seq<u8>)>;

/// Whom an assertion claims to come from.
pub struct Identified {
    pub handle: Vec<u8>,
    pub credential_id: Vec<u8>,
}

/// `webauthn_rs::Webauthn::identify_discoverable_authentication`, from JSON: a
/// function of the site and the assertion. `None` also where a text is not what
/// it stands for.
#[verifier::external_body]
pub(crate) fn identify(party: &Party, assertion: &str) -> (r: Option<Identified>)
    ensures
        match r {
            Some(i) => identified(party.id@, party.origin@, party.name@, assertion@) == Some(
                (i.handle@, i.credential_id@),
            ),
            None => identified(party.id@, party.origin@, party.name@, assertion@) is None,
        },
{
    let url = webauthn_rs::prelude::Url::parse(party.origin).ok()?;
    let builder = webauthn_rs::WebauthnBuilder::new(party.id, &url).ok()?.rp_name(party.name);
    let assertion = serde_json::from_str(assertion).ok()?;
    let site = builder.build().ok()?;
    let (user, key) = site.identify_discoverable_authentication(&assertion).ok()?;
    Some(Identified { handle: user.as_bytes().to_vec(), credential_id: key.to_vec() })
}

/// Whether the user was verified, and the result as JSON text, where an assertion
/// is good: by the site's identifier, origin and name, the assertion, the state
/// and the passkey; `None` where it is rejected.
pub uninterp spec fn checked(
    id: Seq<char>,
    origin: Seq<char>,
    name: Seq<char>,
    assertion: Seq<char>,
    state: Seq<char>,
    passkey: Seq<char>,
) -> Option<(bool, Seq<char>)>;

/// Whether a passkey changes by a result, where it is the one that signed, and
/// its text after that; `None` where one of the texts is not what it stands for.
pub uninterp spec fn updated(passkey: Seq<char>, result: Seq<char>) -> Option<
    (Option<bool>, Seq<char>),
>;

/// An assertion that was found to be good.
struct Checked {
    user_verified: bool,
    result: String,
}

/// `webauthn_rs::Webauthn::finish_discoverable_authentication` with one
/// passkey, from and to JSON: a function of the site, the assertion, the state
/// and the passkey. `None` also where one of the texts is not what it stands
/// for.
#[verifier::external_body]
fn assertion_check(party: &Party, assertion: &str, state: &str, passkey: &str) -> (r: Option<
    Checked,
>)
    ensures
        ({
            let named = checked(
                party.id@,
                party.origin@,
                party.name@,
                assertion@,
                state@,
                passkey@,
            );
            match r {
                Some(c) => named == Some((c.user_verified, c.result@)),
                None => named is None,
            }
        }),
{
    let url = webauthn_rs::prelude::Url::parse(party.origin).ok()?;
    let builder = webauthn_rs::WebauthnBuilder::new(party.id, &url).ok()?.rp_name(party.name);
    let assertion = serde_json::from_str(assertion).ok()?;
    let state = serde_json::from_str(state).ok()?;
    let key: webauthn_rs::prelude::Passkey = serde_json::from_str(passkey).ok()?;
    let keys = [webauthn_rs::prelude::DiscoverableKey::from(&key)];
    let site = builder.build().ok()?;
    let result = site.finish_discoverable_authentication(&assertion, state, &keys).ok()?;
    let user_verified = result.user_verified();
    Some(Checked { user_verified, result: serde_json::to_string(&result).ok()? })
}

/// A passkey after a sign-in.
struct Updated {
    changed: Option<bool>,
    passkey: String,
}

/// `webauthn_rs::prelude::Passkey::update_credential`, from and to JSON: a
/// function of the passkey and the result.
#[verifier::external_body]
fn passkey_update(passkey: &str, result: &str) -> (r: Option<Updated>)
    ensures
        match r {
            Some(u) => updated(passkey@, result@) == Some((u.changed, u.passkey@)),
            None => updated(passkey@, result@) is None,
        },
{
    let mut key: webauthn_rs::prelude::Passkey = serde_json::from_str(passkey).ok()?;
    let changed = key.update_credential(&serde_json::from_str(result).ok()?);
    Some(Updated { changed, passkey: serde_json::to_string(&key).ok()? })
}

/// What a sign-in with a passkey ends in: whether the user was verified,
/// whether the passkey has changed, and its text after that; `None` where the
/// assertion is rejected.
pub open spec fn authenticated(
    id: Seq<char>,
    origin: Seq<char>,
    name: Seq<char>,
    assertion: Seq<char>,
    state: Seq<char>,
    passkey: Seq<char>,
) -> Option<(bool, Option<bool>, Seq<char>)> {
    match checked(id, origin, name, assertion, state, passkey) {
        None => None,
        Some((user_verified, result)) => match updated(passkey, result) {
            None => None,
            Some((changed, text)) => Some((user_verified, changed, text)),
        },
    }
}

/// What a sign-in with a passkey ended in.
pub struct Authenticated {
    pub user_verified: bool,
    /// Whether the passkey has changed, where it is the one that signed.
    pub changed: Option<bool>,
    pub passkey: String,
}

/// Ends a sign-in: checks the assertion, and brings the passkey up to date.
pub fn authentication_finish(party: &Party, assertion: &str, state: &str, passkey: &str) -> (r:
    Option<Authenticated>)
    ensures
        ({
            let expected = authenticated(
                party.id@,
                party.origin@,
                party.name@,
                assertion@,
                state@,
                passkey@,
            );
            match r {
                Some(a) => expected == Some((a.user_verified, a.changed, a.passkey@)),
                None => expected is None,
            }
        }),
{
    match assertion_check(party, assertion, state, passkey) {
        None => None,
        Some(c) => match passkey_update(passkey, c.result.as_str()) {
            None => None,
            Some(u) => Some(
                Authenticated {
                    user_verified: c.user_verified,
                    changed: u.changed,
                    passkey: u.passkey,
                },
            ),
        },
    }
}

} // verus!
