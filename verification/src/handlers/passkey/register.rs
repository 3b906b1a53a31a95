//! The registration of a passkey.

use vstd::prelude::*;
#[allow(unused_imports)]
use vstd::string::*;

use crate::config::AppState;
#[allow(unused_imports)]
use crate::encoding::base64_text;
use crate::flow::{Action, Event, Flow, Step};
#[allow(unused_imports)]
use crate::flow::Ceremony;
use crate::handlers::passkey::{ceremony_filter, cred_id_string, draw_bytes, load_passkeys, new_ceremony, webauthn, PK_REG_PURPOSE, USED_UP};
#[allow(unused_imports)]
use crate::handlers::passkey::{are_drawn, is_ceremony, is_filter, known_credentials};
use crate::handlers::user::{too_many, WINDOW_SECS};
#[allow(unused_imports)]
use crate::handlers::user::limited;
use crate::http::{message, reply, Body, Reply, BAD_REQUEST, INTERNAL_SERVER_ERROR, OK};
#[allow(unused_imports)]
use crate::http::{plain, says};
use crate::json::{find_member, set_member, Json};
#[allow(unused_imports)]
use crate::json::{law_set_member_reads_back, lemma_member_index, lemma_object_view, member_index, member_views, with_member, JsonView};
use crate::models::{PasskeyCredential, User};
use crate::object_id::ObjectId;
#[allow(unused_imports)]
use crate::object_id::{hex_form, is_object_id, object_id_of};
use crate::text::{chars_of, owned, text_of, trim};
#[allow(unused_imports)]
use crate::text::trimmed;
use crate::time::UtcTime;
use crate::utils::crypto::Claims;
#[allow(unused_imports)]
use crate::utils::crypto::text_view;
use crate::utils::webauthn::{is_registration_state, registration_finish, start_registration, user_uuid, Begun, Registered};
#[allow(unused_imports)]
use crate::utils::webauthn::{is_creation, is_party, keeps_registration, reads_as_registration, registered, text_at, uuid_of};
use crate::utils::{db_error, internal_err, object_id_from_str};
#[allow(unused_imports)]
use crate::utils::{db_failed, internal_failed};

verus! {

// ---------- the first request ----------

/// What the beginning of a registration waits for.
pub enum RegisterStart {
    /// The account.
    User { uid: ObjectId },
    /// Whether the account may try.
    Limit { uid: ObjectId, user: User },
    /// The passkeys of the account.
    Passkeys { uid: ObjectId, user: User },
    /// The record of the ceremony.
    Store { options: Json, token: String },
}

/// Begins the registration of a passkey of the caller.
pub fn register_start(claims: &Claims) -> (r: Step<RegisterStart, Reply>)
    ensures
        r == if is_object_id(claims.sub@) {
            Step::Ask(
                Action::UserById(object_id_of(claims.sub@)),
                RegisterStart::User { uid: object_id_of(claims.sub@) },
            )
        } else {
            Step::Done(says(BAD_REQUEST, "Invalid id"))
        },
{
    match object_id_from_str(claims.sub.as_str()) {
        None => Step::Done(message(BAD_REQUEST, "Invalid id")),
        Some(uid) => Step::Ask(Action::UserById(uid), RegisterStart::User { uid }),
    }
}

/// The members of options that ask for a credential which the authenticator
/// finds by itself: a sign-in without a name needs it.
pub open spec fn resident(members: Seq<(Seq<char>, JsonView)>) -> Seq<(Seq<char>, JsonView)> {
    let k = member_index(members, "authenticatorSelection"@);
    if k < members.len() && members[k].1 is Object {
        members.update(
            k,
            (
                members[k].0,
                JsonView::Object(
                    with_member(
                        with_member(
                            members[k].1->Object_0,
                            "residentKey"@,
                            JsonView::Text("required"@),
                        ),
                        "requireResidentKey"@,
                        JsonView::Bool(true),
                    ),
                ),
            ),
        )
    } else {
        members
    }
}

/// Options that ask for a resident credential.
pub open spec fn resident_options(options: JsonView) -> JsonView {
    match options {
        JsonView::Object(members) => JsonView::Object(resident(members)),
        _ => options,
    }
}

/// Asks for a resident credential.
pub fn require_resident_key(options: Json) -> (r: Json)
    ensures
        r@ == resident_options(options@),
{
    match options {
        Json::Object(members) => {
            proof {
                lemma_object_view(members);
            }
            let mut members = members;
            let ghost before = members@;
            let k = find_member(&members, "authenticatorSelection");
            if k < members.len() {
                let (name, value) = members.remove(k);
                let ghost shown = value@;
                let changed = match value {
                    Json::Object(selection) => {
                        proof {
                            lemma_object_view(selection);
                        }
                        let mut selection = selection;
                        set_member(&mut selection, "residentKey", Json::Text(owned("required")));
                        set_member(&mut selection, "requireResidentKey", Json::Bool(true));
                        proof {
                            lemma_object_view(selection);
                        }
                        Json::Object(selection)
                    },
                    other => other,
                };
                let ghost after = changed@;
                members.insert(k, (name, changed));
                proof {
                    assert(member_views(before)[k as int] == (name@, shown));
                    assert(member_views(members@) =~= member_views(before).update(
                        k as int,
                        (name@, after),
                    ));
                    assert(member_views(before).update(k as int, (name@, shown)) =~= member_views(
                        before,
                    ));
                }
            }
            proof {
                lemma_object_view(members);
            }
            Json::Object(members)
        },
        other => other,
    }
}

/// Options with a choice of authenticators ask for a resident credential and
/// for a verified user, and are otherwise what they were.
pub proof fn law_options_ask_for_a_resident_key(options: JsonView, other: Seq<char>)
    requires
        options.member("authenticatorSelection"@) matches Some(JsonView::Object(_)),
        text_at(options, "authenticatorSelection"@, "userVerification"@) == Some("required"@),
        other != "authenticatorSelection"@,
    ensures
        text_at(resident_options(options), "authenticatorSelection"@, "residentKey"@) == Some(
            "required"@,
        ),
        text_at(resident_options(options), "authenticatorSelection"@, "userVerification"@) == Some(
            "required"@,
        ),
        resident_options(options).member(other) == options.member(other),
{
    let members = options->Object_0;
    let key = "authenticatorSelection"@;
    lemma_member_index(members, key);
    let k = member_index(members, key);
    let selection = members[k].1->Object_0;
    let first = with_member(selection, "residentKey"@, JsonView::Text("required"@));
    let both = with_member(first, "requireResidentKey"@, JsonView::Bool(true));
    lemma_index_name(members, key);
    assert(resident(members) == with_member(members, key, JsonView::Object(both)));
    law_set_member_reads_back(members, key, JsonView::Object(both), key);
    law_set_member_reads_back(members, key, JsonView::Object(both), other);
    reveal_strlit("residentKey");
    reveal_strlit("requireResidentKey");
    reveal_strlit("userVerification");
    assert("residentKey"@.len() == 11 && "requireResidentKey"@.len() == 18
        && "userVerification"@.len() == 16);
    law_set_member_reads_back(
        selection,
        "residentKey"@,
        JsonView::Text("required"@),
        "residentKey"@,
    );
    law_set_member_reads_back(
        selection,
        "residentKey"@,
        JsonView::Text("required"@),
        "userVerification"@,
    );
    law_set_member_reads_back(
        first,
        "requireResidentKey"@,
        JsonView::Bool(true),
        "residentKey"@,
    );
    law_set_member_reads_back(
        first,
        "requireResidentKey"@,
        JsonView::Bool(true),
        "userVerification"@,
    );
}

proof fn lemma_index_name(members: Seq<(Seq<char>, JsonView)>, key: Seq<char>)
    ensures
        member_index(members, key) < members.len() ==> members[member_index(members, key)].0 == key,
    decreases members.len(),
{
    if members.len() > 0 && members[0].0 != key {
        lemma_member_index(members.skip(1), key);
        lemma_index_name(members.skip(1), key);
    }
}

/// `r` is what follows once a registration has begun, its token written from
/// random bytes.
pub open spec fn is_begun_step(
    r: Step<RegisterStart, Reply>,
    begun: Option<Begun>,
    random: Seq<u8>,
    uid: ObjectId,
    now: UtcTime,
) -> bool {
    match begun {
        None => r == Step::<RegisterStart, Reply>::Done(
            says(BAD_REQUEST, "Could not start passkey registration, please try again"),
        ),
        Some(b) => r matches Step::Ask(
            Action::StoreCeremony(c),
            RegisterStart::Store { options, token },
        ) && is_ceremony(c, random, PK_REG_PURPOSE@, hex_form(uid@), b.state, now) && options@
            == resident_options(b.options@) && token@ == base64_text(random, true),
    }
}

/// Keeps the state of a registration that has begun.
pub fn store_registration(begun: Option<Begun>, random: &Vec<u8>, uid: ObjectId, now: UtcTime) -> (r:
    Step<RegisterStart, Reply>)
    requires
        now.is_clock(),
    ensures
        is_begun_step(r, begun, random@, uid, now),
{
    match begun {
        None => Step::Done(
            message(BAD_REQUEST, "Could not start passkey registration, please try again"),
        ),
        Some(b) => {
            let subject = uid.to_hex();
            let ceremony = new_ceremony(random, PK_REG_PURPOSE, subject.as_str(), b.state, now);
            let token = ceremony.token.clone();
            Step::Ask(
                Action::StoreCeremony(ceremony),
                RegisterStart::Store { options: require_resident_key(b.options), token },
            )
        },
    }
}

/// `begun` is a registration of the account at the site: its options name the
/// site and the user, and leave out the passkeys that the user has, and its
/// state keeps the challenge of the options. It does not begin for a user
/// without an email or a name.
pub open spec fn begins(
    begun: Option<Begun>,
    app: AppState,
    uid: ObjectId,
    user: User,
    rows: Seq<PasskeyCredential>,
) -> bool {
    &&& (begun is Some) == (user.email@.len() > 0 && user.name@.len() > 0)
    &&& begun matches Some(b) ==> is_creation(
        b.options@,
        app.webauthn_rp_id@,
        app.webauthn_rp_name@,
        uuid_of(hex_form(uid@)),
        user.email@,
        user.name@,
        known_credentials(rows),
    ) && keeps_registration(b.state@, b.options@)
}

impl RegisterStart {
    /// `r` is what follows an answer.
    pub open spec fn next(
        self,
        app: AppState,
        event: Event,
        now: UtcTime,
        r: Step<RegisterStart, Reply>,
    ) -> bool {
        match self {
            RegisterStart::User { uid } => match event {
                Event::User(Some(user)) => r matches Step::Ask(
                    Action::Limit { key, max_attempts, window_secs },
                    RegisterStart::Limit { uid: i, user: u },
                ) && key@ == "pk-register:"@ + hex_form(uid@) && max_attempts == 10 && window_secs
                    == WINDOW_SECS && i == uid && u == user,
                Event::User(None) => r == Step::<RegisterStart, Reply>::Done(
                    says(BAD_REQUEST, "User not found"),
                ),
                _ => r == Step::<RegisterStart, Reply>::Done(db_failed(INTERNAL_SERVER_ERROR)),
            },
            RegisterStart::Limit { uid, user } => r == if event is Allowed {
                Step::Ask(Action::PasskeysOf(uid), RegisterStart::Passkeys { uid, user })
            } else {
                Step::Done(limited())
            },
            RegisterStart::Passkeys { uid, user } => match event {
                Event::Passkeys(rows) => if !is_party(
                    app.webauthn_rp_id@,
                    app.webauthn_rp_origin@,
                ) {
                    r == Step::<RegisterStart, Reply>::Done(internal_failed())
                } else {
                    exists|begun: Option<Begun>, random: Seq<u8>|
                        begins(begun, app, uid, user, rows@) && random.len() == 32
                            && are_drawn(random) && #[trigger] is_begun_step(r, begun, random, uid, now)
                },
                _ => r == Step::<RegisterStart, Reply>::Done(db_failed(INTERNAL_SERVER_ERROR)),
            },
            RegisterStart::Store { options, token } => r == Step::<RegisterStart, Reply>::Done(
                if event is Done {
                    plain(OK, Body::PasskeyOptions { options, state_token: token })
                } else {
                    internal_failed()
                },
            ),
        }
    }
}

impl Flow for RegisterStart {
    type Out = Reply;

    open spec fn ready(self) -> bool {
        true
    }

    fn resume(self, app: &AppState, event: Event, now: UtcTime) -> (r: Step<RegisterStart, Reply>)
        ensures
            self.next(*app, event, now, r),
    {
        match self {
            RegisterStart::User { uid } => match event {
                Event::User(Some(user)) => {
                    let mut key = owned("pk-register:");
                    key.push_str(uid.to_hex().as_str());
                    Step::Ask(
                        Action::Limit { key, max_attempts: 10, window_secs: WINDOW_SECS },
                        RegisterStart::Limit { uid, user },
                    )
                },
                Event::User(None) => Step::Done(message(BAD_REQUEST, "User not found")),
                _ => Step::Done(db_error(INTERNAL_SERVER_ERROR)),
            },
            RegisterStart::Limit { uid, user } => match event {
                Event::Allowed => Step::Ask(
                    Action::PasskeysOf(uid),
                    RegisterStart::Passkeys { uid, user },
                ),
                _ => Step::Done(too_many()),
            },
            RegisterStart::Passkeys { uid, user } => match event {
                Event::Passkeys(rows) => {
                    let known = load_passkeys(&rows);
                    let party = webauthn(app);
                    if !party.check() {
                        return Step::Done(internal_err());
                    }
                    let handle = user_uuid(uid.to_hex().as_str());
                    let begun = start_registration(
                        &party,
                        &handle,
                        user.email.as_str(),
                        user.name.as_str(),
                        known,
                    );
                    let random = draw_bytes();
                    let ghost b = begun;
                    let r = store_registration(begun, &random, uid, now);
                    assert(begins(b, *app, uid, user, rows@));
                    assert(is_begun_step(r, b, random@, uid, now));
                    r
                },
                _ => Step::Done(db_error(INTERNAL_SERVER_ERROR)),
            },
            RegisterStart::Store { options, token } => match event {
                Event::Done => Step::Done(
                    reply(OK, Body::PasskeyOptions { options, state_token: token }),
                ),
                _ => Step::Done(internal_err()),
            },
        }
    }
}

/// The state that is kept of a registration can be read when the registration
/// ends, and holds the challenge that the browser was given.
pub proof fn law_begun_registration_is_kept(
    uid: ObjectId,
    user: User,
    app: AppState,
    rows: Vec<PasskeyCredential>,
    now: UtcTime,
    c: Ceremony,
    after: RegisterStart,
)
    requires
        (RegisterStart::Passkeys { uid, user }).next(
            app,
            Event::Passkeys(rows),
            now,
            Step::Ask(Action::StoreCeremony(c), after),
        ),
    ensures
        after matches RegisterStart::Store { options, .. } && keeps_registration(
            c.state_json@,
            options@,
        ),
{
    let r = Step::<RegisterStart, Reply>::Ask(Action::StoreCeremony(c), after);
    let (begun, random) = choose|begun: Option<Begun>, random: Seq<u8>|
        begins(begun, app, uid, user, rows@) && random.len() == 32 && are_drawn(random) && #[trigger] is_begun_step(
            r,
            begun,
            random,
            uid,
            now,
        );
    let options = begun->0.options@;
    reveal_strlit("authenticatorSelection");
    reveal_strlit("challenge");
    assert("authenticatorSelection"@.len() == 22 && "challenge"@.len() == 9);
    law_options_ask_for_a_resident_key(options, "challenge"@);
}

// ---------- the second request ----------

#[derive(Debug)]
pub struct RegisterFinishReq {
    /// What the browser made of the options, as JSON.
    pub credential: String,
    pub stateToken: Option<String>,
    pub label: Option<String>,
}

/// What the end of a registration waits for.
pub enum RegisterFinish {
    /// The ceremony.
    Taken { uid: ObjectId, payload: RegisterFinishReq },
    /// Whether the credential is registered already.
    Existing { uid: ObjectId, cred_id: String, passkey: String, label: String },
    /// The insertion.
    Insert,
}

/// The text under an option, empty without it.
pub open spec fn given(text: Option<String>) -> Seq<char> {
    match text {
        Some(t) => t@,
        None => Seq::empty(),
    }
}

/// Ends the registration of a passkey of the caller. The ceremony is taken away
/// whatever comes of it.
pub fn register_finish(claims: &Claims, payload: RegisterFinishReq, now: UtcTime) -> (r: Step<
    RegisterFinish,
    Reply,
>)
    ensures
        if is_object_id(claims.sub@) {
            r matches Step::Ask(Action::TakeCeremony(f), RegisterFinish::Taken { uid, payload: p })
                && is_filter(f, given(payload.stateToken), PK_REG_PURPOSE@, claims.sub@, now) && uid
                == object_id_of(claims.sub@) && p == payload
        } else {
            r == Step::<RegisterFinish, Reply>::Done(says(BAD_REQUEST, "Invalid id"))
        },
{
    let uid = match object_id_from_str(claims.sub.as_str()) {
        Some(uid) => uid,
        None => {
            return Step::Done(message(BAD_REQUEST, "Invalid id"));
        },
    };
    let filter = match &payload.stateToken {
        Some(token) => ceremony_filter(token.as_str(), PK_REG_PURPOSE, claims.sub.as_str(), now),
        None => {
            let none = String::new();
            ceremony_filter(none.as_str(), PK_REG_PURPOSE, claims.sub.as_str(), now)
        },
    };
    Step::Ask(Action::TakeCeremony(filter), RegisterFinish::Taken { uid, payload })
}

/// The name of a passkey: trimmed, 64 characters at most, "Passkey" where
/// nothing is left.
pub open spec fn label_of(label: Option<Seq<char>>) -> Seq<char> {
    let t = trimmed(
        match label {
            Some(l) => l,
            None => "Passkey"@,
        },
    );
    if t.len() == 0 {
        "Passkey"@
    } else if t.len() > 64 {
        t.take(64)
    } else {
        t
    }
}

/// Reads the name of a passkey.
pub fn passkey_label(label: Option<String>) -> (r: String)
    ensures
        r@ == label_of(text_view(label)),
{
    let text = match label {
        Some(l) => l,
        None => owned("Passkey"),
    };
    let chars = chars_of(trim(text.as_str()));
    if chars.len() == 0 {
        return owned("Passkey");
    }
    if chars.len() > 64 {
        let r = text_of(&chars, 0, 64);
        assert(r@ =~= chars@.take(64));
        return r;
    }
    let r = text_of(&chars, 0, chars.len());
    assert(r@ =~= chars@);
    r
}

pub const TAKEN: &'static str = "This passkey is already registered to an account";

/// `r` is what follows once the credential has been checked: `outcome` is the
/// credential's identifier and the passkey.
pub open spec fn is_checked_step(
    r: Step<RegisterFinish, Reply>,
    uid: ObjectId,
    outcome: Option<(Seq<u8>, Seq<char>)>,
    label: Option<Seq<char>>,
) -> bool {
    match outcome {
        None => r == Step::<RegisterFinish, Reply>::Done(
            says(BAD_REQUEST, "Passkey verification failed, please try again"),
        ),
        Some((id, passkey)) => r matches Step::Ask(
            Action::PasskeyByCredential(t),
            RegisterFinish::Existing { uid: i, cred_id, passkey: p, label: l },
        ) && t@ == base64_text(id, true) && i == uid && cred_id == t && p@ == passkey && l@
            == label_of(label),
    }
}

/// The identifier and the text of a passkey that was registered.
pub open spec fn registered_view(outcome: Option<Registered>) -> Option<(Seq<u8>, Seq<char>)> {
    match outcome {
        Some(p) => Some((p.credential_id@, p.passkey@)),
        None => None,
    }
}

/// Goes on by what the check of the credential gave.
pub fn credential_checked(uid: ObjectId, outcome: Option<Registered>, label: Option<String>) -> (r:
    Step<RegisterFinish, Reply>)
    ensures
        is_checked_step(r, uid, registered_view(outcome), text_view(label)),
{
    match outcome {
        None => Step::Done(message(BAD_REQUEST, "Passkey verification failed, please try again")),
        Some(p) => {
            let cred_id = cred_id_string(&p.credential_id);
            Step::Ask(
                Action::PasskeyByCredential(cred_id.clone()),
                RegisterFinish::Existing {
                    uid,
                    cred_id,
                    passkey: p.passkey,
                    label: passkey_label(label),
                },
            )
        },
    }
}

impl RegisterFinish {
    /// `r` is what follows an answer. A credential is registered to one account
    /// at most.
    pub open spec fn next(
        self,
        app: AppState,
        event: Event,
        now: UtcTime,
        r: Step<RegisterFinish, Reply>,
    ) -> bool {
        match self {
            RegisterFinish::Taken { uid, payload } => match event {
                Event::Taken(Some(c)) => if !reads_as_registration(c.state_json@) || !is_party(
                    app.webauthn_rp_id@,
                    app.webauthn_rp_origin@,
                ) {
                    r == Step::<RegisterFinish, Reply>::Done(internal_failed())
                } else {
                    is_checked_step(
                        r,
                        uid,
                        registered(
                            app.webauthn_rp_id@,
                            app.webauthn_rp_origin@,
                            app.webauthn_rp_name@,
                            payload.credential@,
                            c.state_json@,
                        ),
                        text_view(payload.label),
                    )
                },
                Event::Taken(None) => r == Step::<RegisterFinish, Reply>::Done(
                    says(BAD_REQUEST, USED_UP),
                ),
                _ => r == Step::<RegisterFinish, Reply>::Done(internal_failed()),
            },
            RegisterFinish::Existing { uid, cred_id, passkey, label } => r == match event {
                Event::Passkey(Some(_)) => Step::Done(says(BAD_REQUEST, TAKEN)),
                Event::Passkey(None) => Step::Ask(
                    Action::InsertPasskey(
                        PasskeyCredential {
                            id: None,
                            userId: uid,
                            cred_id,
                            passkey_json: passkey,
                            label: Some(label),
                            createdAt: Some(now),
                            lastUsedAt: None,
                        },
                    ),
                    RegisterFinish::Insert,
                ),
                _ => Step::Done(db_failed(INTERNAL_SERVER_ERROR)),
            },
            RegisterFinish::Insert => r == Step::<RegisterFinish, Reply>::Done(
                match event {
                    Event::Done => says(OK, "Passkey registered!"),
                    Event::Duplicate => says(BAD_REQUEST, TAKEN),
                    _ => internal_failed(),
                },
            ),
        }
    }
}

impl Flow for RegisterFinish {
    type Out = Reply;

    open spec fn ready(self) -> bool {
        true
    }

    fn resume(self, app: &AppState, event: Event, now: UtcTime) -> (r: Step<RegisterFinish, Reply>)
        ensures
            self.next(*app, event, now, r),
    {
        match self {
            RegisterFinish::Taken { uid, payload } => match event {
                Event::Taken(Some(c)) => {
                    let party = webauthn(app);
                    if !is_registration_state(c.state_json.as_str()) || !party.check() {
                        return Step::Done(internal_err());
                    }
                    let outcome = registration_finish(
                        &party,
                        payload.credential.as_str(),
                        c.state_json.as_str(),
                    );
                    credential_checked(uid, outcome, payload.label)
                },
                Event::Taken(None) => Step::Done(message(BAD_REQUEST, USED_UP)),
                _ => Step::Done(internal_err()),
            },
            RegisterFinish::Existing { uid, cred_id, passkey, label } => match event {
                Event::Passkey(Some(_)) => Step::Done(message(BAD_REQUEST, TAKEN)),
                Event::Passkey(None) => Step::Ask(
                    Action::InsertPasskey(
                        PasskeyCredential {
                            id: None,
                            userId: uid,
                            cred_id,
                            passkey_json: passkey,
                            label: Some(label),
                            createdAt: Some(now),
                            lastUsedAt: None,
                        },
                    ),
                    RegisterFinish::Insert,
                ),
                _ => Step::Done(db_error(INTERNAL_SERVER_ERROR)),
            },
            RegisterFinish::Insert => match event {
                Event::Done => Step::Done(message(OK, "Passkey registered!")),
                Event::Duplicate => Step::Done(message(BAD_REQUEST, TAKEN)),
                _ => Step::Done(internal_err()),
            },
        }
    }
}

/// A credential that is registered is not registered again.
pub proof fn law_registered_credential_stays_with_its_account(
    uid: ObjectId,
    cred_id: String,
    passkey: String,
    label: String,
    app: AppState,
    row: PasskeyCredential,
    now: UtcTime,
    r: Step<RegisterFinish, Reply>,
)
    requires
        (RegisterFinish::Existing { uid, cred_id, passkey, label }).next(
            app,
            Event::Passkey(Some(row)),
            now,
            r,
        ) || RegisterFinish::Insert.next(app, Event::Duplicate, now, r),
    ensures
        r == Step::<RegisterFinish, Reply>::Done(says(BAD_REQUEST, TAKEN)),
{
}

/// A registration without a ceremony to take is refused, and nothing is
/// written.
pub proof fn law_registration_needs_its_ceremony(
    uid: ObjectId,
    payload: RegisterFinishReq,
    app: AppState,
    now: UtcTime,
    r: Step<RegisterFinish, Reply>,
)
    requires
        (RegisterFinish::Taken { uid, payload }).next(app, Event::Taken(None), now, r),
    ensures
        r == Step::<RegisterFinish, Reply>::Done(says(BAD_REQUEST, USED_UP)),
{
}

} // verus!
