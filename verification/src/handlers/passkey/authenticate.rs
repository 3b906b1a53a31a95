//! Signing in with a passkey.

use vstd::prelude::*;
#[allow(unused_imports)]
use vstd::string::*;

use crate::config::AppState;
#[allow(unused_imports)]
use crate::encoding::base64_text;
use crate::flow::{Action, Event, Flow, Step};
#[allow(unused_imports)]
use crate::flow::Ceremony;
use crate::handlers::passkey::{ceremony_filter, cred_id_string, draw_bytes, new_ceremony, webauthn, PK_AUTH_PURPOSE, USED_UP};
#[allow(unused_imports)]
use crate::handlers::passkey::register::given;
#[allow(unused_imports)]
use crate::handlers::passkey::{are_drawn, is_ceremony, is_filter};
#[allow(unused_imports)]
use crate::handlers::user::sign_in::answered_place;
use crate::handlers::user::sign_in::answered_geo;
#[allow(unused_imports)]
use crate::handlers::user::tfa::agent_header;
use crate::handlers::user::{enforce_rate_limit, has_google, mint_session, session_reply, subject, too_many, SessionMeta};
#[allow(unused_imports)]
use crate::handlers::user::{is_google, is_new_session, is_session_reply, limited, limits_client, subject_of};
use crate::http::{message, reply, Body, Headers, Reply, BAD_REQUEST, INTERNAL_SERVER_ERROR, OK, UNAUTHORIZED};
#[allow(unused_imports)]
use crate::http::{plain, says};
use crate::json::Json;
#[allow(unused_imports)]
use crate::middleware::auth::denied;
use crate::models::{PasskeyCredential, User};
use crate::object_id::ObjectId;
#[allow(unused_imports)]
use crate::object_id::hex_form;
use crate::text::owned;
use crate::time::UtcTime;
use crate::utils::geo::{fetch_geo, geo_info, GeoInfo};
#[allow(unused_imports)]
use crate::utils::geo::{geo_url, place_of, GeoView};
use crate::utils::webauthn::{authentication_finish, identify, is_authentication_state, start_authentication, user_uuid, Authenticated, Begun, Identified};
#[allow(unused_imports)]
use crate::utils::webauthn::{authenticated, identified, is_party, is_request, keeps_authentication, reads_as_authentication, uuid_of};
use crate::utils::{db_error, internal_err};
#[allow(unused_imports)]
use crate::utils::{db_failed, internal_failed};

verus! {

fn unauthorized() -> (r: Reply)
    ensures
        r == denied(),
{
    message(UNAUTHORIZED, "Access denied, sign in again")
}

// ---------- the first request ----------

/// What the beginning of a sign-in waits for.
pub enum AuthStart {
    /// Whether the client may try.
    Limit,
    /// The record of the ceremony.
    Store { options: Json, token: String },
}

/// Begins a sign-in with a passkey.
pub fn auth_start(headers: &Headers) -> (r: Step<AuthStart, Reply>)
    ensures
        r matches Step::Ask(action, AuthStart::Limit) && limits_client(
            action,
            *headers,
            "pk-auth-start"@,
            20,
        ),
{
    Step::Ask(enforce_rate_limit(headers, "pk-auth-start", 20), AuthStart::Limit)
}

/// `r` is what follows once a sign-in has begun, its token written from random
/// bytes. Nobody is named yet, so the ceremony has no subject.
pub open spec fn is_auth_begun(
    r: Step<AuthStart, Reply>,
    begun: Begun,
    random: Seq<u8>,
    now: UtcTime,
) -> bool {
    r matches Step::Ask(Action::StoreCeremony(c), AuthStart::Store { options, token })
        && is_ceremony(c, random, PK_AUTH_PURPOSE@, Seq::empty(), begun.state, now) && options
        == begun.options && token@ == base64_text(random, true)
}

/// Keeps the state of a sign-in that has begun.
pub fn store_authentication(begun: Begun, random: &Vec<u8>, now: UtcTime) -> (r: Step<
    AuthStart,
    Reply,
>)
    requires
        now.is_clock(),
    ensures
        is_auth_begun(r, begun, random@, now),
{
    let nobody = String::new();
    let ceremony = new_ceremony(random, PK_AUTH_PURPOSE, nobody.as_str(), begun.state, now);
    let token = ceremony.token.clone();
    Step::Ask(
        Action::StoreCeremony(ceremony),
        AuthStart::Store { options: begun.options, token },
    )
}

impl AuthStart {
    /// `r` is what follows an answer.
    pub open spec fn next(
        self,
        app: AppState,
        event: Event,
        now: UtcTime,
        r: Step<AuthStart, Reply>,
    ) -> bool {
        match self {
            AuthStart::Limit => if !(event is Allowed) {
                r == Step::<AuthStart, Reply>::Done(limited())
            } else if !is_party(app.webauthn_rp_id@, app.webauthn_rp_origin@) {
                r == Step::<AuthStart, Reply>::Done(internal_failed())
            } else {
                exists|begun: Begun, random: Seq<u8>|
                    is_request(begun.options@, app.webauthn_rp_id@) && keeps_authentication(
                        begun.state@,
                        begun.options@,
                    ) && random.len() == 32 && are_drawn(random) && #[trigger] is_auth_begun(r, begun, random, now)
            },
            AuthStart::Store { options, token } => r == Step::<AuthStart, Reply>::Done(
                if event is Done {
                    plain(OK, Body::PasskeyOptions { options, state_token: token })
                } else {
                    internal_failed()
                },
            ),
        }
    }
}

impl Flow for AuthStart {
    type Out = Reply;

    open spec fn ready(self) -> bool {
        true
    }

    fn resume(self, app: &AppState, event: Event, now: UtcTime) -> (r: Step<AuthStart, Reply>)
        ensures
            self.next(*app, event, now, r),
    {
        match self {
            AuthStart::Limit => match event {
                Event::Allowed => {
                    let party = webauthn(app);
                    match start_authentication(&party) {
                        None => Step::Done(internal_err()),
                        Some(begun) => {
                            let random = draw_bytes();
                            let ghost b = begun;
                            let r = store_authentication(begun, &random, now);
                            assert(is_auth_begun(r, b, random@, now));
                            r
                        },
                    }
                },
                _ => Step::Done(too_many()),
            },
            AuthStart::Store { options, token } => match event {
                Event::Done => Step::Done(
                    reply(OK, Body::PasskeyOptions { options, state_token: token }),
                ),
                _ => Step::Done(internal_err()),
            },
        }
    }
}

/// The state that is kept of a sign-in can be read when the sign-in ends, and
/// holds the challenge that the browser was given.
pub proof fn law_begun_sign_in_is_kept(
    app: AppState,
    event: Event,
    now: UtcTime,
    c: Ceremony,
    after: AuthStart,
)
    requires
        AuthStart::Limit.next(app, event, now, Step::Ask(Action::StoreCeremony(c), after)),
    ensures
        after matches AuthStart::Store { options, .. } && keeps_authentication(
            c.state_json@,
            options@,
        ),
{
}

// ---------- the second request ----------

#[derive(Debug)]
pub struct AuthFinishReq {
    /// What the browser made of the options, as JSON.
    pub assertion: String,
    pub stateToken: Option<String>,
    pub identifier: String,
}

/// An assertion that is tried, with what comes with the request.
pub struct Offer {
    pub payload: AuthFinishReq,
    pub ua: String,
}

/// What the end of a sign-in waits for.
pub enum AuthFinish {
    /// Whether the client may try.
    Limit { offer: Offer },
    /// The ceremony.
    Taken { offer: Offer },
    /// The passkey that is claimed.
    Passkey { offer: Offer, state: String, handle: Vec<u8>, cred_id: String },
    /// The change of the passkey.
    Update { offer: Offer, uid: ObjectId },
    /// The account.
    User { offer: Offer, uid: ObjectId },
    /// Where the client is.
    Geo { offer: Offer, uid: ObjectId, user: User },
    /// The record of the session.
    Insert { answer: Reply },
}

/// Ends a sign-in with a passkey. The passkey stands for both factors.
pub fn auth_finish(headers: &Headers, payload: AuthFinishReq) -> (r: Step<AuthFinish, Reply>)
    ensures
        r matches Step::Ask(action, AuthFinish::Limit { offer }) && limits_client(
            action,
            *headers,
            "pk-auth-finish"@,
            10,
        ) && offer.payload == payload && offer.ua@ == agent_header(*headers),
{
    let ua = match &headers.user_agent {
        Some(ua) => ua.clone(),
        None => owned("Unknown"),
    };
    Step::Ask(
        enforce_rate_limit(headers, "pk-auth-finish", 10),
        AuthFinish::Limit { offer: Offer { payload, ua } },
    )
}

/// The handle and the credential that an assertion claims.
pub open spec fn identified_view(claim: Option<Identified>) -> Option<(Seq<u8>, Seq<u8>)> {
    match claim {
        Some(i) => Some((i.handle@, i.credential_id@)),
        None => None,
    }
}

/// `r` is what follows once it is known what the assertion claims. The claim
/// only picks a passkey; the check comes after.
pub open spec fn is_claim_step(
    r: Step<AuthFinish, Reply>,
    claim: Option<(Seq<u8>, Seq<u8>)>,
    offer: Offer,
    state: String,
) -> bool {
    match claim {
        None => r == Step::<AuthFinish, Reply>::Done(denied()),
        Some((handle, id)) => r matches Step::Ask(
            Action::PasskeyByCredential(t),
            AuthFinish::Passkey { offer: o, state: s, handle: h, cred_id },
        ) && t@ == base64_text(id, true) && cred_id == t && h@ == handle && o == offer && s
            == state,
    }
}

/// Goes on by what the assertion claims.
pub fn claim_read(claim: Option<Identified>, offer: Offer, state: String) -> (r: Step<
    AuthFinish,
    Reply,
>)
    ensures
        is_claim_step(r, identified_view(claim), offer, state),
{
    match claim {
        None => Step::Done(unauthorized()),
        Some(i) => {
            let cred_id = cred_id_string(&i.credential_id);
            Step::Ask(
                Action::PasskeyByCredential(cred_id.clone()),
                AuthFinish::Passkey { offer, state, handle: i.handle, cred_id },
            )
        },
    }
}

fn same_bytes(a: &Vec<u8>, b: &Vec<u8>) -> (r: bool)
    ensures
        r == (a@ == b@),
{
    if a.len() != b.len() {
        return false;
    }
    let mut i: usize = 0;
    while i < a.len()
        invariant
            i <= a@.len(),
            a@.len() == b@.len(),
            forall|j: int| 0 <= j < i ==> a@[j] == b@[j],
        decreases a@.len() - i,
    {
        if a[i] != b[i] {
            return false;
        }
        i += 1;
    }
    assert(a@ =~= b@);
    true
}

/// What the check of an assertion says.
pub open spec fn authenticated_view(outcome: Option<Authenticated>) -> Option<
    (bool, Option<bool>, Seq<char>),
> {
    match outcome {
        Some(a) => Some((a.user_verified, a.changed, a.passkey@)),
        None => None,
    }
}

/// `r` is what follows once the assertion has been checked: it is denied, or
/// the passkey of the row is brought up to date, where it is still what it was.
pub open spec fn is_check_step(
    r: Step<AuthFinish, Reply>,
    outcome: Option<(bool, Option<bool>, Seq<char>)>,
    row: PasskeyCredential,
    offer: Offer,
    cred_id: String,
    now: UtcTime,
) -> bool {
    match outcome {
        None => r == Step::<AuthFinish, Reply>::Done(denied()),
        Some((user_verified, changed, passkey)) => if !user_verified {
            r == Step::<AuthFinish, Reply>::Done(denied())
        } else {
            r matches Step::Ask(
                Action::UpdatePasskey { cred_id: c, previous, passkey_json, at },
                AuthFinish::Update { offer: o, uid },
            ) && c == cred_id && previous == row.passkey_json && passkey_json@ == (if changed
                == Some(true) {
                passkey
            } else {
                row.passkey_json@
            }) && at == now && o == offer && uid == row.userId
        },
    }
}

/// Goes on by what the check of the assertion gave.
pub fn assertion_checked(
    outcome: Option<Authenticated>,
    row: PasskeyCredential,
    offer: Offer,
    cred_id: String,
    now: UtcTime,
) -> (r: Step<AuthFinish, Reply>)
    ensures
        is_check_step(r, authenticated_view(outcome), row, offer, cred_id, now),
{
    match outcome {
        None => Step::Done(unauthorized()),
        Some(a) => {
            if !a.user_verified {
                return Step::Done(unauthorized());
            }
            let passkey_json = match a.changed {
                Some(true) => a.passkey,
                _ => row.passkey_json.clone(),
            };
            Step::Ask(
                Action::UpdatePasskey { cred_id, previous: row.passkey_json, passkey_json, at: now },
                AuthFinish::Update { offer, uid: row.userId },
            )
        },
    }
}

/// What a user who signed in with a passkey is told.
pub open spec fn passkey_signed_in(user: User, uid: ObjectId) -> Body {
    Body::PasskeySignedIn {
        id: uid,
        name: user.name,
        google_account: is_google(user),
        settings: user.settings,
        last_opened: user.lastOpenedNote,
    }
}

/// `r` records the session of a sign-in with a passkey.
pub open spec fn is_passkey_session(
    r: Step<AuthFinish, Reply>,
    offer: Offer,
    uid: ObjectId,
    user: User,
    geo: GeoView,
    secret: Seq<char>,
    now: UtcTime,
) -> bool {
    r matches Step::Ask(Action::InsertSession(session), AuthFinish::Insert { answer })
        && is_new_session(
        session,
        uid,
        subject_of(user, uid, is_google(user)),
        (SessionMeta { ua: offer.ua, identifier: offer.payload.identifier }),
        geo,
        secret,
        now,
    ) && is_session_reply(answer, session.token@, passkey_signed_in(user, uid), true)
}

fn passkey_session(
    offer: Offer,
    uid: ObjectId,
    user: User,
    geo: &GeoInfo,
    secret: &str,
    now: UtcTime,
) -> (r: Step<AuthFinish, Reply>)
    requires
        now.is_clock(),
    ensures
        is_passkey_session(r, offer, uid, user, geo@, secret@, now),
{
    let google = has_google(&user);
    let sub = subject(&user, &uid, google);
    let meta = SessionMeta { ua: offer.ua, identifier: offer.payload.identifier };
    match mint_session(uid, &sub, &meta, geo, secret, now) {
        None => Step::Done(internal_err()),
        Some(session) => {
            let body = Body::PasskeySignedIn {
                id: uid,
                name: user.name,
                google_account: google,
                settings: user.settings,
                last_opened: user.lastOpenedNote,
            };
            let answer = session_reply(session.token.clone(), body, true);
            Step::Ask(Action::InsertSession(session), AuthFinish::Insert { answer })
        },
    }
}

impl AuthFinish {
    /// `r` is what follows an answer. A passkey that was removed, or changed by
    /// another sign-in in the meantime, opens no session.
    pub open spec fn next(
        self,
        app: AppState,
        event: Event,
        now: UtcTime,
        r: Step<AuthFinish, Reply>,
    ) -> bool {
        match self {
            AuthFinish::Limit { offer } => if event is Allowed {
                r matches Step::Ask(Action::TakeCeremony(f), AuthFinish::Taken { offer: o })
                    && is_filter(
                    f,
                    given(offer.payload.stateToken),
                    PK_AUTH_PURPOSE@,
                    Seq::empty(),
                    now,
                ) && o == offer
            } else {
                r == Step::<AuthFinish, Reply>::Done(limited())
            },
            AuthFinish::Taken { offer } => match event {
                Event::Taken(Some(c)) => if !reads_as_authentication(c.state_json@) || !is_party(
                    app.webauthn_rp_id@,
                    app.webauthn_rp_origin@,
                ) {
                    r == Step::<AuthFinish, Reply>::Done(internal_failed())
                } else {
                    is_claim_step(
                        r,
                        identified(
                            app.webauthn_rp_id@,
                            app.webauthn_rp_origin@,
                            app.webauthn_rp_name@,
                            offer.payload.assertion@,
                        ),
                        offer,
                        c.state_json,
                    )
                },
                Event::Taken(None) => r == Step::<AuthFinish, Reply>::Done(
                    says(BAD_REQUEST, USED_UP),
                ),
                _ => r == Step::<AuthFinish, Reply>::Done(internal_failed()),
            },
            AuthFinish::Passkey { offer, state, handle, cred_id } => match event {
                Event::Passkey(Some(row)) => if handle@ != uuid_of(hex_form(row.userId@)) {
                    r == Step::<AuthFinish, Reply>::Done(denied())
                } else {
                    is_check_step(
                        r,
                        authenticated(
                            app.webauthn_rp_id@,
                            app.webauthn_rp_origin@,
                            app.webauthn_rp_name@,
                            offer.payload.assertion@,
                            state@,
                            row.passkey_json@,
                        ),
                        row,
                        offer,
                        cred_id,
                        now,
                    )
                },
                Event::Passkey(None) => r == Step::<AuthFinish, Reply>::Done(denied()),
                _ => r == Step::<AuthFinish, Reply>::Done(db_failed(INTERNAL_SERVER_ERROR)),
            },
            AuthFinish::Update { offer, uid } => r == match event {
                Event::Count(n) => if n == 1 {
                    Step::Ask(Action::UserById(uid), AuthFinish::User { offer, uid })
                } else {
                    Step::Done(denied())
                },
                _ => Step::Done(db_failed(INTERNAL_SERVER_ERROR)),
            },
            AuthFinish::User { offer, uid } => match event {
                Event::User(Some(user)) => match geo_url(
                    offer.payload.identifier@,
                    app.ipgeo_key@,
                ) {
                    Some(url) => r matches Step::Ask(
                        Action::Geo { url: u },
                        AuthFinish::Geo { offer: o, uid: i, user: w },
                    ) && u@ == url && o == offer && i == uid && w == user,
                    None => is_passkey_session(
                        r,
                        offer,
                        uid,
                        user,
                        place_of(None),
                        app.jwt_secret@,
                        now,
                    ),
                },
                Event::User(None) => r == Step::<AuthFinish, Reply>::Done(denied()),
                _ => r == Step::<AuthFinish, Reply>::Done(db_failed(INTERNAL_SERVER_ERROR)),
            },
            AuthFinish::Geo { offer, uid, user } => is_passkey_session(
                r,
                offer,
                uid,
                user,
                answered_place(event),
                app.jwt_secret@,
                now,
            ),
            AuthFinish::Insert { answer } => r == Step::<AuthFinish, Reply>::Done(
                if event is Done {
                    answer
                } else {
                    db_failed(INTERNAL_SERVER_ERROR)
                },
            ),
        }
    }
}

impl Flow for AuthFinish {
    type Out = Reply;

    open spec fn ready(self) -> bool {
        true
    }

    fn resume(self, app: &AppState, event: Event, now: UtcTime) -> (r: Step<AuthFinish, Reply>)
        ensures
            self.next(*app, event, now, r),
    {
        let secret = app.jwt_secret.as_str();
        match self {
            AuthFinish::Limit { offer } => match event {
                Event::Allowed => {
                    let nobody = String::new();
                    let filter = match &offer.payload.stateToken {
                        Some(token) => ceremony_filter(
                            token.as_str(),
                            PK_AUTH_PURPOSE,
                            nobody.as_str(),
                            now,
                        ),
                        None => ceremony_filter(
                            nobody.as_str(),
                            PK_AUTH_PURPOSE,
                            nobody.as_str(),
                            now,
                        ),
                    };
                    Step::Ask(Action::TakeCeremony(filter), AuthFinish::Taken { offer })
                },
                _ => Step::Done(too_many()),
            },
            AuthFinish::Taken { offer } => match event {
                Event::Taken(Some(c)) => {
                    let party = webauthn(app);
                    if !is_authentication_state(c.state_json.as_str()) || !party.check() {
                        return Step::Done(internal_err());
                    }
                    let claim = identify(&party, offer.payload.assertion.as_str());
                    claim_read(claim, offer, c.state_json)
                },
                Event::Taken(None) => Step::Done(message(BAD_REQUEST, USED_UP)),
                _ => Step::Done(internal_err()),
            },
            AuthFinish::Passkey { offer, state, handle, cred_id } => match event {
                Event::Passkey(Some(row)) => {
                    let expected = user_uuid(row.userId.to_hex().as_str());
                    if !same_bytes(&handle, &expected) {
                        return Step::Done(unauthorized());
                    }
                    let party = webauthn(app);
                    let outcome = authentication_finish(
                        &party,
                        offer.payload.assertion.as_str(),
                        state.as_str(),
                        row.passkey_json.as_str(),
                    );
                    assertion_checked(outcome, row, offer, cred_id, now)
                },
                Event::Passkey(None) => Step::Done(unauthorized()),
                _ => Step::Done(db_error(INTERNAL_SERVER_ERROR)),
            },
            AuthFinish::Update { offer, uid } => match event {
                Event::Count(n) => {
                    if n == 1 {
                        Step::Ask(Action::UserById(uid), AuthFinish::User { offer, uid })
                    } else {
                        Step::Done(unauthorized())
                    }
                },
                _ => Step::Done(db_error(INTERNAL_SERVER_ERROR)),
            },
            AuthFinish::User { offer, uid } => match event {
                Event::User(Some(user)) => match fetch_geo(
                    offer.payload.identifier.as_str(),
                    app.ipgeo_key.as_str(),
                ) {
                    Some(url) => Step::Ask(
                        Action::Geo { url },
                        AuthFinish::Geo { offer, uid, user },
                    ),
                    None => passkey_session(offer, uid, user, &geo_info(None), secret, now),
                },
                Event::User(None) => Step::Done(unauthorized()),
                _ => Step::Done(db_error(INTERNAL_SERVER_ERROR)),
            },
            AuthFinish::Geo { offer, uid, user } => passkey_session(
                offer,
                uid,
                user,
                &answered_geo(event),
                secret,
                now,
            ),
            AuthFinish::Insert { answer } => match event {
                Event::Done => Step::Done(answer),
                _ => Step::Done(db_error(INTERNAL_SERVER_ERROR)),
            },
        }
    }
}

/// A passkey opens a session only where the assertion claims the handle of the
/// row's owner, the check accepts it, and the user was verified.
pub proof fn law_only_verified_users_go_on(
    offer: Offer,
    state: String,
    handle: Vec<u8>,
    cred_id: String,
    app: AppState,
    event: Event,
    now: UtcTime,
    action: Action,
    after: AuthFinish,
)
    requires
        (AuthFinish::Passkey { offer, state, handle, cred_id }).next(
            app,
            event,
            now,
            Step::Ask(action, after),
        ),
    ensures
        event matches Event::Passkey(Some(row)) && handle@ == uuid_of(hex_form(row.userId@))
            && (authenticated(
            app.webauthn_rp_id@,
            app.webauthn_rp_origin@,
            app.webauthn_rp_name@,
            offer.payload.assertion@,
            state@,
            row.passkey_json@,
        ) matches Some((verified, _, _)) && verified),
{
}

/// A passkey that was removed, or that another sign-in changed, opens no
/// session.
pub proof fn law_stale_passkey_opens_no_session(
    offer: Offer,
    uid: ObjectId,
    app: AppState,
    matched: u64,
    now: UtcTime,
    r: Step<AuthFinish, Reply>,
)
    requires
        (AuthFinish::Update { offer, uid }).next(app, Event::Count(matched), now, r),
        matched != 1,
    ensures
        r == Step::<AuthFinish, Reply>::Done(denied()),
{
}

/// A sign-in without a ceremony to take is refused, and nothing is written.
pub proof fn law_sign_in_needs_its_ceremony(
    offer: Offer,
    app: AppState,
    now: UtcTime,
    r: Step<AuthFinish, Reply>,
)
    requires
        (AuthFinish::Taken { offer }).next(app, Event::Taken(None), now, r),
    ensures
        r == Step::<AuthFinish, Reply>::Done(says(BAD_REQUEST, USED_UP)),
{
}

} // verus!
