//! What becomes of stored passkeys and ceremonies when a request is answered.

use vstd::prelude::*;
#[allow(unused_imports)]
use vstd::string::*;

use crate::config::AppState;
#[allow(unused_imports)]
use crate::encoding::base64_text;
#[allow(unused_imports)]
use crate::flow::{Ceremony, Event, Step};
#[allow(unused_imports)]
use crate::handlers::passkey::authenticate::{auth_finish, auth_start};
use crate::handlers::passkey::authenticate::{AuthFinish, AuthFinishReq, AuthStart};
#[allow(unused_imports)]
use crate::handlers::passkey::register::{law_options_ask_for_a_resident_key, register_finish, register_start};
use crate::handlers::passkey::register::{RegisterFinish, RegisterFinishReq, RegisterStart};
#[allow(unused_imports)]
use crate::handlers::passkey::{are_drawn, known_credentials, list, remove};
use crate::handlers::passkey::{ListPasskeys, RemovePasskey};
#[allow(unused_imports)]
use crate::handlers::user::kept::{lemma_opened, opens_session};
#[allow(unused_imports)]
use crate::http::{says, Body, OK};
use crate::http::{Headers, Reply};
#[allow(unused_imports)]
use crate::json::{text_member, JsonView};
#[allow(unused_imports)]
use crate::models::PasskeyCredential;
#[allow(unused_imports)]
use crate::object_id::{hex_form, is_object_id, object_id_of, ObjectId};
#[allow(unused_imports)]
use crate::store::{runs, unfailed, Rows, Turn};
#[allow(unused_imports)]
use crate::text::trimmed;
use crate::time::UtcTime;
use crate::utils::crypto::Claims;
#[allow(unused_imports)]
use crate::utils::webauthn::{authenticated, credential_of, identified, is_party, keeps_authentication, keeps_registration, reads_as_authentication, reads_as_registration, registered, text_at, uuid_of, Begun};

verus! {

/// A user who lists the passkeys gets all of their own and no other, each with
/// what is stored of it but the credential. No row is changed.
pub proof fn law_passkeys_are_listed(
    claims: Claims,
    app: AppState,
    start: Step<ListPasskeys, Reply>,
    rows: Rows,
    turns: Seq<Turn<ListPasskeys>>,
    stored: ObjectId,
    reply: Reply,
    after: Rows,
)
    requires
        call_ensures(list, (&claims,), start),
        runs(app, start, rows, turns, (reply, after)),
    ensures
        after == rows,
        unfailed(turns) ==> (reply.status == OK) == is_object_id(claims.sub@),
        reply.status == OK ==> {
            &&& reply.cookies is Nothing
            &&& reply.body matches Body::Passkeys(entries)
            &&& forall|i: int|
                #![trigger entries@[i]]
                0 <= i < entries@.len() ==> exists|id: ObjectId| #[trigger]
                    rows.passkeys.dom().contains(id) && rows.passkeys[id].userId == object_id_of(
                        claims.sub@,
                    ) && entries@[i].cred_id == rows.passkeys[id].cred_id && entries@[i].label
                        == rows.passkeys[id].label && entries@[i].createdAt
                        == rows.passkeys[id].createdAt && entries@[i].lastUsedAt
                        == rows.passkeys[id].lastUsedAt
            &&& rows.passkeys.dom().contains(stored) && rows.passkeys[stored].userId
                == object_id_of(claims.sub@) ==> exists|i: int|
                0 <= i < entries@.len() && (#[trigger] entries@[i]).cred_id
                    == rows.passkeys[stored].cred_id
        },
{
    reveal_with_fuel(runs, 3);
    if reply.status == OK {
        let found = turns[0].event->Passkeys_0@;
        let entries = reply.body->Passkeys_0;
        assert forall|i: int| #![trigger entries@[i]] 0 <= i < entries@.len() implies exists|
            id: ObjectId,
        | #[trigger]
            rows.passkeys.dom().contains(id) && rows.passkeys[id].userId == object_id_of(
                claims.sub@,
            ) && entries@[i].cred_id == rows.passkeys[id].cred_id && entries@[i].label
                == rows.passkeys[id].label && entries@[i].createdAt == rows.passkeys[id].createdAt
                && entries@[i].lastUsedAt == rows.passkeys[id].lastUsedAt by {
            let id = choose|id: ObjectId| #[trigger]
                rows.passkeys.dom().contains(id) && rows.passkeys[id] == found[i];
            assert(rows.passkeys.dom().contains(id));
        }
        if rows.passkeys.dom().contains(stored) && rows.passkeys[stored].userId == object_id_of(
            claims.sub@,
        ) {
            assert(found.contains(rows.passkeys[stored]));
            let i = choose|i: int| 0 <= i < found.len() && found[i] == rows.passkeys[stored];
            assert(entries@[i].cred_id == rows.passkeys[stored].cred_id);
        }
    }
}

/// A passkey that its user removed is stored no more, and no other is touched;
/// a user removes no passkey of another.
pub proof fn law_removed_passkey_is_gone(
    claims: Claims,
    cred_id: String,
    id: ObjectId,
    app: AppState,
    start: Step<RemovePasskey, Reply>,
    rows: Rows,
    turns: Seq<Turn<RemovePasskey>>,
    reply: Reply,
    after: Rows,
)
    requires
        call_ensures(remove, (&claims, cred_id), start),
        runs(app, start, rows, turns, (reply, after)),
    ensures
        reply.status == OK ==> reply == says(OK, "Passkey removed"),
        reply.status == OK ==> {
            &&& after.passkeys.dom().contains(id) == (rows.passkeys.dom().contains(id) && !(
            rows.passkeys[id].userId == object_id_of(claims.sub@) && rows.passkeys[id].cred_id@
                == cred_id@))
            &&& after.passkeys.dom().contains(id) ==> after.passkeys[id] == rows.passkeys[id]
            &&& after == (Rows { passkeys: after.passkeys, ..rows })
        },
        unfailed(turns) ==> (reply.status == OK) == (is_object_id(claims.sub@) && exists|
            i: ObjectId,
        | #[trigger]
            rows.passkeys.dom().contains(i) && rows.passkeys[i].userId == object_id_of(claims.sub@)
                && rows.passkeys[i].cred_id@ == cred_id@),
{
    reveal_with_fuel(runs, 3);
}

/// `c` is a ceremony that began at `now`: it has a token of its own, written
/// from random bytes, and lasts ten minutes.
pub open spec fn is_begun(
    c: Ceremony,
    purpose: Seq<char>,
    subject: Seq<char>,
    now: UtcTime,
) -> bool {
    &&& exists|bytes: Seq<u8>|
        bytes.len() == 32 && #[trigger] are_drawn(bytes) && c.token@ == base64_text(bytes, true)
    &&& c.purpose@ == purpose
    &&& c.subject@ == subject
    &&& c.expires_at.secs == now.secs + 600
    &&& c.expires_at.nanos == now.nanos - now.nanos % 1_000_000
}

/// A user who begins to register a passkey is given options that name the site
/// and the user, ask for a credential that the authenticator finds by itself and
/// for a verified user; the ceremony is stored under the token that the client is
/// given, for that user, with the challenge of the options. Each user with an
/// email and a name whom the budget lets try begins one, where the site is set up
/// for it.
pub proof fn law_registration_begins(
    claims: Claims,
    app: AppState,
    start: Step<RegisterStart, Reply>,
    rows: Rows,
    turns: Seq<Turn<RegisterStart>>,
    reply: Reply,
    after: Rows,
)
    requires
        call_ensures(register_start, (&claims,), start),
        runs(app, start, rows, turns, (reply, after)),
        unfailed(turns),
        is_object_id(claims.sub@),
    ensures
        ({
            let uid = object_id_of(claims.sub@);
            let user = rows.users[uid];
            &&& (reply.status == OK) == (rows.users.dom().contains(uid) && turns[1].event is Allowed
                && is_party(app.webauthn_rp_id@, app.webauthn_rp_origin@) && user.email@.len() > 0
                && user.name@.len() > 0)
            &&& reply.status != OK ==> after == rows
            &&& reply.status == OK ==> {
                &&& reply.cookies is Nothing
                &&& reply.body matches Body::PasskeyOptions { options, state_token }
                &&& {
                    let c = after.ceremonies[state_token@];
                    &&& c.token@ == state_token@
                    &&& is_begun(c, "pk-reg"@, hex_form(uid@), turns[2].now)
                    &&& keeps_registration(c.state_json@, options@)
                    &&& after == (Rows {
                        ceremonies: rows.ceremonies.insert(state_token@, c),
                        ..rows
                    })
                }
                &&& text_at(options@, "rp"@, "id"@) == Some(app.webauthn_rp_id@)
                &&& text_at(options@, "rp"@, "name"@) == Some(app.webauthn_rp_name@)
                &&& text_at(options@, "user"@, "id"@) == Some(
                    base64_text(uuid_of(hex_form(uid@)), true),
                )
                &&& text_at(options@, "user"@, "name"@) == Some(user.email@)
                &&& text_at(options@, "user"@, "displayName"@) == Some(user.name@)
                &&& text_at(options@, "authenticatorSelection"@, "userVerification"@) == Some(
                    "required"@,
                )
                &&& text_at(options@, "authenticatorSelection"@, "residentKey"@) == Some(
                    "required"@,
                )
            }
        }),
{
    reveal_with_fuel(runs, 6);
    assert(turns.len() > 1 ==> turns.skip(1)[0] == turns[1]);
    assert(turns.len() > 2 ==> turns.skip(1).skip(1)[0] == turns[2]);
    assert(turns.len() > 3 ==> turns.skip(1).skip(1).skip(1)[0] == turns[3]);
    let uid = object_id_of(claims.sub@);
    let user = rows.users[uid];
    if rows.users.dom().contains(uid) && turns[1].event is Allowed && is_party(
        app.webauthn_rp_id@,
        app.webauthn_rp_origin@,
    ) {
        let known = turns[2].event->Passkeys_0@;
        let (begun, random) = choose|begun: Option<Begun>, random: Seq<u8>|
            crate::handlers::passkey::register::begins(begun, app, uid, user, known) && random.len()
                == 32 && are_drawn(random)
                && #[trigger] crate::handlers::passkey::register::is_begun_step(
                turns[2].step,
                begun,
                random,
                uid,
                turns[2].now,
            );
        if begun is Some {
            let options = begun->0.options@;
            reveal_strlit("authenticatorSelection");
            reveal_strlit("challenge");
            reveal_strlit("rp");
            reveal_strlit("user");
            assert("authenticatorSelection"@.len() == 22 && "challenge"@.len() == 9 && "rp"@.len()
                == 2 && "user"@.len() == 4);
            law_options_ask_for_a_resident_key(options, "challenge"@);
            law_options_ask_for_a_resident_key(options, "rp"@);
            law_options_ask_for_a_resident_key(options, "user"@);
        }
    }
}

/// The name of a passkey: what was given, without white space around it, its
/// first 64 characters, and "Passkey" where nothing was given.
pub open spec fn is_name(label: Seq<char>, given: Option<String>) -> bool {
    match given {
        Some(g) => if trimmed(g@).len() == 0 {
            label == "Passkey"@
        } else if trimmed(g@).len() <= 64 {
            label == trimmed(g@)
        } else {
            label.len() == 64 && label == trimmed(g@).subrange(0, 64)
        },
        None => label == "Passkey"@,
    }
}

/// A credential that a user registers, and that the check of its ceremony
/// accepts, is stored for that user under its identifier, with its name; the
/// ceremony is stored no more. It is stored unless it already is, or the database
/// failed.
pub proof fn law_passkey_is_registered(
    claims: Claims,
    payload: RegisterFinishReq,
    began: UtcTime,
    app: AppState,
    start: Step<RegisterFinish, Reply>,
    rows: Rows,
    turns: Seq<Turn<RegisterFinish>>,
    token: String,
    credential: Seq<u8>,
    passkey: Seq<char>,
    reply: Reply,
    after: Rows,
)
    requires
        call_ensures(register_finish, (&claims, payload, began), start),
        runs(app, start, rows, turns, (reply, after)),
        unfailed(turns),
        is_object_id(claims.sub@),
        payload.stateToken == Some(token),
        rows.ceremonies.dom().contains(token@),
        rows.ceremonies[token@].token@ == token@,
        rows.ceremonies[token@].purpose@ == "pk-reg"@,
        rows.ceremonies[token@].subject@ == claims.sub@,
        began.to_millis().before(rows.ceremonies[token@].expires_at),
        is_party(app.webauthn_rp_id@, app.webauthn_rp_origin@),
        reads_as_registration(rows.ceremonies[token@].state_json@),
        registered(
            app.webauthn_rp_id@,
            app.webauthn_rp_origin@,
            app.webauthn_rp_name@,
            payload.credential@,
            rows.ceremonies[token@].state_json@,
        ) == Some((credential, passkey)),
    ensures
        ({
            let uid = object_id_of(claims.sub@);
            let taken = exists|i: ObjectId| #[trigger]
                rows.passkeys.dom().contains(i) && rows.passkeys[i].cred_id@ == base64_text(
                    credential,
                    true,
                );
            &&& (reply.status == OK) == !taken
            &&& after.ceremonies == rows.ceremonies.remove(token@)
            &&& after == (Rows {
                ceremonies: after.ceremonies,
                passkeys: after.passkeys,
                ..rows
            })
            &&& reply.status != OK ==> after.passkeys == rows.passkeys
            &&& reply.status == OK ==> {
                &&& reply == says(OK, "Passkey registered!")
                &&& exists|id: ObjectId|
                    #![trigger after.passkeys[id]]
                    {
                        let row = after.passkeys[id];
                        &&& !rows.passkeys.dom().contains(id)
                        &&& after.passkeys == rows.passkeys.insert(id, row)
                        &&& row.id == Some(id)
                        &&& row.userId == uid
                        &&& row.cred_id@ == base64_text(credential, true)
                        &&& row.passkey_json@ == passkey
                        &&& row.label matches Some(l) && is_name(l@, payload.label)
                        &&& row.createdAt == Some(turns[1].now)
                        &&& row.lastUsedAt is None
                    }
            }
        }),
{
    reveal_with_fuel(runs, 5);
    assert(turns.len() > 1 ==> turns.skip(1)[0] == turns[1]);
    assert(turns.len() > 2 ==> turns.skip(1).skip(1)[0] == turns[2]);
    reveal_strlit("Passkey");
    assert("Passkey"@.len() == 7 && "Passkey"@[0] == 'P' && "Passkey"@.last() == 'y');
    crate::text::lemma_trimmed_is_itself("Passkey"@);
    assert(turns[0].event == Event::Taken(Some(rows.ceremonies[token@])));
    if turns[1].event == Event::Passkey(None) {
        let made = turns[1].step->Ask_0->InsertPasskey_0;
        if turns[2].event is Done {
            let id = choose|id: ObjectId|
                !(#[trigger] rows.passkeys.dom().contains(id)) && after.passkeys
                    == rows.passkeys.insert(id, PasskeyCredential { id: Some(id), ..made });
            assert(after.passkeys[id] == (PasskeyCredential { id: Some(id), ..made }));
            assert(payload.label matches Some(g) && trimmed(g@).len() > 64 ==> trimmed(
                payload.label->0@,
            ).take(64) =~= trimmed(payload.label->0@).subrange(0, 64));
        }
    }
}

/// A client that the budget lets try is given options for a sign-in with a
/// passkey, where the site is set up for it: any passkey of the site, and a
/// verified user. The ceremony is stored under the token that the client is
/// given, with the challenge of the options.
pub proof fn law_passkey_sign_in_begins(
    headers: Headers,
    app: AppState,
    start: Step<AuthStart, Reply>,
    rows: Rows,
    turns: Seq<Turn<AuthStart>>,
    reply: Reply,
    after: Rows,
)
    requires
        call_ensures(auth_start, (&headers,), start),
        runs(app, start, rows, turns, (reply, after)),
        unfailed(turns),
    ensures
        (reply.status == OK) == (turns[0].event is Allowed && is_party(
            app.webauthn_rp_id@,
            app.webauthn_rp_origin@,
        )),
        reply.status != OK ==> after == rows,
        reply.status == OK ==> {
            &&& reply.cookies is Nothing
            &&& reply.body matches Body::PasskeyOptions { options, state_token }
            &&& {
                let c = after.ceremonies[state_token@];
                &&& c.token@ == state_token@
                &&& is_begun(c, "pk-auth"@, Seq::empty(), turns[0].now)
                &&& keeps_authentication(c.state_json@, options@)
                &&& after == (Rows { ceremonies: rows.ceremonies.insert(state_token@, c), ..rows })
            }
            &&& text_member(options@, "rpId"@) == Some(app.webauthn_rp_id@)
            &&& text_member(options@, "userVerification"@) == Some("required"@)
            &&& options@.member("allowCredentials"@) == Some(JsonView::Array(Seq::empty()))
        },
{
    reveal_with_fuel(runs, 4);
    assert(turns.len() > 1 ==> turns.skip(1)[0] == turns[1]);
    if turns[0].event is Allowed && is_party(app.webauthn_rp_id@, app.webauthn_rp_origin@) {
        let (begun, random) = choose|begun: Begun, random: Seq<u8>|
            crate::utils::webauthn::is_request(begun.options@, app.webauthn_rp_id@)
                && keeps_authentication(begun.state@, begun.options@) && random.len() == 32
                && are_drawn(random)
                && #[trigger] crate::handlers::passkey::authenticate::is_auth_begun(
                turns[0].step,
                begun,
                random,
                turns[0].now,
            );
        assert(are_drawn(random));
    }
}

/// A user who presents an assertion of a stored passkey of theirs, which the
/// check of its ceremony accepts with the user verified, is signed in: a session
/// of theirs is stored and its token is in the cookie. The passkey is stored as
/// the check left it, with the time; the ceremony is stored no more. An assertion
/// that is not accepted opens no session.
pub proof fn law_passkey_signs_in(
    headers: Headers,
    payload: AuthFinishReq,
    app: AppState,
    start: Step<AuthFinish, Reply>,
    rows: Rows,
    turns: Seq<Turn<AuthFinish>>,
    token: String,
    handle: Seq<u8>,
    credential: Seq<u8>,
    id: ObjectId,
    reply: Reply,
    after: Rows,
)
    requires
        call_ensures(auth_finish, (&headers, payload), start),
        runs(app, start, rows, turns, (reply, after)),
        unfailed(turns),
        turns[0].event is Allowed,
        payload.stateToken == Some(token),
        rows.ceremonies.dom().contains(token@),
        rows.ceremonies[token@].token@ == token@,
        rows.ceremonies[token@].purpose@ == "pk-auth"@,
        rows.ceremonies[token@].subject@.len() == 0,
        turns[0].now.to_millis().before(rows.ceremonies[token@].expires_at),
        is_party(app.webauthn_rp_id@, app.webauthn_rp_origin@),
        reads_as_authentication(rows.ceremonies[token@].state_json@),
        identified(
            app.webauthn_rp_id@,
            app.webauthn_rp_origin@,
            app.webauthn_rp_name@,
            payload.assertion@,
        ) == Some((handle, credential)),
        rows.passkeys.dom().contains(id),
        rows.passkeys[id].cred_id@ == base64_text(credential, true),
        forall|i: ObjectId, j: ObjectId| #[trigger]
            rows.passkeys.dom().contains(i) && #[trigger] rows.passkeys.dom().contains(j)
                && rows.passkeys[i].cred_id@ == rows.passkeys[j].cred_id@ ==> i == j,
        rows.users.dom().contains(rows.passkeys[id].userId),
    ensures
        ({
            let row = rows.passkeys[id];
            let uid = row.userId;
            let user = rows.users[uid];
            let outcome = authenticated(
                app.webauthn_rp_id@,
                app.webauthn_rp_origin@,
                app.webauthn_rp_name@,
                payload.assertion@,
                rows.ceremonies[token@].state_json@,
                row.passkey_json@,
            );
            let right = handle == uuid_of(hex_form(uid@)) && (outcome matches Some(
                (verified, _, _),
            ) && verified);
            let answer = if app.ipgeo_key@.len() > 0 && turns[5].event is Geo {
                turns[5].event->Geo_0
            } else {
                None
            };
            &&& (reply.status == OK) == right
            &&& after.ceremonies == rows.ceremonies.remove(token@)
            &&& reply.status != OK ==> after == (Rows { ceremonies: after.ceremonies, ..rows })
            &&& reply.status == OK ==> {
                &&& reply.cookies is Two
                &&& reply.body == (Body::PasskeySignedIn {
                    id: uid,
                    name: user.name,
                    google_account: user.googleAccount == Some(true),
                    settings: user.settings,
                    last_opened: user.lastOpenedNote,
                })
                &&& opens_session(
                    rows,
                    after,
                    reply,
                    uid,
                    user.name@,
                    user.googleAccount == Some(true),
                    match headers.user_agent {
                        Some(ua) => ua@,
                        None => "Unknown"@,
                    },
                    payload.identifier@,
                    answer,
                    app.jwt_secret@,
                    turns[turns.len() - 2].now,
                )
                &&& after.passkeys.dom() == rows.passkeys.dom()
                &&& after.passkeys[id] == (PasskeyCredential {
                    passkey_json: after.passkeys[id].passkey_json,
                    lastUsedAt: Some(turns[2].now),
                    ..row
                })
                &&& outcome matches Some((_, changed, passkey))
                    && after.passkeys[id].passkey_json@ == if changed == Some(true) {
                    passkey
                } else {
                    row.passkey_json@
                }
                &&& forall|i: ObjectId| #[trigger]
                    rows.passkeys.dom().contains(i) && i != id ==> after.passkeys[i]
                        == rows.passkeys[i]
                &&& after == (Rows {
                    ceremonies: after.ceremonies,
                    passkeys: after.passkeys,
                    sessions: after.sessions,
                    ..rows
                })
            }
        }),
{
    reveal_with_fuel(runs, 9);
    assert(turns.len() > 1 ==> turns.skip(1)[0] == turns[1]);
    assert(turns.len() > 2 ==> turns.skip(1).skip(1)[0] == turns[2]);
    assert(turns.len() > 3 ==> turns.skip(1).skip(1).skip(1)[0] == turns[3]);
    assert(turns.len() > 4 ==> turns.skip(1).skip(1).skip(1).skip(1)[0] == turns[4]);
    assert(turns.len() > 5 ==> turns.skip(1).skip(1).skip(1).skip(1).skip(1)[0] == turns[5]);
    assert(turns.len() > 6 ==> turns.skip(1).skip(1).skip(1).skip(1).skip(1).skip(1)[0]
        == turns[6]);
    let row = rows.passkeys[id];
    let uid = row.userId;
    let user = rows.users[uid];
    let offer = start->Ask_1->Limit_offer;
    assert(rows.ceremonies[token@].subject@ =~= Seq::empty());
    assert(turns[1].event == Event::Taken(Some(rows.ceremonies[token@])));
    let got = turns[2].event->Passkey_0;
    assert(got is Some);
    let k = choose|k: ObjectId| #[trigger]
        rows.passkeys.dom().contains(k) && rows.passkeys[k] == got->0;
    assert(k == id);
    let n = turns.len() as int;
    let answer = if app.ipgeo_key@.len() > 0 && turns[5].event is Geo {
        turns[5].event->Geo_0
    } else {
        None
    };
    if reply.status == OK {
        let made = turns[n - 2].step->Ask_0->InsertSession_0;
        lemma_opened(
            made,
            turns[3].rows,
            after,
            reply,
            uid,
            user.name@,
            user.googleAccount == Some(true),
            offer.ua,
            payload.identifier,
            answer,
            app.jwt_secret@,
            turns[n - 2].now,
            reply.body,
            true,
        );
        assert(after.passkeys.dom() =~= rows.passkeys.dom());
    }
}

proof fn lemma_known(rows: Seq<PasskeyCredential>, k: int, credential: Seq<u8>)
    requires
        0 <= k < rows.len(),
        credential_of(rows[k].passkey_json@) == Some(credential),
    ensures
        known_credentials(rows).contains(credential),
    decreases rows.len(),
{
    let all = known_credentials(rows);
    if k == rows.len() - 1 {
        assert(rows.last() == rows[k]);
        assert(all.last() == credential);
    } else {
        let rest = rows.drop_last();
        assert(rest[k] == rows[k]);
        lemma_known(rest, k, credential);
        let i = choose|i: int|
            0 <= i < known_credentials(rest).len() && known_credentials(rest)[i] == credential;
        assert(all[i] == credential);
    }
}

/// The options of a registration leave out every credential that the user has,
/// so that no authenticator is registered twice.
pub proof fn law_registered_passkeys_are_left_out(
    claims: Claims,
    app: AppState,
    start: Step<RegisterStart, Reply>,
    rows: Rows,
    turns: Seq<Turn<RegisterStart>>,
    id: ObjectId,
    credential: Seq<u8>,
    reply: Reply,
    after: Rows,
)
    requires
        call_ensures(register_start, (&claims,), start),
        runs(app, start, rows, turns, (reply, after)),
        unfailed(turns),
        is_object_id(claims.sub@),
        reply.status == OK,
        rows.passkeys.dom().contains(id),
        rows.passkeys[id].userId == object_id_of(claims.sub@),
        credential_of(rows.passkeys[id].passkey_json@) == Some(credential),
    ensures
        reply.body matches Body::PasskeyOptions { options, state_token } && (options@.member(
            "excludeCredentials"@,
        ) matches Some(JsonView::Array(items)) && exists|i: int|
            0 <= i < items.len() && text_member(#[trigger] items[i], "id"@) == Some(
                base64_text(credential, true),
            )),
{
    reveal_with_fuel(runs, 6);
    assert(turns.len() > 1 ==> turns.skip(1)[0] == turns[1]);
    assert(turns.len() > 2 ==> turns.skip(1).skip(1)[0] == turns[2]);
    assert(turns.len() > 3 ==> turns.skip(1).skip(1).skip(1)[0] == turns[3]);
    let uid = object_id_of(claims.sub@);
    let user = rows.users[uid];
    let known = turns[2].event->Passkeys_0@;
    let (begun, random) = choose|begun: Option<Begun>, random: Seq<u8>|
        crate::handlers::passkey::register::begins(begun, app, uid, user, known) && random.len()
            == 32 && are_drawn(random) && #[trigger] crate::handlers::passkey::register::is_begun_step(
            turns[2].step,
            begun,
            random,
            uid,
            turns[2].now,
        );
    let options = begun->0.options@;
    reveal_strlit("authenticatorSelection");
    reveal_strlit("excludeCredentials");
    assert("authenticatorSelection"@.len() == 22 && "excludeCredentials"@.len() == 18);
    law_options_ask_for_a_resident_key(options, "excludeCredentials"@);
    assert(known.contains(rows.passkeys[id]));
    let k = choose|k: int| 0 <= k < known.len() && known[k] == rows.passkeys[id];
    lemma_known(known, k, credential);
    let all = known_credentials(known);
    let i = choose|i: int| 0 <= i < all.len() && all[i] == credential;
    let items = options.member("excludeCredentials"@)->0->Array_0;
    assert(text_member(items[i], "id"@) == Some(base64_text(credential, true)));
}

} // verus!
