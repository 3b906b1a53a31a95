//! Passkeys. A ceremony takes two requests; its state is kept between them,
//! for ten minutes and for one use.

use vstd::prelude::*;
#[allow(unused_imports)]
use vstd::string::*;

use crate::config::AppState;
use crate::encoding::base64_url;
#[allow(unused_imports)]
use crate::encoding::{base64_text, is_url_char, law_url_text_is_not_padded};
use crate::flow::{Action, Ceremony, CeremonyFilter, Event, Flow, Step};
use crate::http::{message, reply, Body, PasskeyEntry, Reply, BAD_REQUEST, INTERNAL_SERVER_ERROR, OK};
#[allow(unused_imports)]
use crate::http::{plain, says};
use crate::models::PasskeyCredential;
#[allow(unused_imports)]
use crate::object_id::{is_object_id, object_id_of};
use crate::text::owned;
use crate::time::UtcTime;
use crate::utils::crypto::Claims;
use crate::utils::webauthn::{passkey_credential, Party};
#[allow(unused_imports)]
use crate::utils::webauthn::{byte_views, credential_of};
use crate::utils::{db_error, object_id_from_str};
#[allow(unused_imports)]
use crate::utils::db_failed;

pub mod authenticate;
pub mod kept;
pub mod register;

pub use authenticate::{auth_finish, auth_start, AuthFinishReq};
pub use register::{register_finish, register_start, RegisterFinishReq};

verus! {

// ---------- ceremonies ----------

pub const PK_REG_PURPOSE: &'static str = "pk-reg";

pub const PK_AUTH_PURPOSE: &'static str = "pk-auth";

/// How long a ceremony may take: ten minutes.
pub const CEREMONY_TTL_SECS: i64 = 600;

pub const USED_UP: &'static str = "Passkey request expired or already used; please try again";

/// The site of the configuration.
pub fn webauthn(app: &AppState) -> (r: Party<'_>)
    ensures
        r.id@ == app.webauthn_rp_id@,
        r.origin@ == app.webauthn_rp_origin@,
        r.name@ == app.webauthn_rp_name@,
{
    Party {
        id: app.webauthn_rp_id.as_str(),
        origin: app.webauthn_rp_origin.as_str(),
        name: app.webauthn_rp_name.as_str(),
    }
}

/// The text of a credential identifier, by which its row is found.
pub fn cred_id_string(id: &Vec<u8>) -> (r: String)
    ensures
        r@ == base64_text(id@, true),
{
    base64_url(id)
}

/// `rand::rngs::OsRng.fill_bytes`: 32 random bytes.
#[verifier::external_body]
pub(crate) fn random_bytes() -> (r: Vec<u8>)
    ensures
        r@.len() == 32,
{
    let mut random = [0u8; 32];
    rand::RngCore::fill_bytes(&mut rand::rngs::OsRng, &mut random);
    random.to_vec()
}

/// The bytes were drawn at random.
pub closed spec fn are_drawn(bytes: Seq<u8>) -> bool {
    exists|v: Vec<u8>| v@ == bytes && #[trigger] call_ensures(random_bytes, (), v)
}

/// Calls a function that draws bytes, and keeps that they are the ones that were
/// drawn.
fn drawn_by(draw: impl Fn() -> Vec<u8>) -> (r: Vec<u8>)
    requires
        call_requires(draw, ()),
    ensures
        call_ensures(draw, (), r),
{
    draw()
}

/// Draws the 32 random bytes of a ceremony's token.
pub(crate) fn draw_bytes() -> (r: Vec<u8>)
    ensures
        r@.len() == 32,
        are_drawn(r@),
{
    drawn_by(random_bytes)
}

/// `c` is the record of a ceremony that begins at `now`, its token written from
/// random bytes.
pub open spec fn is_ceremony(
    c: Ceremony,
    random: Seq<u8>,
    purpose: Seq<char>,
    subject: Seq<char>,
    state: String,
    now: UtcTime,
) -> bool {
    &&& c.token@ == base64_text(random, true)
    &&& c.purpose@ == purpose
    &&& c.subject@ == subject
    &&& c.state_json == state
    &&& c.expires_at.secs == now.secs + CEREMONY_TTL_SECS
    &&& c.expires_at.nanos == now.nanos - now.nanos % 1_000_000
}

/// Makes the record of a ceremony.
pub fn new_ceremony(
    random: &Vec<u8>,
    purpose: &str,
    subject: &str,
    state: String,
    now: UtcTime,
) -> (r: Ceremony)
    requires
        now.is_clock(),
    ensures
        is_ceremony(r, random@, purpose@, subject@, state, now),
{
    Ceremony {
        token: base64_url(random),
        purpose: owned(purpose),
        subject: owned(subject),
        state_json: state,
        expires_at: now.plus(CEREMONY_TTL_SECS).whole_millis(),
    }
}

/// `f` finds the ceremony with a token, for a purpose and a subject, that has
/// not expired at `now`.
pub open spec fn is_filter(
    f: CeremonyFilter,
    token: Seq<char>,
    purpose: Seq<char>,
    subject: Seq<char>,
    now: UtcTime,
) -> bool {
    &&& f.token@ == token
    &&& f.purpose@ == purpose
    &&& f.subject@ == subject
    &&& f.expires_after == now.to_millis()
}

/// Which ceremony a request may take. The expiry is part of it: expired rows
/// are not removed at once.
pub fn ceremony_filter(token: &str, purpose: &str, subject: &str, now: UtcTime) -> (r:
    CeremonyFilter)
    ensures
        is_filter(r, token@, purpose@, subject@, now),
{
    CeremonyFilter {
        token: owned(token),
        purpose: owned(purpose),
        subject: owned(subject),
        expires_after: now.whole_millis(),
    }
}

/// A filter finds a ceremony.
pub open spec fn finds(f: CeremonyFilter, c: Ceremony) -> bool {
    &&& f.token@ == c.token@
    &&& f.purpose@ == c.purpose@
    &&& f.subject@ == c.subject@
    &&& f.expires_after.before(c.expires_at)
}

/// A ceremony is found by its token, for its own purpose and subject, for ten
/// minutes to the millisecond, and in no other way.
pub proof fn law_ceremony_is_bound(
    c: Ceremony,
    random: Seq<u8>,
    purpose: Seq<char>,
    subject: Seq<char>,
    state: String,
    began: UtcTime,
    f: CeremonyFilter,
    token: Seq<char>,
    other_purpose: Seq<char>,
    other_subject: Seq<char>,
    now: UtcTime,
)
    requires
        began.is_clock(),
        now.is_clock(),
        is_ceremony(c, random, purpose, subject, state, began),
        is_filter(f, token, other_purpose, other_subject, now),
    ensures
        finds(f, c) == (token == base64_text(random, true) && other_purpose == purpose
            && other_subject == subject && (now.secs < began.secs + CEREMONY_TTL_SECS || (now.secs
            == began.secs + CEREMONY_TTL_SECS && now.nanos / 1_000_000 < began.nanos
            / 1_000_000))),
{
    assert(now.to_millis().nanos == now.nanos - now.nanos % 1_000_000);
}

/// The state of a registration is not found by a sign-in, nor the other way
/// round.
pub proof fn law_purposes_do_not_mix(
    c: Ceremony,
    random: Seq<u8>,
    subject: Seq<char>,
    state: String,
    began: UtcTime,
    f: CeremonyFilter,
    token: Seq<char>,
    other_subject: Seq<char>,
    now: UtcTime,
)
    ensures
        is_ceremony(c, random, PK_REG_PURPOSE@, subject, state, began) && is_filter(
            f,
            token,
            PK_AUTH_PURPOSE@,
            other_subject,
            now,
        ) ==> !finds(f, c),
        is_ceremony(c, random, PK_AUTH_PURPOSE@, subject, state, began) && is_filter(
            f,
            token,
            PK_REG_PURPOSE@,
            other_subject,
            now,
        ) ==> !finds(f, c),
{
    reveal_strlit("pk-reg");
    reveal_strlit("pk-auth");
    assert(PK_REG_PURPOSE@.len() == 6 && PK_AUTH_PURPOSE@.len() == 7);
}

/// What a filter takes of the ceremonies that are kept, by their tokens.
pub open spec fn taken_of(kept: Map<Seq<char>, Ceremony>, f: CeremonyFilter) -> Option<Ceremony> {
    if kept.dom().contains(f.token@) && finds(f, kept[f.token@]) {
        Some(kept[f.token@])
    } else {
        None
    }
}

/// The ceremonies that are kept after some were taken.
pub open spec fn kept_after(kept: Map<Seq<char>, Ceremony>, takes: Seq<CeremonyFilter>) -> Map<
    Seq<char>,
    Ceremony,
>
    decreases takes.len(),
{
    if takes.len() == 0 {
        kept
    } else {
        let before = kept_after(kept, takes.drop_last());
        if taken_of(before, takes.last()) is Some {
            before.remove(takes.last().token@)
        } else {
            before
        }
    }
}

/// What the filter at `i` takes, after those before it.
pub open spec fn answer_to(
    kept: Map<Seq<char>, Ceremony>,
    takes: Seq<CeremonyFilter>,
    i: int,
) -> Option<Ceremony> {
    taken_of(kept_after(kept, takes.take(i)), takes[i])
}

proof fn lemma_kept_until_found(
    kept: Map<Seq<char>, Ceremony>,
    takes: Seq<CeremonyFilter>,
    c: Ceremony,
)
    requires
        kept.dom().contains(c.token@),
        kept[c.token@] == c,
    ensures
        kept_after(kept, takes).dom().contains(c.token@) <==> forall|j: int|
            0 <= j < takes.len() ==> !finds(#[trigger] takes[j], c),
        kept_after(kept, takes).dom().contains(c.token@) ==> kept_after(kept, takes)[c.token@] == c,
    decreases takes.len(),
{
    if takes.len() > 0 {
        let past = takes.drop_last();
        lemma_kept_until_found(kept, past, c);
        assert(forall|j: int| 0 <= j < past.len() ==> past[j] == #[trigger] takes[j]);
        assert(takes.last() == takes[takes.len() - 1]);
        if kept_after(kept, takes).dom().contains(c.token@) {
            assert forall|j: int| 0 <= j < takes.len() implies !finds(#[trigger] takes[j], c) by {
                if j < past.len() {
                    assert(!finds(past[j], c));
                }
            }
        }
        if forall|j: int| 0 <= j < takes.len() ==> !finds(#[trigger] takes[j], c) {
            assert forall|j: int| 0 <= j < past.len() implies !finds(#[trigger] past[j], c) by {
                assert(!finds(takes[j], c));
            }
        }
    }
}

/// A ceremony that began at `began` has not expired at `now`.
pub open spec fn is_live(began: UtcTime, now: UtcTime) -> bool {
    now.secs < began.secs + CEREMONY_TTL_SECS || (now.secs == began.secs + CEREMONY_TTL_SECS
        && now.nanos / 1_000_000 < began.nanos / 1_000_000)
}

/// Requests that name the token of a ceremony, one after another, each for a
/// purpose and a subject: the first one for the purpose and the subject of the
/// ceremony gets it, where it comes within ten minutes. No other request gets
/// anything, and those for another purpose or subject leave it to be got. The
/// token is 43 characters that need no escape.
pub proof fn law_ceremony_is_used_once(
    kept: Map<Seq<char>, Ceremony>,
    c: Ceremony,
    random: Seq<u8>,
    purpose: Seq<char>,
    subject: Seq<char>,
    state: String,
    began: UtcTime,
    takes: Seq<CeremonyFilter>,
    requests: Seq<(Seq<char>, Seq<char>, UtcTime)>,
    i: int,
)
    requires
        began.is_clock(),
        random.len() == 32,
        is_ceremony(c, random, purpose, subject, state, began),
        kept.dom().contains(c.token@),
        kept[c.token@] == c,
        requests.len() == takes.len(),
        forall|j: int|
            0 <= j < takes.len() ==> is_filter(
                #[trigger] takes[j],
                c.token@,
                requests[j].0,
                requests[j].1,
                requests[j].2,
            ) && requests[j].2.is_clock(),
        forall|j: int, k: int|
            0 <= j <= k < requests.len() ==> !(#[trigger] requests[k]).2.before(
                (#[trigger] requests[j]).2,
            ),
        0 <= i < takes.len(),
    ensures
        answer_to(kept, takes, i) == (if requests[i].0 == purpose && requests[i].1 == subject
            && is_live(began, requests[i].2) && forall|j: int|
            0 <= j < i ==> (#[trigger] requests[j]).0 != purpose || requests[j].1 != subject {
            Some(c)
        } else {
            None
        }),
        c.token@.len() == 43,
        forall|j: int| 0 <= j < c.token@.len() ==> is_url_char(#[trigger] c.token@[j]),
{
    law_url_text_is_not_padded(random);
    assert forall|j: int| 0 <= j < takes.len() implies finds(#[trigger] takes[j], c) == (
    requests[j].0 == purpose && requests[j].1 == subject && is_live(began, requests[j].2)) by {
        law_ceremony_is_bound(
            c,
            random,
            purpose,
            subject,
            state,
            began,
            takes[j],
            c.token@,
            requests[j].0,
            requests[j].1,
            requests[j].2,
        );
    }
    let past = takes.take(i);
    lemma_kept_until_found(kept, past, c);
    assert(forall|j: int| 0 <= j < i ==> past[j] == #[trigger] takes[j]);
    if exists|j: int|
        0 <= j < i && (#[trigger] requests[j]).0 == purpose && requests[j].1 == subject {
        let j = choose|j: int|
            0 <= j < i && (#[trigger] requests[j]).0 == purpose && requests[j].1 == subject;
        assert(!requests[i].2.before(requests[j].2));
        if is_live(began, requests[i].2) {
            assert(is_live(began, requests[j].2));
            assert(finds(takes[j], c));
            assert(finds(past[j], c));
        }
    } else {
        assert forall|j: int| 0 <= j < past.len() implies !finds(#[trigger] past[j], c) by {
            assert(!finds(takes[j], c));
            assert(requests[j].0 != purpose || requests[j].1 != subject);
        }
    }
}

// ---------- stored passkeys ----------

/// The credential identifiers of those rows whose passkey can be read.
pub open spec fn known_credentials(rows: Seq<PasskeyCredential>) -> Seq<Seq<u8>>
    decreases rows.len(),
{
    if rows.len() == 0 {
        Seq::empty()
    } else {
        match credential_of(rows.last().passkey_json@) {
            Some(id) => known_credentials(rows.drop_last()).push(id),
            None => known_credentials(rows.drop_last()),
        }
    }
}

/// Reads the credential identifiers of a user. Rows that cannot be read are
/// passed over.
pub fn load_passkeys(rows: &Vec<PasskeyCredential>) -> (r: Vec<Vec<u8>>)
    ensures
        byte_views(r@) == known_credentials(rows@),
{
    let mut ids: Vec<Vec<u8>> = Vec::new();
    let mut i: usize = 0;
    assert(rows@.take(0) =~= Seq::empty());
    assert(byte_views(ids@) =~= Seq::empty());
    while i < rows.len()
        invariant
            i <= rows@.len(),
            byte_views(ids@) == known_credentials(rows@.take(i as int)),
        decreases rows@.len() - i,
    {
        let ghost before = ids@;
        assert(rows@.take(i + 1).drop_last() =~= rows@.take(i as int));
        assert(rows@.take(i + 1).last() == rows@[i as int]);
        match passkey_credential(rows[i].passkey_json.as_str()) {
            Some(id) => {
                ids.push(id);
                assert(byte_views(ids@) =~= byte_views(before).push(id@));
            },
            None => {},
        }
        i += 1;
    }
    assert(rows@.take(i as int) =~= rows@);
    ids
}

/// `entries` tell of the rows, without the keys.
pub open spec fn are_entries(entries: Seq<PasskeyEntry>, rows: Seq<PasskeyCredential>) -> bool {
    &&& entries.len() == rows.len()
    &&& forall|i: int|
        0 <= i < rows.len() ==> {
            &&& (#[trigger] entries[i]).cred_id == rows[i].cred_id
            &&& entries[i].label == rows[i].label
            &&& entries[i].createdAt == rows[i].createdAt
            &&& entries[i].lastUsedAt == rows[i].lastUsedAt
        }
}

fn entries_of(rows: Vec<PasskeyCredential>) -> (r: Vec<PasskeyEntry>)
    ensures
        are_entries(r@, rows@),
{
    let mut entries: Vec<PasskeyEntry> = Vec::new();
    let mut i: usize = 0;
    while i < rows.len()
        invariant
            i <= rows@.len(),
            are_entries(entries@, rows@.take(i as int)),
        decreases rows@.len() - i,
    {
        entries.push(
            PasskeyEntry {
                cred_id: rows[i].cred_id.clone(),
                label: match &rows[i].label {
                    Some(l) => Some(l.clone()),
                    None => None,
                },
                createdAt: rows[i].createdAt,
                lastUsedAt: rows[i].lastUsedAt,
            },
        );
        i += 1;
    }
    assert(rows@.take(i as int) =~= rows@);
    entries
}

/// What the list of passkeys waits for: the rows.
pub struct ListPasskeys;

/// Lists the passkeys of a user.
pub fn list(claims: &Claims) -> (r: Step<ListPasskeys, Reply>)
    ensures
        r == if is_object_id(claims.sub@) {
            Step::Ask(Action::PasskeysOf(object_id_of(claims.sub@)), ListPasskeys)
        } else {
            Step::Done(says(BAD_REQUEST, "Invalid id"))
        },
{
    match object_id_from_str(claims.sub.as_str()) {
        None => Step::Done(message(BAD_REQUEST, "Invalid id")),
        Some(uid) => Step::Ask(Action::PasskeysOf(uid), ListPasskeys),
    }
}

impl ListPasskeys {
    /// `r` is what follows an answer. Keys do not leave the server.
    pub open spec fn next(self, event: Event, r: Step<ListPasskeys, Reply>) -> bool {
        match event {
            Event::Passkeys(rows) => r matches Step::Done(answer) && answer.body matches
                Body::Passkeys(entries) && answer == plain(OK, answer.body) && are_entries(
                entries@,
                rows@,
            ),
            _ => r == Step::<ListPasskeys, Reply>::Done(db_failed(INTERNAL_SERVER_ERROR)),
        }
    }
}

impl Flow for ListPasskeys {
    type Out = Reply;

    open spec fn ready(self) -> bool {
        true
    }

    fn resume(self, app: &AppState, event: Event, now: UtcTime) -> (r: Step<ListPasskeys, Reply>)
        ensures
            self.next(event, r),
    {
        match event {
            Event::Passkeys(rows) => Step::Done(reply(OK, Body::Passkeys(entries_of(rows)))),
            _ => Step::Done(db_error(INTERNAL_SERVER_ERROR)),
        }
    }
}

/// What the removal of a passkey waits for: the deletion.
pub struct RemovePasskey;

/// Removes a passkey of the caller. It is found by user and credential both, so
/// that of another is not.
pub fn remove(claims: &Claims, cred_id: String) -> (r: Step<RemovePasskey, Reply>)
    ensures
        r == if is_object_id(claims.sub@) {
            Step::Ask(
                Action::DeletePasskey { user: object_id_of(claims.sub@), cred_id },
                RemovePasskey,
            )
        } else {
            Step::Done(says(BAD_REQUEST, "Invalid id"))
        },
{
    match object_id_from_str(claims.sub.as_str()) {
        None => Step::Done(message(BAD_REQUEST, "Invalid id")),
        Some(user) => Step::Ask(Action::DeletePasskey { user, cred_id }, RemovePasskey),
    }
}

impl RemovePasskey {
    /// What follows an answer.
    pub open spec fn next(self, event: Event) -> Step<RemovePasskey, Reply> {
        Step::Done(
            match event {
                Event::Count(n) => if n == 0 {
                    says(BAD_REQUEST, "Passkey not found")
                } else {
                    says(OK, "Passkey removed")
                },
                _ => db_failed(INTERNAL_SERVER_ERROR),
            },
        )
    }
}

impl Flow for RemovePasskey {
    type Out = Reply;

    open spec fn ready(self) -> bool {
        true
    }

    fn resume(self, app: &AppState, event: Event, now: UtcTime) -> (r: Step<RemovePasskey, Reply>)
        ensures
            r == self.next(event),
    {
        match event {
            Event::Count(n) => {
                if n == 0 {
                    Step::Done(message(BAD_REQUEST, "Passkey not found"))
                } else {
                    Step::Done(message(OK, "Passkey removed"))
                }
            },
            _ => Step::Done(db_error(INTERNAL_SERVER_ERROR)),
        }
    }
}

/// The bytes of a token are those that the random number generator gave.
proof fn law_tokens_are_drawn(bytes: Seq<u8>)
    requires
        are_drawn(bytes),
    ensures
        exists|v: Vec<u8>| v@ == bytes && #[trigger] call_ensures(random_bytes, (), v),
{
}

} // verus!
