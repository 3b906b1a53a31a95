//! What becomes of one-time codes and second factors when a request is answered.

use vstd::prelude::*;
#[allow(unused_imports)]
use vstd::string::*;

use crate::config::AppState;
#[allow(unused_imports)]
use crate::encoding::{base32_text, law_base32_reads_back};
#[allow(unused_imports)]
use crate::flow::{Action, Event, Flow, Step};
#[allow(unused_imports)]
use crate::handlers::user::kept::{lemma_opened, opens_session};
#[allow(unused_imports)]
use crate::handlers::user::recovery::{code_of, find_and_send_code, is_drawn, otp_ids, verify_otp};
use crate::handlers::user::recovery::{FindCode, VerifyOtp};
#[allow(unused_imports)]
use crate::handlers::user::tfa::{generate_2fa_qrcode, remove_owned, tfa_cookie, verify_2fa_code};
use crate::handlers::user::tfa::{GenerateTfa, RemoveTfa, VerifyTfa};
use crate::handlers::user::{FindUserReq, Gen2FAReq, Remove2FAReq, Verify2FAReq, VerifyOtpReq};
#[allow(unused_imports)]
use crate::http::{says, Body, BAD_REQUEST, OK};
use crate::http::{Headers, Reply};
#[allow(unused_imports)]
use crate::models::{Otp, Tfa, User};
#[allow(unused_imports)]
use crate::numbers::{decimal, digits_value, is_digits};
#[allow(unused_imports)]
use crate::object_id::{hex_form, is_object_id, object_id_of, ObjectId};
#[allow(unused_imports)]
use crate::store::{runs, unfailed, Rows, Turn};
use crate::time::UtcTime;
#[allow(unused_imports)]
use crate::utils::crypto::{bcrypt_matches, hash_failed, purpose_owner};
#[allow(unused_imports)]
use crate::utils::mail::{is_mailbox, mail_page};
#[allow(unused_imports)]
use crate::utils::totp::{is_drawn_key, otpauth_url, qr_picture, tfa_verdict, totp_code};

verus! {

// ---------- one-time codes ----------

/// Every code from 1000 to 9999 can be drawn, and no other: a number below 9000
/// is drawn as the code that comes that far after 1000.
pub proof fn law_every_code_can_be_drawn(n: u16)
    ensures
        code_of(n).len() == 4,
        is_digits(code_of(n)),
        1000 <= digits_value(code_of(n)) <= 9999,
        n < 9000 ==> digits_value(code_of(n)) == 1000 + n,
{
    let v: nat = (n % 9000 + 1000) as nat;
    crate::numbers::lemma_decimal_reads(v);
    crate::numbers::lemma_decimal_len(v);
    crate::numbers::lemma_padded_reads(decimal(v), 4);
}

/// `otp` is the record of a code that is sent to a user at `now`: its hash
/// matches the code, it lasts an hour, and no other is sent for two minutes.
pub open spec fn is_code_record(otp: Otp, user: ObjectId, code: Seq<char>, now: UtcTime) -> bool {
    &&& otp.userId@ == hex_form(user@)
    &&& bcrypt_matches(code, otp.otp@) == Some(true)
    &&& otp.createdAt == Some(now)
    &&& otp.expiresAt matches Some(t) && t.secs == now.secs + 3600 && t.nanos == now.nanos
    &&& otp.spam matches Some(t) && t.secs == now.secs + 120 && t.nanos == now.nanos
}

/// `step` hands a code on that was drawn: to the mail relay, for the mail of
/// the account, or straight to the records, where there is no relay.
pub open spec fn sends_code(
    step: Step<FindCode, Reply>,
    n: u16,
    user: User,
    uid: ObjectId,
    app: AppState,
    now: UtcTime,
) -> bool {
    is_drawn(n) && if app.mail_host@.len() == 0 {
        step matches Step::Ask(Action::InsertOtp(otp), _) && is_code_record(
            otp,
            uid,
            code_of(n),
            now,
        )
    } else {
        step matches Step::Ask(Action::MailRelay { host }, FindCode::Relay { to, html, otp, uid: i })
            && host == app.mail_host && to == user.email && html@ == mail_page(
            code_of(n),
            user.name@,
        ) && is_code_record(otp, uid, code_of(n), now) && i == uid
    }
}

/// A code is sent where none is on record, or fewer than five are and the pause
/// after the last one is over; with five on record, or within the pause, the
/// client is told to wait. A code is withheld otherwise only where hashing it
/// failed.
pub proof fn law_code_is_sent_when_it_may_be(
    user: User,
    uid: ObjectId,
    otps: Vec<Otp>,
    app: AppState,
    now: UtcTime,
    r: Step<FindCode, Reply>,
)
    requires
        call_ensures(
            <FindCode as Flow>::resume,
            (FindCode::Otps { user, uid }, &app, Event::Otps(otps), now),
            r,
        ),
        now.is_clock(),
        otps@.len() > 0 ==> (otps@.last().createdAt matches Some(t) && t.secs > now.secs - 86400
            && t.nanos < 1_000_000_000),
    ensures
        ({
            let paused = otps@.len() > 0 && (otps@.last().spam matches Some(t) && !t.before(now));
            &&& otps@.len() < 5 && !paused ==> (exists|n: u16| #[trigger]
                sends_code(r, n, user, uid, app, now)) || (exists|n: u16|
                is_drawn(n) && #[trigger] hash_failed(code_of(n)))
            &&& otps@.len() >= 5 || paused ==> (r matches Step::Done(reply) && reply.status
                == BAD_REQUEST)
        }),
{
    if otps@.len() < 5 && !(otps@.len() > 0 && (otps@.last().spam matches Some(t) && !t.before(
        now,
    ))) {
        let (n, hash) = choose|n: u16, hash: Option<String>|
            is_drawn(n) && crate::handlers::user::recovery::hashes_code(n, hash)
                && #[trigger] crate::handlers::user::recovery::is_issue_step(
                r,
                n,
                hash,
                user,
                uid,
                app,
                now,
            );
        if hash is Some {
            assert(sends_code(r, n, user, uid, app, now));
        }
    }
}

/// A code that was handed to the mail relay is mailed to the account, from the
/// configured address, and then stored; the client is told so.
pub proof fn law_code_is_mailed_and_stored(
    to: String,
    html: String,
    otp: Otp,
    uid: ObjectId,
    app: AppState,
    rows: Rows,
    host: String,
    turns: Seq<Turn<FindCode>>,
    reply: Reply,
    after: Rows,
)
    requires
        runs(
            app,
            Step::Ask(Action::MailRelay { host }, FindCode::Relay { to, html, otp, uid }),
            rows,
            turns,
            (reply, after),
        ),
        unfailed(turns),
        turns[0].event is Done,
        otp.id is None,
    ensures
        reply.status == OK <==> is_mailbox(app.mail_from@) && is_mailbox(to@),
        reply.status != OK ==> after == rows,
        reply.status == OK ==> {
            &&& reply.cookies is Nothing
            &&& reply.body == (Body::OtpSent { user: uid })
            &&& turns[0].step matches Step::Ask(
                Action::SendMail { from, to: t, subject, html: h },
                _,
            ) && from == app.mail_from && t == to && h == html
            &&& exists|id: ObjectId|
                #![trigger after.otps[id]]
                !rows.otps.dom().contains(id) && after == (Rows {
                    otps: rows.otps.insert(id, Otp { id: Some(id), ..otp }),
                    ..rows
                })
        },
{
    reveal_with_fuel(runs, 5);
    assert(turns.len() > 1 ==> turns.skip(1)[0] == turns[1]);
    assert(turns.len() > 2 ==> turns.skip(1).skip(1)[0] == turns[2]);
    if reply.status == OK {
        let id = choose|id: ObjectId|
            !(#[trigger] rows.otps.dom().contains(id)) && after.otps == rows.otps.insert(
                id,
                Otp { id: Some(id), ..otp },
            );
        assert(after.otps[id] == (Otp { id: Some(id), ..otp }));
    }
}

/// The mail shows the name and the code.
pub proof fn law_mail_shows_the_code(code: Seq<char>, name: Seq<char>)
    ensures
        exists|i: int|
            0 <= i <= mail_page(code, name).len() - code.len() && #[trigger] mail_page(
                code,
                name,
            ).subrange(i, i + code.len()) == code,
        exists|i: int|
            0 <= i <= mail_page(code, name).len() - name.len() && #[trigger] mail_page(
                code,
                name,
            ).subrange(i, i + name.len()) == name,
{
    let page = mail_page(code, name);
    let a = crate::utils::mail::MAIL_GREETING@.len() as int;
    let b = a + name.len() + crate::utils::mail::MAIL_TEXT@.len();
    assert(page.subrange(a, a + name.len()) =~= name);
    assert(page.subrange(b, b + code.len()) =~= code);
}

/// Who asks for a code for an account, and is let try, has its codes looked up:
/// the account is found by its email. An account with a second factor that is
/// wanted for that is sent to it instead, unless it is to be removed. Where there
/// is no account the reply does not tell.
pub proof fn law_code_is_for_the_account(
    headers: Headers,
    payload: FindUserReq,
    app: AppState,
    start: Step<FindCode, Reply>,
    rows: Rows,
    turns: Seq<Turn<FindCode>>,
    id: ObjectId,
    reply: Reply,
    after: Rows,
)
    requires
        call_ensures(find_and_send_code, (&headers, payload), start),
        runs(app, start, rows, turns, (reply, after)),
        unfailed(turns),
        crate::handlers::user::kept::are_accounts(rows),
        turns[0].event is Allowed,
        turns[1].event is Allowed,
        rows.users.dom().contains(id),
        rows.users[id].email@ == payload.email@,
    ensures
        ({
            let user = rows.users[id];
            let removes = payload.remove2FA matches Some(t) && t@ == "2fa"@;
            let wants = user.tfa_status matches Some(t) && rows.tfas.dom().contains(t) && (
            rows.tfas[t].options matches Some(o) && o.useToResetPass == Some(true));
            &&& user.tfa_status is None && !removes ==> (turns[2].step matches Step::Ask(
                Action::OtpsOf(text),
                FindCode::Otps { user: u, uid },
            ) && text@ == hex_form(id@) && u == user && uid == id)
            &&& user.tfa_status is None && removes ==> reply.status == OK && after == rows
            &&& user.tfa_status is Some && wants && !removes ==> reply.status == OK && after == rows
                && reply.body == (Body::ResetWithTfa { user: id })
            &&& user.tfa_status is Some && !(wants && !removes) ==> (turns[3].step matches Step::Ask(
                Action::OtpsOf(text),
                FindCode::Otps { user: u, uid },
            ) && text@ == hex_form(id@) && u == user && uid == id)
        }),
{
    reveal_with_fuel(runs, 5);
    assert(turns.len() > 1 ==> turns.skip(1)[0] == turns[1]);
    assert(turns.len() > 2 ==> turns.skip(1).skip(1)[0] == turns[2]);
    assert(turns.len() > 3 ==> turns.skip(1).skip(1).skip(1)[0] == turns[3]);
    assert(turns[2].event == Event::User(Some(rows.users[id])));
}

/// A code that is right and has not expired is traded for a proof that its owner
/// may act for the account for fifteen minutes, and is stored no more, nor is any
/// other of the account; those of others stay. Any other code changes nothing.
pub proof fn law_code_is_traded(
    headers: Headers,
    payload: VerifyOtpReq,
    app: AppState,
    start: Step<VerifyOtp, Reply>,
    rows: Rows,
    turns: Seq<Turn<VerifyOtp>>,
    id: ObjectId,
    t: UtcTime,
    reply: Reply,
    after: Rows,
)
    requires
        call_ensures(verify_otp, (&headers, payload), start),
        runs(app, start, rows, turns, (reply, after)),
        unfailed(turns),
        forall|i: int| 0 <= i < turns.len() ==> (#[trigger] turns[i]).now.is_clock(),
        forall|i: ObjectId| #[trigger]
            rows.otps.dom().contains(i) ==> rows.otps[i].id == Some(i),
        turns[0].event is Allowed,
        turns[1].event is Allowed,
    ensures
        ({
            let otps = turns[2].event->Otps_0@;
            let right = otps.len() > 0 && bcrypt_matches(payload.otp@, otps.last().otp@) == Some(
                true,
            ) && (otps.last().expiresAt matches Some(e) && turns[2].now.before(e));
            &&& (reply.status == OK) == right
            &&& reply.status != OK ==> after == rows
            &&& reply.status == OK ==> {
                &&& after.otps.dom().contains(id) == (rows.otps.dom().contains(id)
                    && rows.otps[id].userId@ != payload.userId@)
                &&& after.otps.dom().contains(id) ==> after.otps[id] == rows.otps[id]
                &&& after == (Rows { otps: after.otps, ..rows })
                &&& reply.cookies is Nothing
                &&& reply.body matches Body::OtpVerified { reset_token } && purpose_owner(
                    reset_token@,
                    app.jwt_secret@,
                    "reset"@,
                    t,
                ) == if t.secs <= turns[3].now.secs + 900 {
                    Some(payload.userId@)
                } else {
                    None
                }
            }
        }),
{
    reveal_with_fuel(runs, 5);
    assert(turns.len() > 1 ==> turns.skip(1)[0] == turns[1]);
    assert(turns.len() > 2 ==> turns.skip(1).skip(1)[0] == turns[2]);
    assert(turns.len() > 3 ==> turns.skip(1).skip(1).skip(1)[0] == turns[3]);
    let list = turns[2].event->Otps_0@;
    lemma_ids(list);
    if reply.status == OK {
        let token = reply.body->reset_token@;
        crate::utils::crypto::law_purpose_token_lasts(
            token,
            app.jwt_secret@,
            payload.userId@,
            "reset"@,
            (turns[3].now.secs + crate::utils::crypto::RESET_TOKEN_SECS) as u64,
            t,
        );
        assert forall|i: ObjectId| #[trigger]
            rows.otps.dom().contains(i) && rows.otps[i].userId@ == payload.userId@ implies otp_ids(
            list,
        ).contains(i) by {
            assert(list.contains(rows.otps[i]));
            let k = choose|k: int| 0 <= k < list.len() && list[k] == rows.otps[i];
            assert(list[k].id is Some);
        }
        if list.len() == 1 {
            assert forall|i: ObjectId| #[trigger]
                rows.otps.dom().contains(i) && rows.otps[i].userId@ == payload.userId@ implies list[0]
                == rows.otps[i] by {
                assert(list.contains(rows.otps[i]));
            }
            let k = choose|k: ObjectId| #[trigger]
                rows.otps.dom().contains(k) && rows.otps[k] == list[0];
            assert(rows.otps.dom().contains(k));
            assert(list.last() == list[0]);
        }
    }
}

proof fn lemma_ids(otps: Seq<Otp>)
    ensures
        forall|i: int|
            0 <= i < otps.len() && (#[trigger] otps[i]).id is Some ==> otp_ids(otps).contains(
                otps[i].id->0,
            ),
    decreases otps.len(),
{
    if otps.len() > 0 {
        let past = otps.drop_last();
        let ids = otp_ids(otps);
        lemma_ids(past);
        assert forall|i: int| 0 <= i < otps.len() && (#[trigger] otps[i]).id is Some implies ids
            .contains(otps[i].id->0) by {
            if i < past.len() {
                assert(past[i] == otps[i]);
                let before = otp_ids(past);
                let k = choose|k: int| 0 <= k < before.len() && before[k] == otps[i].id->0;
                assert(ids[k] == before[k]);
            } else {
                assert(ids[ids.len() - 1] == otps[i].id->0);
            }
        }
    }
}

// ---------- second factors ----------

/// A code is that of a key at one of the half minutes around a time.
pub open spec fn is_shown(key: Seq<u8>, code: Seq<char>, now: UtcTime) -> bool {
    exists|c: int|
        now.secs / 30 - 1 <= c <= now.secs / 30 + 1 && code == #[trigger] totp_code(key, 6, c)
}

/// A second factor accepts the six digits that its key shows in the half minute
/// of the time, the one before and the one after, and no others.
pub proof fn law_second_factor_accepts_what_its_key_shows(
    key: Seq<u8>,
    code: Seq<char>,
    now: UtcTime,
)
    requires
        key.len() >= 16,
        now.is_clock(),
        now.secs >= 30,
    ensures
        tfa_verdict(base32_text(key), code, now) == Some(is_shown(key, code, now)),
{
    law_base32_reads_back(key);
    if is_shown(key, code, now) {
        let c = choose|c: int|
            now.secs / 30 - 1 <= c <= now.secs / 30 + 1 && code == #[trigger] totp_code(key, 6, c);
        assert(code == totp_code(key, crate::utils::totp::DIGITS, c));
    }
}

/// The accounts have at most one second factor each, stored under its
/// identifier.
pub open spec fn are_factors(rows: Rows) -> bool {
    &&& forall|id: ObjectId| #[trigger]
        rows.tfas.dom().contains(id) ==> rows.tfas[id].id == Some(id)
    &&& forall|i: ObjectId, j: ObjectId| #[trigger]
        rows.tfas.dom().contains(i) && #[trigger] rows.tfas.dom().contains(j)
            && rows.tfas[i].userId == rows.tfas[j].userId ==> i == j
}

/// An account without a second factor gets one: of a key of twenty bytes that is
/// drawn at random, stored with the account and not verified yet, with the
/// picture that shows it. The client is given the picture. An account that has
/// one is given its picture, and nothing is changed.
pub proof fn law_second_factor_is_enrolled(
    claims: crate::utils::crypto::Claims,
    payload: Gen2FAReq,
    app: AppState,
    start: Step<GenerateTfa, Reply>,
    rows: Rows,
    turns: Seq<Turn<GenerateTfa>>,
    old: ObjectId,
    reply: Reply,
    after: Rows,
)
    requires
        call_ensures(generate_2fa_qrcode, (&claims, payload), start),
        runs(app, start, rows, turns, (reply, after)),
        unfailed(turns),
        are_factors(rows),
        rows.users.dom().contains(object_id_of(payload.userId@)),
    ensures
        ({
            let uid = object_id_of(payload.userId@);
            let own = claims.sub@ == payload.userId@ && is_object_id(payload.userId@);
            let has = rows.tfas.dom().contains(old) && rows.tfas[old].userId == uid;
            let none = forall|id: ObjectId| #[trigger]
                rows.tfas.dom().contains(id) ==> rows.tfas[id].userId != uid;
            &&& !own ==> reply.status != OK && after == rows
            &&& own && has ==> reply.status == OK && after == rows && reply.body == Body::QrCode(
                rows.tfas[old].qrcode,
            )
            &&& own && none ==> exists|key: Seq<u8>| #[trigger]
                is_drawn_key(key) && key.len() == 20 && is_enrolled(key, uid, rows, reply, after)
        }),
{
    reveal_with_fuel(runs, 6);
    let uid = object_id_of(payload.userId@);
    assert(turns.len() > 1 ==> turns.skip(1)[0] == turns[1]);
    assert(turns.len() > 2 ==> turns.skip(1).skip(1)[0] == turns[2]);
    assert(turns.len() > 3 ==> turns.skip(1).skip(1).skip(1)[0] == turns[3]);
    if claims.sub@ == payload.userId@ && is_object_id(payload.userId@) {
        let list = turns[0].event->Tfas_0@;
        if rows.tfas.dom().contains(old) && rows.tfas[old].userId == uid {
            assert(list.contains(rows.tfas[old]));
            let k = choose|k: ObjectId| #[trigger]
                rows.tfas.dom().contains(k) && rows.tfas[k] == list[0];
            assert(rows.tfas.dom().contains(k));
        }
        if forall|id: ObjectId| #[trigger]
            rows.tfas.dom().contains(id) ==> rows.tfas[id].userId != uid {
            if list.len() > 0 {
                let k = choose|k: ObjectId| #[trigger]
                    rows.tfas.dom().contains(k) && rows.tfas[k] == list[0];
                assert(rows.tfas[k].userId == uid);
            }
            let key = choose|key: Seq<u8>|
                key.len() == 20 && is_drawn_key(key)
                    && #[trigger] crate::handlers::user::tfa::is_enrol_step(
                    turns[0].step,
                    uid,
                    key,
                );
            if qr_picture(otpauth_url(key, "Noap"@)) is Some {
                let made = turns[0].step->Ask_0->InsertTfa_0;
                let between = turns[1].rows;
                let id = choose|id: ObjectId|
                    !(#[trigger] rows.tfas.dom().contains(id)) && between.tfas == rows.tfas.insert(
                        id,
                        Tfa { id: Some(id), ..made },
                    );
                let row = Tfa { id: Some(id), ..made };
                assert(between.tfas[id] == row && between.tfas.dom().contains(id));
                let got = turns[2].event->Tfa_0;
                assert(got is Some) by {
                    if got is None {
                        assert(between.tfas[id].userId == uid);
                    }
                }
                let k = choose|k: ObjectId| #[trigger]
                    between.tfas.dom().contains(k) && between.tfas[k] == got->0;
                assert(k == id) by {
                    if k != id {
                        assert(rows.tfas.dom().contains(k));
                    }
                }
                assert(after.tfas[id] == row);
            }
            assert(is_enrolled(key, uid, rows, reply, after));
        }
    }
}

/// A key is the second factor of an account that had none, unless there is no
/// picture of it.
pub open spec fn is_enrolled(
    key: Seq<u8>,
    uid: ObjectId,
    rows: Rows,
    reply: Reply,
    after: Rows,
) -> bool {
    match qr_picture("otpauth://totp/"@ + "Noap"@ + ":?secret="@ + base32_text(key) + "&issuer="@
        + "Noap"@) {
        None => reply.status != OK && after == rows,
        Some(png) => {
            &&& reply.status == OK
            &&& reply.cookies is Nothing
            &&& reply.body matches Body::QrCode(picture) && picture@ == "data:image/png;base64,"@
                + crate::encoding::base64_text(png, false)
            &&& exists|id: ObjectId|
                #![trigger after.tfas[id]]
                {
                    let tfa = after.tfas[id];
                    &&& !rows.tfas.dom().contains(id)
                    &&& tfa.id == Some(id)
                    &&& tfa.userId == uid
                    &&& tfa.secret@ == base32_text(key)
                    &&& tfa.qrcode@ == reply.body->QrCode_0@
                    &&& tfa.options matches Some(o) && o.useToResetPass == Some(true)
                    &&& !tfa.verified
                    &&& after == (Rows {
                        tfas: rows.tfas.insert(id, tfa),
                        users: rows.users.insert(
                            uid,
                            User { tfa_status: Some(id), ..rows.users[uid] },
                        ),
                        ..rows
                    })
                }
        },
    }
}

/// A code that the second factor accepts marks it as verified; where the cookie
/// shows that the first factor of the same account was accepted, its user is
/// signed in, and the cookie cleared. Any other code changes nothing.
pub proof fn law_second_factor_is_verified(
    headers: Headers,
    payload: Verify2FAReq,
    app: AppState,
    start: Step<VerifyTfa, Reply>,
    rows: Rows,
    turns: Seq<Turn<VerifyTfa>>,
    id: ObjectId,
    reply: Reply,
    after: Rows,
)
    requires
        call_ensures(verify_2fa_code, (&headers, payload), start),
        runs(app, start, rows, turns, (reply, after)),
        unfailed(turns),
        are_factors(rows),
        rows.tfas.dom().contains(id),
        is_object_id(payload.userId@),
        rows.tfas[id].userId == object_id_of(payload.userId@),
        rows.users.dom().contains(object_id_of(payload.userId@)),
        turns[0].event is Allowed,
        turns[1].event is Allowed,
    ensures
        ({
            let uid = object_id_of(payload.userId@);
            let user = rows.users[uid];
            let right = tfa_verdict(rows.tfas[id].secret@, payload.tfa_code@, turns[2].now) == Some(
                true,
            );
            let pending = tfa_cookie(headers) matches Some(token) && purpose_owner(
                token,
                app.jwt_secret@,
                "tfa"@,
                turns[1].now,
            ) == Some(payload.userId@);
            let marked = rows.tfas.insert(id, Tfa { verified: true, ..rows.tfas[id] });
            let answer = if app.ipgeo_key@.len() > 0 && turns[5].event is Geo {
                turns[5].event->Geo_0
            } else {
                None
            };
            &&& (reply.status == OK) == right
            &&& reply.status != OK ==> after == rows
            &&& reply.status == OK ==> reply.body == Body::Message("Verified!")
            &&& reply.status == OK && !pending ==> reply.cookies is Nothing && after == (Rows {
                tfas: marked,
                ..rows
            })
            &&& reply.status == OK && pending ==> {
                &&& reply.cookies is Two
                &&& opens_session(
                    rows,
                    after,
                    reply,
                    uid,
                    user.name@,
                    user.googleAccount == Some(true),
                    match headers.user_agent {
                        Some(ua) => ua@,
                        None => "Unknown"@,
                    },
                    payload.identifier@,
                    answer,
                    app.jwt_secret@,
                    turns[turns.len() - 2].now,
                )
                &&& after == (Rows { tfas: marked, sessions: after.sessions, ..rows })
            }
        }),
{
    reveal_with_fuel(runs, 8);
    assert(turns.len() > 1 ==> turns.skip(1)[0] == turns[1]);
    assert(turns.len() > 2 ==> turns.skip(1).skip(1)[0] == turns[2]);
    assert(turns.len() > 3 ==> turns.skip(1).skip(1).skip(1)[0] == turns[3]);
    assert(turns.len() > 4 ==> turns.skip(1).skip(1).skip(1).skip(1)[0] == turns[4]);
    assert(turns.len() > 5 ==> turns.skip(1).skip(1).skip(1).skip(1).skip(1)[0] == turns[5]);
    assert(turns.len() > 6 ==> turns.skip(1).skip(1).skip(1).skip(1).skip(1).skip(1)[0]
        == turns[6]);
    let uid = object_id_of(payload.userId@);
    let user = rows.users[uid];
    let attempt = start->Ask_1->ClientLimit_attempt;
    let list = turns[2].event->Tfas_0@;
    assert(list.contains(rows.tfas[id]));
    let k = choose|k: ObjectId| #[trigger]
        rows.tfas.dom().contains(k) && rows.tfas[k] == list[0];
    assert(rows.tfas.dom().contains(k));
    assert(list[0] == rows.tfas[id]);
    let n = turns.len() as int;
    let answer = if app.ipgeo_key@.len() > 0 && turns[5].event is Geo {
        turns[5].event->Geo_0
    } else {
        None
    };
    if reply.status == OK && reply.cookies is Two {
        let made = turns[n - 2].step->Ask_0->InsertSession_0;
        lemma_opened(
            made,
            turns[3].rows,
            after,
            reply,
            uid,
            user.name@,
            user.googleAccount == Some(true),
            attempt.ua,
            payload.identifier,
            answer,
            app.jwt_secret@,
            turns[n - 2].now,
            reply.body,
            true,
        );
    }
}

/// Who is authorized removes the second factor of the account: it is stored no
/// more, and the account has none; nothing else is changed. Nobody else removes
/// it.
pub proof fn law_second_factor_is_removed(
    owner: Option<String>,
    payload: Remove2FAReq,
    app: AppState,
    began: UtcTime,
    rows: Rows,
    turns: Seq<Turn<RemoveTfa>>,
    id: ObjectId,
    reply: Reply,
    after: Rows,
)
    requires
        runs(app, remove_owned(owner, payload, app, began), rows, turns, (reply, after)),
        unfailed(turns),
        are_factors(rows),
        rows.tfas.dom().contains(id),
        rows.tfas[id].userId == object_id_of(payload.userId@),
        rows.users.dom().contains(object_id_of(payload.userId@)),
    ensures
        ({
            let uid = object_id_of(payload.userId@);
            let authorized = match owner {
                Some(o) => o@ == payload.userId@,
                None => payload.resetToken matches Some(t) && purpose_owner(
                    t@,
                    app.jwt_secret@,
                    "reset"@,
                    began,
                ) == Some(payload.userId@),
            };
            &&& (reply.status == OK) == (authorized && is_object_id(payload.userId@))
            &&& reply.status != OK ==> after == rows
            &&& reply.status == OK ==> reply == says(OK, "2FA removed successfuly!") && after == (
            Rows {
                tfas: rows.tfas.remove(id),
                users: rows.users.insert(uid, User { tfa_status: None, ..rows.users[uid] }),
                ..rows
            })
        }),
{
    reveal_with_fuel(runs, 6);
    assert(turns.len() > 1 ==> turns.skip(1)[0] == turns[1]);
    assert(turns.len() > 2 ==> turns.skip(1).skip(1)[0] == turns[2]);
    assert(turns.len() > 3 ==> turns.skip(1).skip(1).skip(1)[0] == turns[3]);
    let uid = object_id_of(payload.userId@);
    if turns.len() > 0 {
        let list = turns[0].event->Tfas_0@;
        assert(list.contains(rows.tfas[id]));
        let k = choose|k: ObjectId| #[trigger]
            rows.tfas.dom().contains(k) && rows.tfas[k] == list[0];
        assert(rows.tfas.dom().contains(k));
        if turns.len() > 3 {
            assert(after.users =~= rows.users.insert(
                uid,
                User { tfa_status: None, ..rows.users[uid] },
            ));
        }
    }
}

} // verus!
