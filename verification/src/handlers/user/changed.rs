//! What becomes of a stored account when its owner changes it.

use vstd::prelude::*;
#[allow(unused_imports)]
use vstd::string::*;

use crate::config::AppState;
#[allow(unused_imports)]
use crate::flow::{Action, Event, Step};
#[allow(unused_imports)]
use crate::handlers::session::current_token;
use crate::handlers::user::account::{ConvertGoogle, ConvertNormal, SignOut, VerifyPassword, VerifyToken};
#[allow(unused_imports)]
use crate::handlers::user::account::{convert_into_google, convert_into_normal, sign_out, verify_token, verify_user};
#[allow(unused_imports)]
use crate::handlers::user::kept::are_accounts;
use crate::handlers::user::recovery::ChangePassword;
#[allow(unused_imports)]
use crate::handlers::user::recovery::{change_owned, change_password, is_change_start};
use crate::handlers::user::settings::{ChangeSetting, LastOpened};
#[allow(unused_imports)]
use crate::handlers::user::settings::{change_global_bg, change_theme, change_visualization, last_opened_note, note_text_expanded, on_login_go_to_last, show_pinned_in_folder};
use crate::handlers::user::{ChangePassReq, ConditionReq, ConvertNormalReq, GlobalBgReq, LastOpenedReq, OnLoginReq, ThemeReq, VerifyTokenReq, VerifyUserReq, VisualizationReq};
use crate::http::{Headers, Reply};
#[allow(unused_imports)]
use crate::http::{says, Body, Cookie, Cookies, OK};
use crate::json::Json;
#[allow(unused_imports)]
use crate::json::{has_text_member, law_text_member_is_found};
#[allow(unused_imports)]
use crate::middleware::auth::{is_bearer_start, session_token, session_with, BearerSession};
#[allow(unused_imports)]
use crate::models::{Session, User, UserSettings};
#[allow(unused_imports)]
use crate::object_id::{hex_form, is_object_id, object_id_of, ObjectId};
#[allow(unused_imports)]
use crate::store::{runs, unfailed, Rows, Turn};
#[allow(unused_imports)]
use crate::text::byte_len;
use crate::time::UtcTime;
use crate::utils::crypto::Claims;
#[allow(unused_imports)]
use crate::utils::crypto::{bcrypt_matches, hash_failed, purpose_owner, token_claims, was_rejected, ClaimsView, TokenError};

verus! {

/// The text names an account, and the subject is its owner.
pub open spec fn is_own_account(rows: Rows, id: Seq<char>, sub: Seq<char>) -> bool {
    sub == id && is_object_id(id) && rows.users.dom().contains(object_id_of(id))
}

/// The settings of an account, ones in which nothing has been chosen where it
/// has none.
pub open spec fn settings_of(user: User) -> UserSettings {
    match user.settings {
        Some(s) => s,
        None => UserSettings {
            showPinnedNotesInFolder: None,
            noteTextExpanded: None,
            globalNoteBackgroundColor: None,
            onLoginGoToLastOpenedNote: None,
            noteVisualization: None,
            theme: None,
            language: None,
        },
    }
}

/// The account that a text names has these settings, and nothing else is
/// changed.
pub open spec fn has_settings(rows: Rows, id: Seq<char>, settings: UserSettings, after: Rows) -> bool {
    after == (Rows {
        users: rows.users.insert(
            object_id_of(id),
            User { settings: Some(settings), ..rows.users[object_id_of(id)] },
        ),
        ..rows
    })
}

/// A theme that was chosen is stored; the other settings are kept.
pub proof fn law_theme_is_stored(
    claims: Claims,
    id: &str,
    payload: ThemeReq,
    app: AppState,
    start: Step<ChangeSetting, Reply>,
    rows: Rows,
    turns: Seq<Turn<ChangeSetting>>,
    reply: Reply,
    after: Rows,
)
    requires
        call_ensures(change_theme, (&claims, id, payload), start),
        runs(app, start, rows, turns, (reply, after)),
    ensures
        reply.status == OK ==> is_own_account(rows, id@, claims.sub@) && reply == says(
            OK,
            "Updated!",
        ) && has_settings(
            rows,
            id@,
            (UserSettings { theme: Some(payload.theme), ..settings_of(rows.users[object_id_of(id@)]) }),
            after,
        ),
        reply.status != OK ==> after == rows,
        unfailed(turns) ==> (reply.status == OK) == is_own_account(rows, id@, claims.sub@),
{
    reveal_with_fuel(runs, 4);
}

/// Whether texts are expanded is stored; the other settings are kept.
pub proof fn law_expansion_is_stored(
    claims: Claims,
    id: &str,
    payload: ConditionReq,
    app: AppState,
    start: Step<ChangeSetting, Reply>,
    rows: Rows,
    turns: Seq<Turn<ChangeSetting>>,
    reply: Reply,
    after: Rows,
)
    requires
        call_ensures(note_text_expanded, (&claims, id, payload), start),
        runs(app, start, rows, turns, (reply, after)),
    ensures
        reply.status == OK ==> is_own_account(rows, id@, claims.sub@) && reply == says(
            OK,
            "Updated!",
        ) && has_settings(
            rows,
            id@,
            (UserSettings {
                noteTextExpanded: Some(payload.condition),
                ..settings_of(rows.users[object_id_of(id@)])
            }),
            after,
        ),
        reply.status != OK ==> after == rows,
        unfailed(turns) ==> (reply.status == OK) == is_own_account(rows, id@, claims.sub@),
{
    reveal_with_fuel(runs, 4);
}

/// Whether pinned notes are shown in the folder is stored; the other settings
/// are kept.
pub proof fn law_pinned_in_folder_is_stored(
    claims: Claims,
    id: &str,
    payload: ConditionReq,
    app: AppState,
    start: Step<ChangeSetting, Reply>,
    rows: Rows,
    turns: Seq<Turn<ChangeSetting>>,
    reply: Reply,
    after: Rows,
)
    requires
        call_ensures(show_pinned_in_folder, (&claims, id, payload), start),
        runs(app, start, rows, turns, (reply, after)),
    ensures
        reply.status == OK ==> is_own_account(rows, id@, claims.sub@) && reply == says(
            OK,
            "Updated!",
        ) && has_settings(
            rows,
            id@,
            (UserSettings {
                showPinnedNotesInFolder: Some(payload.condition),
                ..settings_of(rows.users[object_id_of(id@)])
            }),
            after,
        ),
        reply.status != OK ==> after == rows,
        unfailed(turns) ==> (reply.status == OK) == is_own_account(rows, id@, claims.sub@),
{
    reveal_with_fuel(runs, 4);
}

/// How notes are shown is stored; the other settings are kept.
pub proof fn law_visualization_is_stored(
    claims: Claims,
    id: &str,
    payload: VisualizationReq,
    app: AppState,
    start: Step<ChangeSetting, Reply>,
    rows: Rows,
    turns: Seq<Turn<ChangeSetting>>,
    reply: Reply,
    after: Rows,
)
    requires
        call_ensures(change_visualization, (&claims, id, payload), start),
        runs(app, start, rows, turns, (reply, after)),
    ensures
        reply.status == OK ==> is_own_account(rows, id@, claims.sub@) && reply == says(
            OK,
            "Updated!",
        ) && has_settings(
            rows,
            id@,
            (UserSettings {
                noteVisualization: Some(payload.visualization),
                ..settings_of(rows.users[object_id_of(id@)])
            }),
            after,
        ),
        reply.status != OK ==> after == rows,
        unfailed(turns) ==> (reply.status == OK) == is_own_account(rows, id@, claims.sub@),
{
    reveal_with_fuel(runs, 4);
}

/// Whether signing in goes to the note that was opened last is stored; the other
/// settings are kept.
pub proof fn law_go_to_last_is_stored(
    claims: Claims,
    id: &str,
    payload: OnLoginReq,
    app: AppState,
    start: Step<ChangeSetting, Reply>,
    rows: Rows,
    turns: Seq<Turn<ChangeSetting>>,
    reply: Reply,
    after: Rows,
)
    requires
        call_ensures(on_login_go_to_last, (&claims, id, payload), start),
        runs(app, start, rows, turns, (reply, after)),
    ensures
        reply.status == OK ==> is_own_account(rows, id@, claims.sub@) && reply == says(
            OK,
            "Updated!",
        ) && has_settings(
            rows,
            id@,
            (UserSettings {
                onLoginGoToLastOpenedNote: Some(payload.onLoginGoToLastOpenedNote),
                ..settings_of(rows.users[object_id_of(id@)])
            }),
            after,
        ),
        reply.status != OK ==> after == rows,
        unfailed(turns) ==> (reply.status == OK) == is_own_account(rows, id@, claims.sub@),
{
    reveal_with_fuel(runs, 4);
}

/// The background of all notes is stored; the other settings are kept.
pub proof fn law_global_background_is_stored(
    claims: Claims,
    id: &str,
    payload: GlobalBgReq,
    app: AppState,
    start: Step<ChangeSetting, Reply>,
    rows: Rows,
    turns: Seq<Turn<ChangeSetting>>,
    reply: Reply,
    after: Rows,
)
    requires
        call_ensures(change_global_bg, (&claims, id, payload), start),
        runs(app, start, rows, turns, (reply, after)),
    ensures
        reply.status == OK ==> is_own_account(rows, id@, claims.sub@) && reply == says(
            OK,
            "Updated!",
        ) && has_settings(
            rows,
            id@,
            (UserSettings {
                globalNoteBackgroundColor: Some(payload.globalNoteBackgroundColor),
                ..settings_of(rows.users[object_id_of(id@)])
            }),
            after,
        ),
        reply.status != OK ==> after == rows,
        unfailed(turns) ==> (reply.status == OK) == is_own_account(rows, id@, claims.sub@),
{
    reveal_with_fuel(runs, 4);
}

/// The note that was opened last is stored with the account, and nothing else is
/// changed.
pub proof fn law_last_opened_note_is_stored(
    claims: Claims,
    id: &str,
    payload: LastOpenedReq,
    app: AppState,
    start: Step<LastOpened, Reply>,
    rows: Rows,
    turns: Seq<Turn<LastOpened>>,
    reply: Reply,
    after: Rows,
)
    requires
        call_ensures(last_opened_note, (&claims, id, payload), start),
        runs(app, start, rows, turns, (reply, after)),
        is_object_id(payload.lastOpenedNote@),
    ensures
        reply.status == OK ==> claims.sub@ == id@ && reply == says(OK, "Updated!") && after
            == if rows.users.dom().contains(object_id_of(id@)) {
            Rows {
                users: rows.users.insert(
                    object_id_of(id@),
                    User {
                        lastOpenedNote: Some(object_id_of(payload.lastOpenedNote@)),
                        ..rows.users[object_id_of(id@)]
                    },
                ),
                ..rows
            }
        } else {
            rows
        },
        reply.status != OK ==> after == rows,
        unfailed(turns) ==> (reply.status == OK) == (claims.sub@ == id@ && is_object_id(id@)),
{
    reveal_with_fuel(runs, 3);
}

/// The owner of an account is let on with its password, and with no other. No
/// row is changed.
pub proof fn law_password_is_checked_again(
    claims: Claims,
    payload: VerifyUserReq,
    app: AppState,
    start: Step<VerifyPassword, Reply>,
    rows: Rows,
    turns: Seq<Turn<VerifyPassword>>,
    reply: Reply,
    after: Rows,
)
    requires
        call_ensures(verify_user, (&claims, payload), start),
        runs(app, start, rows, turns, (reply, after)),
    ensures
        after == rows,
        reply.status == OK ==> reply == says(OK, "Authenticated"),
        reply.status == OK ==> is_own_account(rows, payload._id@, claims.sub@),
        unfailed(turns) ==> (reply.status == OK) == (is_own_account(
            rows,
            payload._id@,
            claims.sub@,
        ) && (match rows.users[object_id_of(payload._id@)].password {
            Some(hash) => bcrypt_matches(payload.password@, hash@),
            None => bcrypt_matches(payload.password@, Seq::empty()),
        }) == Some(true)),
{
    reveal_with_fuel(runs, 3);
}

/// Who signs out has the session of the request deleted, and no other, and the
/// cookies cleared, whether there was a session or not.
pub proof fn law_signing_out_ends_the_session(
    claims: Claims,
    headers: Headers,
    id: ObjectId,
    app: AppState,
    start: Step<SignOut, Reply>,
    rows: Rows,
    turns: Seq<Turn<SignOut>>,
    reply: Reply,
    after: Rows,
)
    requires
        call_ensures(sign_out, (&claims, &headers), start),
        runs(app, start, rows, turns, (reply, after)),
    ensures
        (reply.status == OK) == is_object_id(claims.sub@),
        reply.status == OK ==> reply.cookies == Cookies::Two(Cookie::ClearSession, Cookie::ClearTfa),
        unfailed(turns) && reply.status == OK ==> {
            let token = current_token(headers);
            &&& after.sessions.dom().contains(id) == (rows.sessions.dom().contains(id) && !(
            rows.sessions[id].userId == object_id_of(claims.sub@) && token == Some(
                rows.sessions[id].token@,
            )))
            &&& after.sessions.dom().contains(id) ==> after.sessions[id] == rows.sessions[id]
            &&& after == (Rows { sessions: after.sessions, ..rows })
        },
        reply.status != OK ==> after == rows,
{
    reveal_with_fuel(runs, 3);
}

/// An account that was given a password has a hash that the password matches and
/// is no Google account; nothing else is changed. The owner gets it with a
/// password of 6 to 128 bytes, unless the database failed or hashing did.
pub proof fn law_first_password_is_stored(
    claims: Claims,
    payload: ConvertNormalReq,
    app: AppState,
    start: Step<ConvertNormal, Reply>,
    rows: Rows,
    turns: Seq<Turn<ConvertNormal>>,
    reply: Reply,
    after: Rows,
)
    requires
        call_ensures(convert_into_normal, (&claims, payload), start),
        runs(app, start, rows, turns, (reply, after)),
    ensures
        ({
            let id = object_id_of(payload.id@);
            let may = is_own_account(rows, payload.id@, claims.sub@) && 6 <= byte_len(
                payload.password@,
            ) <= 128;
            &&& reply.status == OK ==> {
                let hash = after.users[id].password;
                &&& may
                &&& reply == says(OK, "Account was converted, please sign in again!")
                &&& hash matches Some(h) && bcrypt_matches(payload.password@, h@) == Some(true)
                &&& after == (Rows {
                    users: rows.users.insert(
                        id,
                        User { password: hash, googleAccount: Some(false), ..rows.users[id] },
                    ),
                    ..rows
                })
            }
            &&& reply.status != OK ==> after == rows
            &&& unfailed(turns) && may ==> reply.status == OK || hash_failed(payload.password@)
        }),
{
    reveal_with_fuel(runs, 4);
}

/// An account that was linked to Google has the Google account, the name and the
/// email of the request, and no password; nothing else is changed. The owner
/// links it unless the database failed, or an account with a password and
/// another email than the owner's has the new email.
pub proof fn law_google_link_is_stored(
    claims: Claims,
    payload: &Json,
    id: Seq<char>,
    email: Seq<char>,
    name: Seq<char>,
    google_id: Seq<char>,
    app: AppState,
    start: Step<ConvertGoogle, Reply>,
    rows: Rows,
    turns: Seq<Turn<ConvertGoogle>>,
    reply: Reply,
    after: Rows,
)
    requires
        call_ensures(convert_into_google, (&claims, payload), start),
        runs(app, start, rows, turns, (reply, after)),
        has_text_member(payload@, "_id"@, id),
        has_text_member(payload@, "email"@, email),
        has_text_member(payload@, "name"@, name),
        has_text_member(payload@, "id"@, google_id),
        are_accounts(rows),
    ensures
        ({
            let uid = object_id_of(id);
            let user = after.users[uid];
            let taken = exists|other: ObjectId| #[trigger]
                rows.users.dom().contains(other) && rows.users[other].email@ == email
                    && rows.users[other].googleAccount != Some(true) && rows.users[other].email@
                    != rows.users[uid].email@;
            &&& reply.status == OK ==> {
                &&& is_own_account(rows, id, claims.sub@)
                &&& reply == says(OK, "Google account was linked, please sign in again!")
                &&& user.googleId matches Some(g) && g@ == google_id
                &&& user.name@ == name
                &&& user.email@ == email
                &&& after == (Rows {
                    users: rows.users.insert(
                        uid,
                        User {
                            password: None,
                            googleAccount: Some(true),
                            googleId: user.googleId,
                            name: user.name,
                            email: user.email,
                            ..rows.users[uid]
                        },
                    ),
                    ..rows
                })
            }
            &&& reply.status != OK ==> after == rows
            &&& unfailed(turns) ==> (reply.status == OK) == (is_own_account(rows, id, claims.sub@)
                && !taken)
        }),
{
    reveal_with_fuel(runs, 5);
    law_text_member_is_found(payload@, "_id"@, id);
    law_text_member_is_found(payload@, "email"@, email);
    law_text_member_is_found(payload@, "name"@, name);
    law_text_member_is_found(payload@, "id"@, google_id);
    assert(turns.len() > 1 ==> turns.skip(1)[0] == turns[1]);
    assert(turns.len() > 2 ==> turns.skip(1).skip(1)[0] == turns[2]);
    if is_own_account(rows, id, claims.sub@) && turns.len() > 1 {
        if let Event::User(Some(other)) = turns[1].event {
            let i = choose|i: ObjectId| #[trigger]
                rows.users.dom().contains(i) && rows.users[i] == other;
            assert(rows.users.dom().contains(i));
        }
    }
}

/// A password that was changed is stored by a hash that it matches; nothing else
/// is changed. Who is authorized changes it to one of 6 to 128 bytes, unless the
/// database failed or hashing did; nobody else does.
pub proof fn law_new_password_is_stored(
    owner: Option<String>,
    payload: ChangePassReq,
    app: AppState,
    began: UtcTime,
    rows: Rows,
    turns: Seq<Turn<ChangePassword>>,
    reply: Reply,
    after: Rows,
)
    requires
        runs(app, change_owned(owner, payload, app, began), rows, turns, (reply, after)),
    ensures
        ({
            let id = object_id_of(payload.userId@);
            let authorized = match owner {
                Some(o) => o@ == payload.userId@,
                None => payload.resetToken matches Some(t) && purpose_owner(
                    t@,
                    app.jwt_secret@,
                    "reset"@,
                    began,
                ) == Some(payload.userId@),
            };
            let may = authorized && is_object_id(payload.userId@) && rows.users.dom().contains(id)
                && 6 <= byte_len(payload.password@) <= 128;
            &&& reply.status == OK ==> {
                let hash = after.users[id].password;
                &&& may
                &&& reply == says(OK, "Password changed!")
                &&& hash matches Some(h) && bcrypt_matches(payload.password@, h@) == Some(true)
                &&& after == (Rows {
                    users: rows.users.insert(id, User { password: hash, ..rows.users[id] }),
                    ..rows
                })
            }
            &&& reply.status != OK ==> after == rows
            &&& unfailed(turns) && may ==> reply.status == OK || hash_failed(payload.password@)
        }),
{
    reveal_with_fuel(runs, 4);
}

/// A request has no token of a session.
pub open spec fn has_no_token(headers: Headers) -> bool {
    headers.authorization is None && headers.cookie is None
}

/// A request has the token of a session that is stored for `sub` and has not
/// expired, and no other session has the token.
pub open spec fn has_session(
    headers: Headers,
    rows: Rows,
    sub: Seq<char>,
    secret: Seq<char>,
    began: UtcTime,
    now: UtcTime,
) -> bool {
    &&& session_token(headers) matches Some((token, _))
    &&& token_claims(token, secret) matches Ok(c)
    &&& c.sub == sub
    &&& c.exp >= began.secs
    &&& !was_rejected(token, secret)
    &&& exists|id: ObjectId| #[trigger]
        rows.sessions.dom().contains(id) && rows.sessions[id].token@ == token
    &&& forall|id: ObjectId| #[trigger]
        rows.sessions.dom().contains(id) && rows.sessions[id].token@ == token ==> hex_form(
            rows.sessions[id].userId@,
        ) == sub && rows.sessions[id].expAt >= now.secs
}

/// What a request for a new password comes to, for a caller who is authorized or
/// is not.
pub open spec fn password_changes(
    payload: ChangePassReq,
    authorized: bool,
    rows: Rows,
    answered: bool,
    reply: Reply,
    after: Rows,
) -> bool {
    let id = object_id_of(payload.userId@);
    let may = authorized && is_object_id(payload.userId@) && rows.users.dom().contains(id) && 6
        <= byte_len(payload.password@) <= 128;
    &&& reply.status == OK ==> {
        let hash = after.users[id].password;
        &&& may
        &&& reply == says(OK, "Password changed!")
        &&& hash matches Some(h) && bcrypt_matches(payload.password@, h@) == Some(true)
        &&& after == (Rows {
            users: rows.users.insert(id, User { password: hash, ..rows.users[id] }),
            ..rows
        })
    }
    &&& reply.status != OK ==> after == rows
    &&& answered && may ==> reply.status == OK || hash_failed(payload.password@)
}

/// Without a session a password is changed for whom a reset token proves the
/// ownership of the account, and for nobody else.
pub proof fn law_reset_token_changes_the_password(
    headers: Headers,
    payload: ChangePassReq,
    app: AppState,
    began: UtcTime,
    start: Step<ChangePassword, Reply>,
    rows: Rows,
    turns: Seq<Turn<ChangePassword>>,
    reply: Reply,
    after: Rows,
)
    requires
        call_ensures(change_password, (&headers, payload, &app, began), start),
        runs(app, start, rows, turns, (reply, after)),
        has_no_token(headers),
    ensures
        password_changes(
            payload,
            payload.resetToken matches Some(t) && purpose_owner(
                t@,
                app.jwt_secret@,
                "reset"@,
                began,
            ) == Some(payload.userId@),
            rows,
            unfailed(turns),
            reply,
            after,
        ),
{
    law_new_password_is_stored(None, payload, app, began, rows, turns, reply, after);
}

/// With a live session a password is changed for the account of the session, and
/// for no other.
pub proof fn law_session_changes_the_password(
    headers: Headers,
    payload: ChangePassReq,
    sub: Seq<char>,
    app: AppState,
    began: UtcTime,
    start: Step<ChangePassword, Reply>,
    rows: Rows,
    turns: Seq<Turn<ChangePassword>>,
    reply: Reply,
    after: Rows,
)
    requires
        call_ensures(change_password, (&headers, payload, &app, began), start),
        runs(app, start, rows, turns, (reply, after)),
        unfailed(turns),
        has_session(headers, rows, sub, app.jwt_secret@, began, turns[0].now),
    ensures
        password_changes(payload, sub == payload.userId@, rows, true, reply, after),
{
    let lookup = choose|s: Step<BearerSession, Option<String>>|
        is_bearer_start(s, headers, app.jwt_secret@, began) && #[trigger] is_change_start(
            start,
            s,
            payload,
            app,
            began,
        );
    let token = current_token(headers)->0;
    assert(lookup matches Step::Ask(Action::SessionByToken(t), BearerSession { sub: s }) && t@
        == token && s@ == sub);
    let t = turns[0];
    let id = choose|id: ObjectId| #[trigger]
        rows.sessions.dom().contains(id) && rows.sessions[id].token@ == token;
    assert(t.event matches Event::Session(Some(_)));
    let row = t.event->Session_0->0;
    let k = choose|k: ObjectId| #[trigger]
        rows.sessions.dom().contains(k) && rows.sessions[k] == row;
    assert(rows.sessions.dom().contains(k));
    let owner = Some(lookup->Ask_1.sub);
    assert(t.step == change_owned(owner, payload, app, t.now));
    assert forall|i: int| 0 <= i < turns.skip(1).len() implies !((
    #[trigger] turns.skip(1)[i]).event is Failed) by {
        assert(turns.skip(1)[i] == turns[i + 1]);
    }
    law_new_password_is_stored(
        owner,
        payload,
        app,
        t.now,
        t.rows,
        turns.skip(1),
        reply,
        after,
    );
}

/// Who presents the token of a session that is stored for their account and has
/// not expired is told whose it is, and by what name and settings; nothing is
/// changed where the token came with a header or a cookie. Nobody else is told
/// anything.
pub proof fn law_token_is_confirmed(
    headers: Headers,
    body: Option<VerifyTokenReq>,
    app: AppState,
    began: UtcTime,
    start: Step<VerifyToken, Reply>,
    rows: Rows,
    turns: Seq<Turn<VerifyToken>>,
    claims: ClaimsView,
    reply: Reply,
    after: Rows,
)
    requires
        call_ensures(verify_token, (&headers, body, &app, began), start),
        runs(app, start, rows, turns, (reply, after)),
        unfailed(turns),
        session_token(headers) is Some,
        token_claims(current_token(headers)->0, app.jwt_secret@) == Ok::<ClaimsView, TokenError>(
            claims,
        ),
        claims.user is Some,
        forall|i: ObjectId, j: ObjectId| #[trigger]
            rows.sessions.dom().contains(i) && #[trigger] rows.sessions.dom().contains(j)
                && rows.sessions[i].token@ == rows.sessions[j].token@ ==> i == j,
    ensures
        ({
            let token = current_token(headers)->0;
            let uid = object_id_of(claims.sub);
            let user = rows.users[uid];
            let live = claims.exp >= began.secs && is_object_id(claims.sub)
                && rows.users.dom().contains(uid) && exists|id: ObjectId| #[trigger]
                rows.sessions.dom().contains(id) && rows.sessions[id].userId == uid
                    && rows.sessions[id].token@ == token && rows.sessions[id].expAt
                    >= turns[1].now.secs;
            &&& after == rows
            &&& (reply.status == OK) == live
            &&& reply.status == OK ==> {
                &&& reply.cookies is Nothing
                &&& reply.body matches Body::TokenVerified {
                    sub,
                    name,
                    google_account,
                    tfa_enabled,
                    user_settings,
                }
                &&& sub@ == claims.user->0._id
                &&& claims.user->0.name.len() > 0 ==> name@ == claims.user->0.name
                &&& claims.user->0.name.len() == 0 ==> name@ == user.name@
                &&& google_account == claims.user->0.googleAccount
                &&& tfa_enabled == (user.tfa_status is Some)
                &&& user_settings == settings_of(user)
            }
        }),
{
    reveal_with_fuel(runs, 4);
    let token = current_token(headers)->0;
    let uid = object_id_of(claims.sub);
    assert(turns.len() > 1 ==> turns.skip(1)[0] == turns[1]);
    if turns.len() > 1 {
        if let Event::Sessions(sessions) = turns[1].event {
            crate::middleware::auth::lemma_session_with(sessions@, token);
            if session_with(sessions@, token) is Some {
                let s = session_with(sessions@, token)->0;
                let i = choose|i: int| 0 <= i < sessions@.len() && sessions@[i] == s;
                let id = choose|id: ObjectId| #[trigger]
                    rows.sessions.dom().contains(id) && rows.sessions[id] == sessions@[i];
                assert(rows.sessions.dom().contains(id));
            }
            assert forall|id: ObjectId| #[trigger]
                rows.sessions.dom().contains(id) && rows.sessions[id].userId == uid
                    && rows.sessions[id].token@ == token implies session_with(sessions@, token)
                == Some(rows.sessions[id]) by {
                assert(sessions@.contains(rows.sessions[id]));
                let k = choose|k: int| 0 <= k < sessions@.len() && sessions@[k] == rows.sessions[id];
                lemma_found(sessions@, token, k);
                let s = session_with(sessions@, token)->0;
                let i = choose|i: int| 0 <= i < sessions@.len() && sessions@[i] == s;
                let j = choose|j: ObjectId| #[trigger]
                    rows.sessions.dom().contains(j) && rows.sessions[j] == sessions@[i];
                assert(rows.sessions[j].token@ == token);
            }
        }
    }
}

proof fn lemma_found(sessions: Seq<Session>, token: Seq<char>, k: int)
    requires
        0 <= k < sessions.len(),
        sessions[k].token@ == token,
    ensures
        session_with(sessions, token) matches Some(s) && s.token@ == token && sessions.contains(s),
    decreases sessions.len(),
{
    if sessions[0].token@ == token {
        assert(sessions.contains(sessions[0]));
    } else {
        let rest = sessions.skip(1);
        assert(rest[k - 1] == sessions[k]);
        lemma_found(rest, token, k - 1);
        let s = session_with(rest, token)->0;
        let i = choose|i: int| 0 <= i < rest.len() && rest[i] == s;
        assert(sessions[i + 1] == s);
    }
}

} // verus!
