//! Nobody reads or changes what belongs to somebody else.

use vstd::prelude::*;

use crate::config::AppState;
#[allow(unused_imports)]
use crate::flow::{Event, Flow, Step};
#[allow(unused_imports)]
use crate::handlers::activity::{ensure_note_owned, owned_activity, ActivityFlow};
#[allow(unused_imports)]
use crate::handlers::label::{ChangeLabel, ViewLabels, ViewQuery};
#[allow(unused_imports)]
use crate::handlers::note::pages::{NotesQuery, ViewNotes};
#[allow(unused_imports)]
use crate::handlers::note::{owned_note, AddNote, GetNote};
#[allow(unused_imports)]
use crate::handlers::push::{PushFlow, SubscribeReq};
#[allow(unused_imports)]
use crate::handlers::session::SessionFlow;
#[allow(unused_imports)]
use crate::handlers::user::account::{convert_into_normal, verify_user, ConvertNormal, VerifyPassword};
#[allow(unused_imports)]
use crate::handlers::user::settings::{change_global_bg, change_theme, change_visualization, last_opened_note, note_text_expanded, on_login_go_to_last, show_pinned_in_folder, ChangeSetting, LastOpened};
#[allow(unused_imports)]
use crate::handlers::user::tfa::{generate_2fa_qrcode, GenerateTfa};
#[allow(unused_imports)]
use crate::handlers::user::{ConditionReq, ConvertNormalReq, Gen2FAReq, GlobalBgReq, LastOpenedReq, OnLoginReq, ThemeReq, VerifyUserReq, VisualizationReq};
use crate::http::Headers;
#[allow(unused_imports)]
use crate::http::{Reply, FORBIDDEN};
use crate::json::Json;
#[allow(unused_imports)]
use crate::models::{Activity, Label, Note};
#[allow(unused_imports)]
use crate::object_id::hex_form;
use crate::time::UtcTime;
use crate::utils::crypto::Claims;

verus! {

/// The caller is refused at once: nothing is read or written.
pub open spec fn refuses<S>(r: Step<S, Reply>) -> bool {
    r matches Step::Done(reply) && reply.status == FORBIDDEN && reply.cookies is Nothing
}

/// The notes of an author are listed, read and added by the author alone.
pub proof fn law_notes_are_private(
    claims: Claims,
    page: &str,
    id: &str,
    author: String,
    query: NotesQuery,
    payload: crate::handlers::note::AddReq,
    now: UtcTime,
    listed: Step<ViewNotes, Reply>,
    read: Step<GetNote, Reply>,
    added: Step<AddNote, Reply>,
)
    requires
        claims.sub@ != author@,
        payload.author == author,
        call_ensures(crate::handlers::note::pages::view, (&claims, page, author, query), listed),
        call_ensures(crate::handlers::note::get_note, (&claims, id, Some(author)), read),
        call_ensures(crate::handlers::note::add, (&claims, payload, now), added),
    ensures
        refuses(listed),
        refuses(read),
        refuses(added),
{
}

/// The labels and the activities of a user are listed and added by the user
/// alone.
pub proof fn law_labels_and_activities_are_private(
    claims: Claims,
    id: &str,
    user: String,
    query: ViewQuery,
    label: Json,
    activity: crate::handlers::activity::AddReq,
    now: UtcTime,
    labels: Step<ViewLabels, Reply>,
    new_label: Step<ChangeLabel, Reply>,
    activities: Step<ActivityFlow, Reply>,
    new_activity: Step<ActivityFlow, Reply>,
)
    requires
        id@ == user@,
        claims.sub@ != user@,
        call_ensures(crate::handlers::label::view, (&claims, id, query), labels),
        call_ensures(crate::handlers::label::add, (&claims, id, &label, now), new_label),
        call_ensures(crate::handlers::activity::view, (&claims, user), activities),
        call_ensures(crate::handlers::activity::add, (&claims, id, activity, now), new_activity),
    ensures
        refuses(labels),
        refuses(new_label),
        refuses(activities),
        refuses(new_activity),
{
}

/// The devices and the sessions of a user are listed, added and ended by the
/// user alone.
pub proof fn law_devices_and_sessions_are_private(
    claims: Claims,
    headers: Headers,
    app: AppState,
    id: &str,
    user: String,
    device: SubscribeReq,
    endpoint: Json,
    session: &str,
    now: UtcTime,
    devices: (Step<PushFlow, Reply>, Step<PushFlow, Reply>, Step<PushFlow, Reply>),
    sessions: (Step<SessionFlow, Reply>, Step<SessionFlow, Reply>, Step<SessionFlow, Reply>),
)
    requires
        id@ == user@,
        claims.sub@ != user@,
        call_ensures(crate::handlers::push::subscribe, (&claims, &app, id, device, now), devices.0),
        call_ensures(crate::handlers::push::unsubscribe, (&claims, id, &endpoint), devices.1),
        call_ensures(crate::handlers::push::list, (&claims, id), devices.2),
        call_ensures(crate::handlers::session::view, (&claims, &headers, user), sessions.0),
        call_ensures(crate::handlers::session::delete_one, (&claims, user, session), sessions.1),
        call_ensures(crate::handlers::session::delete_all, (&claims, user), sessions.2),
    ensures
        refuses(devices.0),
        refuses(devices.1),
        refuses(devices.2),
        refuses(sessions.0),
        refuses(sessions.1),
        refuses(sessions.2),
{
}

/// The settings of a user are changed by the user alone.
pub proof fn law_settings_are_private(
    claims: Claims,
    id: &str,
    theme: ThemeReq,
    condition: ConditionReq,
    visualization: VisualizationReq,
    login: OnLoginReq,
    color: GlobalBgReq,
    last: LastOpenedReq,
    first: (Step<ChangeSetting, Reply>, Step<ChangeSetting, Reply>, Step<ChangeSetting, Reply>),
    more: (Step<ChangeSetting, Reply>, Step<ChangeSetting, Reply>, Step<ChangeSetting, Reply>),
    opened: Step<LastOpened, Reply>,
)
    requires
        claims.sub@ != id@,
        call_ensures(change_theme, (&claims, id, theme), first.0),
        call_ensures(note_text_expanded, (&claims, id, condition), first.1),
        call_ensures(show_pinned_in_folder, (&claims, id, condition), first.2),
        call_ensures(change_visualization, (&claims, id, visualization), more.0),
        call_ensures(on_login_go_to_last, (&claims, id, login), more.1),
        call_ensures(change_global_bg, (&claims, id, color), more.2),
        call_ensures(last_opened_note, (&claims, id, last), opened),
    ensures
        refuses(first.0),
        refuses(first.1),
        refuses(first.2),
        refuses(more.0),
        refuses(more.1),
        refuses(more.2),
        refuses(opened),
{
}

/// A second factor is enrolled, a password given again and a first password set
/// by the user alone.
pub proof fn law_account_is_private(
    claims: Claims,
    enrol: Gen2FAReq,
    check: VerifyUserReq,
    convert: ConvertNormalReq,
    factor: Step<GenerateTfa, Reply>,
    checked: Step<VerifyPassword, Reply>,
    converted: Step<ConvertNormal, Reply>,
)
    requires
        claims.sub@ != enrol.userId@,
        claims.sub@ != check._id@,
        claims.sub@ != convert.id@,
        call_ensures(generate_2fa_qrcode, (&claims, enrol), factor),
        call_ensures(verify_user, (&claims, check), checked),
        call_ensures(convert_into_normal, (&claims, convert), converted),
    ensures
        refuses(factor),
        refuses(checked),
        refuses(converted),
{
}

/// A row that was looked up is taken where it is the subject's own; that of
/// somebody else is forbidden, and one that is missing is not found.
pub proof fn law_rows_are_taken_by_their_owner(
    sub: &str,
    note: Note,
    activity: Activity,
    notes: (Result<Note, Reply>, Result<Note, Reply>),
    activities: (Result<Activity, Reply>, Result<Activity, Reply>),
    links: (Result<(), Reply>, Result<(), Reply>),
)
    requires
        call_ensures(owned_note, (Event::Note(Some(note)), sub), notes.0),
        call_ensures(owned_note, (Event::Note(None), sub), notes.1),
        call_ensures(owned_activity, (Event::Activity(Some(activity)), sub), activities.0),
        call_ensures(owned_activity, (Event::Activity(None), sub), activities.1),
        call_ensures(ensure_note_owned, (Event::Note(Some(note)), sub), links.0),
        call_ensures(ensure_note_owned, (Event::Note(None), sub), links.1),
    ensures
        note.author@ == sub@ ==> notes.0 == Ok::<Note, Reply>(note) && links.0 is Ok,
        note.author@ != sub@ ==> (notes.0 matches Err(e) && e.status == 403) && (links.0 matches
            Err(e) && e.status == 403),
        notes.1 matches Err(e) && e.status == 404,
        links.1 matches Err(e) && e.status == 404,
        hex_form(activity.userId@) == sub@ ==> activities.0 == Ok::<Activity, Reply>(activity),
        hex_form(activity.userId@) != sub@ ==> (activities.0 matches Err(e) && e.status == 403),
        activities.1 matches Err(e) && e.status == 404,
{
}

/// A label is changed and deleted by its owner; that of somebody else is
/// forbidden, and one that is missing is not found.
pub proof fn law_labels_are_changed_by_their_owner(
    state: ChangeLabel,
    sub: String,
    app: AppState,
    now: UtcTime,
    label: Label,
    found: Step<ChangeLabel, Reply>,
    missing: Step<ChangeLabel, Reply>,
)
    requires
        (state matches ChangeLabel::LoadEdit { sub: s, .. } && s == sub) || (state matches
            ChangeLabel::LoadDelete { sub: s, .. } && s == sub),
        call_ensures(
            <ChangeLabel as Flow>::resume,
            (state, &app, Event::Label(Some(label)), now),
            found,
        ),
        call_ensures(<ChangeLabel as Flow>::resume, (state, &app, Event::Label(None), now), missing),
    ensures
        hex_form(label.userId@) == sub@ ==> found is Ask,
        hex_form(label.userId@) != sub@ ==> refuses(found),
        missing matches Step::Done(reply) && reply.status == 404,
{
}

} // verus!
