//! What a caller is told.

use vstd::prelude::*;
#[allow(unused_imports)]
use vstd::seq_lib::lemma_seq_contains_after_push;

#[allow(unused_imports)]
use crate::content::{Content, ContentView, Shown};
#[allow(unused_imports)]
use crate::http::{Body, Device, NotePage, PasskeyEntry, Progress, SessionEntry};
#[allow(unused_imports)]
use crate::models::{Activity, Label, Note, NoteState, PaginateResponse, UserSettings};
#[allow(unused_imports)]
use crate::object_id::{hex_form, ObjectId};
#[allow(unused_imports)]
use crate::time::{is_representable, rfc3339_form, UtcTime};

verus! {

/// A record has a member `key` that is `value`.
pub open spec fn tells(v: ContentView, key: Seq<char>, value: ContentView) -> bool {
    v matches ContentView::Record(all) && all.contains((key, value))
}

/// A record has a member `key` with this text.
pub open spec fn tells_text(v: ContentView, key: Seq<char>, text: Seq<char>) -> bool {
    tells(v, key, ContentView::Text(text))
}

/// A record has a member `key` with this text, or null where there is none.
pub open spec fn tells_any(v: ContentView, key: Seq<char>, text: Option<String>) -> bool {
    match text {
        Some(s) => tells_text(v, key, s@),
        None => tells(v, key, ContentView::Null),
    }
}

/// A record has a member `key` that is true or false, or null.
pub open spec fn tells_flag(v: ContentView, key: Seq<char>, flag: Option<bool>) -> bool {
    match flag {
        Some(b) => tells(v, key, ContentView::Bool(b)),
        None => tells(v, key, ContentView::Null),
    }
}

/// A record has a member `key` with this number.
pub open spec fn tells_number(v: ContentView, key: Seq<char>, n: int) -> bool {
    tells(v, key, ContentView::Int(n))
}

/// A list of these texts.
pub open spec fn texts(v: Seq<String>) -> ContentView {
    ContentView::List(Seq::new(v.len(), |i: int| ContentView::Text(v[i]@)))
}

/// What is told of a note: its title, body, image, author and place, by their
/// names, and its identifier.
pub open spec fn tells_note(v: ContentView, note: Note) -> bool {
    &&& note.id matches Some(id) ==> tells_text(v, "_id"@, hex_form(id@))
    &&& tells_any(v, "name"@, note.name)
    &&& tells_any(v, "body"@, note.body)
    &&& tells_any(v, "image"@, note.image)
    &&& tells_text(v, "author"@, note.author@)
    &&& tells_any(v, "pageLocation"@, note.pageLocation)
    &&& note.settings matches Some(s) ==> exists|shown: ContentView| #[trigger]
        tells(v, "settings"@, shown) && tells_flag(shown, "pinned"@, s.pinned) && tells_flag(
            shown,
            "shared"@,
            s.shared,
        ) && tells_any(shown, "noteBackgroundColor"@, s.noteBackgroundColor)
}

/// A note that is shown is told by its members, its labels by their
/// identifiers.
pub proof fn law_note_is_told(note: Note, c: Content)
    requires
        call_ensures(<Note as Shown>::show, (&note,), c),
    ensures
        tells_note(c@, note),
        note.labels matches Some(l) ==> tells(
            c@,
            "labels"@,
            ContentView::List(Seq::new(l@.len(), |i: int| ContentView::Text(hex_form(l@[i]@)))),
        ),
{
    broadcast use lemma_seq_contains_after_push;

    if let Some(s) = note.settings {
        let shown = s.content();
        assert(tells_flag(shown, "pinned"@, s.pinned));
        assert(tells(c@, "settings"@, shown));
    }
    if let Some(l) = note.labels {
        let all = Seq::new(l@.len(), |i: int| ContentView::Text(hex_form(l@[i]@)));
        assert(l.content()->List_0 =~= all);
        assert(tells(c@, "labels"@, l.content()));
    }
}

/// A note that is read is told with its text, and with its labels in place of
/// their identifiers.
pub proof fn law_found_note_is_told(
    note: Note,
    state: NoteState,
    labels: Vec<Label>,
    shown: Vec<Content>,
    body: Body,
    c: Content,
)
    requires
        body == (Body::NoteFound { note, state: Some(state), labels: Some(labels) }),
        call_ensures(<Body as Shown>::show, (&body,), c),
        shown@.len() == labels@.len(),
        forall|i: int|
            0 <= i < labels@.len() ==> call_ensures(
                <Label as Shown>::show,
                (&labels@[i],),
                #[trigger] shown@[i],
            ),
    ensures
        exists|told: ContentView, text: ContentView|
            tells(c@, "note"@, told) && tells_note(told, note) && #[trigger] tells(
                told,
                "state"@,
                text,
            ) && tells_text(text, "state"@, state.state@) && tells(
                told,
                "labels"@,
                ContentView::List(Seq::new(shown@.len(), |i: int| shown@[i]@)),
            ),
{
    broadcast use lemma_seq_contains_after_push;

    let told = crate::content::found_content(note, Some(state), Some(labels));
    let text = crate::content::state_content(state);
    if let Some(s) = note.settings {
        let kept = s.content();
        assert(tells_flag(kept, "pinned"@, s.pinned));
        assert(tells(told, "settings"@, kept));
    }
    let all = Seq::new(shown@.len(), |i: int| shown@[i]@);
    assert forall|i: int| 0 <= i < labels@.len() implies shown@[i]@ == labels@[i].content() by {
        assert(call_ensures(<Label as Shown>::show, (&labels@[i],), shown@[i]));
    }
    assert(labels.content()->List_0 =~= all);
    assert(tells_text(text, "state"@, state.state@));
    assert(tells_note(told, note));
    assert(tells(told, "state"@, text));
}

/// A page of notes tells every note of it, in order, and how many there are.
pub proof fn law_note_page_is_told(page: NotePage, c: Content)
    requires
        call_ensures(<NotePage as Shown>::show, (&page,), c),
    ensures
        tells(
            c@,
            "docs"@,
            ContentView::List(Seq::new(page.docs@.len(), |i: int| page.docs@[i].content())),
        ),
        tells_number(c@, "totalDocs"@, page.totalDocs as int),
        tells(c@, "hasNextPage"@, ContentView::Bool(page.hasNextPage)),
        tells_number(c@, "totalPages"@, page.totalPages as int),
{
    broadcast use lemma_seq_contains_after_push;

    let all = Seq::new(page.docs@.len(), |i: int| page.docs@[i].content());
    assert(page.docs.content()->List_0 =~= all);
    assert(tells(c@, "docs"@, page.docs.content()));
}

/// A label is told by its name, its colours, its type and its owner.
pub proof fn law_label_is_told(label: Label, c: Content)
    requires
        call_ensures(<Label as Shown>::show, (&label,), c),
    ensures
        label.id matches Some(id) ==> tells_text(c@, "_id"@, hex_form(id@)),
        tells_text(c@, "name"@, label.name@),
        tells_text(c@, "color"@, label.color@),
        tells_any(c@, "fontColor"@, label.fontColor),
        tells_text(c@, "type"@, label.label_type@),
        tells_text(c@, "userId"@, hex_form(label.userId@)),
{
    broadcast use lemma_seq_contains_after_push;

}

/// A page of labels tells every label of it, in order, and where it stands.
pub proof fn law_label_page_is_told(page: PaginateResponse<Label>, body: Body, c: Content)
    requires
        body == Body::Labels(page),
        call_ensures(<Body as Shown>::show, (&body,), c),
    ensures
        tells(
            c@,
            "docs"@,
            ContentView::List(Seq::new(page.docs@.len(), |i: int| page.docs@[i].content())),
        ),
        tells_number(c@, "totalDocs"@, page.totalDocs as int),
        tells_number(c@, "limit"@, page.limit as int),
        tells_number(c@, "page"@, page.page as int),
        tells_number(c@, "totalPages"@, page.totalPages as int),
        tells(c@, "hasNextPage"@, ContentView::Bool(page.hasNextPage)),
        tells(c@, "hasPrevPage"@, ContentView::Bool(page.hasPrevPage)),
        page.nextPage matches Some(n) ==> tells_number(c@, "nextPage"@, n as int),
        page.nextPage is None ==> tells(c@, "nextPage"@, ContentView::Null),
        page.prevPage matches Some(n) ==> tells_number(c@, "prevPage"@, n as int),
        page.prevPage is None ==> tells(c@, "prevPage"@, ContentView::Null),
{
    broadcast use lemma_seq_contains_after_push;

    let all = Seq::new(page.docs@.len(), |i: int| page.docs@[i].content());
    assert(page.docs.content()->List_0 =~= all);
    assert(tells(c@, "docs"@, page.docs.content()));
}

/// An activity is told by its title, whether it is switched on, when it is due
/// and which days it was done on.
pub proof fn law_activity_is_told(activity: Activity, c: Content)
    requires
        call_ensures(<Activity as Shown>::show, (&activity,), c),
    ensures
        activity.id matches Some(id) ==> tells_text(c@, "_id"@, hex_form(id@)),
        tells_text(c@, "userId"@, hex_form(activity.userId@)),
        tells_text(c@, "title"@, activity.title@),
        activity.description matches Some(d) ==> tells_text(c@, "description"@, d@),
        tells_text(c@, "triggerType"@, activity.triggerType@),
        tells(c@, "enabled"@, ContentView::Bool(activity.enabled)),
        activity.noteId matches Some(n) ==> tells_text(c@, "noteId"@, n@),
        activity.doneDates matches Some(d) ==> tells(c@, "doneDates"@, texts(d@)),
        activity.seenOccurrences matches Some(s) ==> tells(c@, "seenOccurrences"@, texts(s@)),
        exists|trigger: ContentView| #[trigger]
            tells(c@, "trigger"@, trigger) && tells_text(trigger, "time"@, activity.trigger.time@)
                && (activity.trigger.date matches Some(d) ==> tells_text(trigger, "date"@, d@)) && (
            activity.trigger.weekdays matches Some(w) ==> tells(
                trigger,
                "weekdays"@,
                ContentView::List(Seq::new(w@.len(), |i: int| ContentView::Int(w@[i] as int))),
            )),
{
    broadcast use lemma_seq_contains_after_push;

    if let Some(d) = activity.doneDates {
        assert(d.content()->List_0 =~= texts(d@)->List_0);
        assert(tells(c@, "doneDates"@, d.content()));
    }
    if let Some(s) = activity.seenOccurrences {
        assert(s.content()->List_0 =~= texts(s@)->List_0);
        assert(tells(c@, "seenOccurrences"@, s.content()));
    }
    let trigger = activity.trigger.content();
    if let Some(w) = activity.trigger.weekdays {
        let all = Seq::new(w@.len(), |i: int| ContentView::Int(w@[i] as int));
        assert(w.content()->List_0 =~= all);
        assert(tells(trigger, "weekdays"@, w.content()));
    }
    assert(tells(c@, "trigger"@, trigger));
}

/// How an activity stands is told by the days it was done on, the streak, the
/// count, and today.
pub proof fn law_progress_is_told(progress: Progress, body: Body, c: Content)
    requires
        body == Body::ActivityProgress(progress) || (body matches Body::Completed {
            progress: p,
            date,
        } && p == progress),
        call_ensures(<Body as Shown>::show, (&body,), c),
    ensures
        tells_any(c@, "noteId"@, progress.noteId),
        tells(c@, "doneDates"@, texts(progress.doneDates@)),
        tells(c@, "seenOccurrences"@, texts(progress.seenOccurrences@)),
        tells_number(c@, "currentStreak"@, progress.currentStreak as int),
        tells_number(c@, "totalCompletions"@, progress.totalCompletions as int),
        tells(c@, "doneToday"@, ContentView::Bool(progress.doneToday)),
        tells_text(c@, "today"@, progress.today@),
        tells_any(c@, "lastDone"@, progress.lastDone),
        body matches Body::Completed { progress: p, date } ==> tells_text(c@, "date"@, date@),
{
    broadcast use lemma_seq_contains_after_push;

    assert(progress.doneDates.content()->List_0 =~= texts(progress.doneDates@)->List_0);
    assert(progress.seenOccurrences.content()->List_0 =~= texts(progress.seenOccurrences@)->List_0);
}

/// A session is told by where it was opened and whether it is the caller's.
pub proof fn law_session_is_told(entry: SessionEntry, c: Content)
    requires
        call_ensures(<SessionEntry as Shown>::show, (&entry,), c),
    ensures
        entry.id matches Some(id) ==> tells_text(c@, "_id"@, hex_form(id@)),
        tells_text(c@, "userId"@, hex_form(entry.userId@)),
        tells_number(c@, "expAt"@, entry.expAt as int),
        tells_text(c@, "ip"@, entry.ip@),
        tells_text(c@, "browserData"@, entry.browserData@),
        tells_text(c@, "location"@, entry.location@),
        tells_text(c@, "countryFlag"@, entry.countryFlag@),
        tells_text(c@, "clientData"@, entry.clientData@),
        tells(c@, "current"@, ContentView::Bool(entry.current)),
{
    broadcast use lemma_seq_contains_after_push;

}

/// A list tells every entry of it, in order.
pub proof fn law_lists_tell_every_entry(
    sessions: Vec<SessionEntry>,
    passkeys: Vec<PasskeyEntry>,
    devices: Vec<Device>,
    activities: Vec<Activity>,
    bodies: (Body, Body, Body, Body),
    s: Content,
    p: Content,
    d: Content,
    a: Content,
)
    requires
        bodies == (
            Body::Sessions(sessions),
            Body::Passkeys(passkeys),
            Body::Devices(devices),
            Body::Activities(activities),
        ),
        call_ensures(<Body as Shown>::show, (&bodies.0,), s),
        call_ensures(<Body as Shown>::show, (&bodies.1,), p),
        call_ensures(<Body as Shown>::show, (&bodies.2,), d),
        call_ensures(<Body as Shown>::show, (&bodies.3,), a),
    ensures
        s@ == ContentView::List(Seq::new(sessions@.len(), |i: int| sessions@[i].content())),
        p@ == ContentView::List(Seq::new(passkeys@.len(), |i: int| passkeys@[i].content())),
        tells(
            d@,
            "subscriptions"@,
            ContentView::List(Seq::new(devices@.len(), |i: int| devices@[i].content())),
        ),
        tells(
            a@,
            "activities"@,
            ContentView::List(Seq::new(activities@.len(), |i: int| activities@[i].content())),
        ),
{
    broadcast use lemma_seq_contains_after_push;

    assert(s@->List_0 =~= Seq::new(sessions@.len(), |i: int| sessions@[i].content()));
    assert(p@->List_0 =~= Seq::new(passkeys@.len(), |i: int| passkeys@[i].content()));
    assert(devices.content()->List_0 =~= Seq::new(devices@.len(), |i: int| devices@[i].content()));
    assert(activities.content()->List_0 =~= Seq::new(
        activities@.len(),
        |i: int| activities@[i].content(),
    ));
    assert(tells(d@, "subscriptions"@, devices.content()));
    assert(tells(a@, "activities"@, activities.content()));
}

/// A device is told by its endpoint, a passkey by its credential and its label.
pub proof fn law_device_and_passkey_are_told(
    device: Device,
    passkey: PasskeyEntry,
    d: Content,
    p: Content,
)
    requires
        call_ensures(<Device as Shown>::show, (&device,), d),
        call_ensures(<PasskeyEntry as Shown>::show, (&passkey,), p),
    ensures
        tells_text(d@, "endpoint"@, device.endpoint@),
        tells_any(d@, "userAgent"@, device.userAgent),
        tells_text(p@, "cred_id"@, passkey.cred_id@),
        tells_any(p@, "label"@, passkey.label),
{
    broadcast use lemma_seq_contains_after_push;

}

/// A user's settings are told one by one, null where there is none.
pub open spec fn tells_settings(v: ContentView, s: UserSettings) -> bool {
    &&& tells_flag(v, "showPinnedNotesInFolder"@, s.showPinnedNotesInFolder)
    &&& tells_flag(v, "noteTextExpanded"@, s.noteTextExpanded)
    &&& tells_any(v, "globalNoteBackgroundColor"@, s.globalNoteBackgroundColor)
    &&& tells_flag(v, "onLoginGoToLastOpenedNote"@, s.onLoginGoToLastOpenedNote)
    &&& tells_any(v, "noteVisualization"@, s.noteVisualization)
    &&& tells_any(v, "theme"@, s.theme)
    &&& tells_any(v, "language"@, s.language)
}

/// Whoever signs in is told who they are and their settings: with a password,
/// with Google and with a passkey, and again when the session is confirmed.
pub proof fn law_user_is_told(
    id: ObjectId,
    name: String,
    tfa: bool,
    google: bool,
    settings: UserSettings,
    last: ObjectId,
    body: Body,
    c: Content,
)
    requires
        ({
            ||| body == (Body::SignedIn {
                id,
                name,
                tfa_enabled: tfa,
                settings: Some(settings),
                last_opened: Some(last),
            })
            ||| body == (Body::GoogleSignedIn {
                id,
                name,
                tfa_enabled: tfa,
                settings: Some(settings),
            })
            ||| body == (Body::PasskeySignedIn {
                id,
                name,
                google_account: google,
                settings: Some(settings),
                last_opened: Some(last),
            })
            ||| body matches Body::TokenVerified {
                sub,
                name: n,
                google_account,
                tfa_enabled,
                user_settings,
            } && sub@ == hex_form(id@) && n == name && google_account == google && tfa_enabled
                == tfa && user_settings == settings
        }),
        call_ensures(<Body as Shown>::show, (&body,), c),
    ensures
        tells_text(c@, "_id"@, hex_form(id@)),
        tells_text(c@, "name"@, name@),
        tells(
            c@,
            "TFAEnabled"@,
            ContentView::Bool(
                if body is PasskeySignedIn {
                    false
                } else {
                    tfa
                },
            ),
        ),
        body is GoogleSignedIn ==> tells(c@, "googleAccount"@, ContentView::Bool(true)),
        body is PasskeySignedIn || body is TokenVerified ==> tells(
            c@,
            "googleAccount"@,
            ContentView::Bool(google),
        ),
        body is SignedIn || body is PasskeySignedIn ==> tells_text(
            c@,
            "lastOpenedNote"@,
            hex_form(last@),
        ),
        exists|shown: ContentView| #[trigger]
            tells(c@, "settings"@, shown) && tells_settings(shown, settings),
{
    broadcast use lemma_seq_contains_after_push;

    let shown = settings.content();
    assert(tells_settings(shown, settings));
    assert(tells(c@, "settings"@, shown));
}

/// A reply that says something says it as its message; codes, tokens, keys and
/// counts are told by their names.
pub proof fn law_messages_are_told(body: Body, c: Content)
    requires
        call_ensures(<Body as Shown>::show, (&body,), c),
    ensures
        body matches Body::Message(text) ==> tells_text(c@, "message"@, text@),
        body matches Body::Text(text) ==> tells_text(c@, "message"@, text@),
        body matches Body::Coded(text, code) ==> tells_text(c@, "message"@, text@) && tells_number(
            c@,
            "code"@,
            code as int,
        ),
        body matches Body::OtpVerified { reset_token } ==> tells_text(
            c@,
            "resetToken"@,
            reset_token@,
        ),
        body matches Body::OtpSent { user } ==> tells_text(c@, "userId"@, hex_form(user@)),
        body matches Body::ResetWithTfa { user } ==> tells_text(c@, "userId"@, hex_form(user@))
            && tells_number(c@, "code"@, 5),
        body matches Body::NoteAdded { id, page_location } ==> tells_text(
            c@,
            "noteId"@,
            hex_form(id@),
        ) && tells_text(c@, "pageLocation"@, page_location@),
        body matches Body::Occurrence { key } ==> tells_text(c@, "occurrenceKey"@, key@),
        body matches Body::VapidKey(key) ==> tells_text(c@, "publicKey"@, key@),
        body matches Body::PushSweep { checked, pushed } ==> tells_number(
            c@,
            "checked"@,
            checked as int,
        ) && tells_number(c@, "pushed"@, pushed as int),
        body matches Body::PasskeyOptions { options, state_token } ==> tells(
            c@,
            "options"@,
            ContentView::Json(options@),
        ) && tells_text(c@, "stateToken"@, state_token@),
        body matches Body::QrCode(url) ==> c@ == ContentView::Text(url@),
        body matches Body::Notes { notes, pinned } ==> tells(c@, "notes"@, notes.content()) && (
        pinned matches Some(p) ==> tells(c@, "pinnedNotes"@, p.content())),
{
    broadcast use lemma_seq_contains_after_push;

}

/// A moment is told by its RFC 3339 text, where the calendar holds it, and a
/// value that may be missing as null.
pub open spec fn tells_moment(v: ContentView, key: Seq<char>, at: Option<UtcTime>) -> bool {
    match at {
        Some(t) => is_representable(t) ==> tells_text(v, key, rfc3339_form(t.secs, t.nanos)),
        None => tells(v, key, ContentView::Null),
    }
}

/// When something was created, changed, used and triggered is told, under those
/// names; a device and a passkey tell null where it is not known.
pub proof fn law_moments_are_told(
    note: Note,
    label: Label,
    activity: Activity,
    session: SessionEntry,
    device: Device,
    passkey: PasskeyEntry,
    n: Content,
    l: Content,
    a: Content,
    s: Content,
    d: Content,
    p: Content,
)
    requires
        call_ensures(<Note as Shown>::show, (&note,), n),
        call_ensures(<Label as Shown>::show, (&label,), l),
        call_ensures(<Activity as Shown>::show, (&activity,), a),
        call_ensures(<SessionEntry as Shown>::show, (&session,), s),
        call_ensures(<Device as Shown>::show, (&device,), d),
        call_ensures(<PasskeyEntry as Shown>::show, (&passkey,), p),
    ensures
        note.createdAt is Some ==> tells_moment(n@, "createdAt"@, note.createdAt),
        note.updatedAt is Some ==> tells_moment(n@, "updatedAt"@, note.updatedAt),
        note.state matches Some(b) ==> tells(n@, "state"@, ContentView::Stored(b)),
        label.createdAt is Some ==> tells_moment(l@, "createdAt"@, label.createdAt),
        label.updatedAt is Some ==> tells_moment(l@, "updatedAt"@, label.updatedAt),
        activity.lastTriggeredAt is Some ==> tells_moment(
            a@,
            "lastTriggeredAt"@,
            activity.lastTriggeredAt,
        ),
        activity.lastPushKey matches Some(k) ==> tells_text(a@, "lastPushKey"@, k@),
        activity.createdAt is Some ==> tells_moment(a@, "createdAt"@, activity.createdAt),
        activity.updatedAt is Some ==> tells_moment(a@, "updatedAt"@, activity.updatedAt),
        session.createdAt is Some ==> tells_moment(s@, "createdAt"@, session.createdAt),
        tells(s@, "deviceData"@, ContentView::Stored(session.deviceData)),
        tells_moment(d@, "createdAt"@, device.createdAt),
        tells_moment(d@, "updatedAt"@, device.updatedAt),
        tells_moment(p@, "createdAt"@, passkey.createdAt),
        tells_moment(p@, "lastUsedAt"@, passkey.lastUsedAt),
{
    broadcast use lemma_seq_contains_after_push;

}

/// When a wait is over and when an activity was triggered is told too.
pub proof fn law_waits_are_told(body: Body, c: Content)
    requires
        call_ensures(<Body as Shown>::show, (&body,), c),
    ensures
        body matches Body::OtpWait { spam } ==> tells_moment(c@, "spam"@, Some(spam))
            && tells_number(c@, "code"@, 4),
        body matches Body::Triggered { at } ==> tells_moment(c@, "lastTriggeredAt"@, Some(at)),
{
    broadcast use lemma_seq_contains_after_push;

}

} // verus!
