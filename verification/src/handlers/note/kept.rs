//! What becomes of the stored notes when a request for a change is answered.

use vstd::prelude::*;
#[allow(unused_imports)]
use vstd::string::*;

use crate::config::AppState;
#[allow(unused_imports)]
use crate::flow::{Event, Step};
#[allow(unused_imports)]
use crate::handlers::note::{add, add_label, change_bg, change_image, delete, delete_all_labels, delete_label, edit, get_note, pin_note, rename};
#[allow(unused_imports)]
use crate::handlers::note::{label_ids, labels_of, labels_step, labels_without, AddLabelReq, AddNote, AddReq, BgReq, ChangeNote, EditReq, GetNote, ImageReq, PageLocation, PinReq, RenameReq, SettingsReq};
#[allow(unused_imports)]
use crate::http::{says, Body, OK};
use crate::http::Reply;
#[allow(unused_imports)]
use crate::models::{Bson, Label, Note, NoteSettings, NoteState};
#[allow(unused_imports)]
use crate::object_id::{hex_form, is_object_id, object_id_of, ObjectId};
#[allow(unused_imports)]
use crate::store::{found, runs, unfailed, Rows, Turn};
use crate::time::UtcTime;
use crate::utils::crypto::Claims;

verus! {

/// The text names a note of the subject.
pub open spec fn has_own_note(rows: Rows, id: Seq<char>, sub: Seq<char>) -> bool {
    is_object_id(id) && rows.notes.dom().contains(object_id_of(id)) && rows.notes[object_id_of(
        id,
    )].author@ == sub
}

/// A text that can be written with an edit of a note: the note names it, or it
/// names the note or another one of the subject, or there is none.
pub open spec fn may_edit_text(rows: Rows, note: ObjectId, text: Seq<char>, sub: Seq<char>) -> bool {
    let id = object_id_of(text);
    is_object_id(text) ==> {
        ||| rows.notes[note].state == Some(Bson::ObjectId(id))
        ||| !rows.states.dom().contains(id)
        ||| rows.states[id].noteId matches Some(n) && (n == note || (rows.notes.dom().contains(n)
            && rows.notes[n].author@ == sub))
    }
}

/// An edit that is answered with "Note updated!" was one of an own note. That
/// note then has the title, the body and the image of the request, as far as
/// they were given, and the old ones where they were not; the text that the
/// request names has the given text. Nothing else is changed. An edit of an own
/// note with a text that may be written with it is so answered, unless the
/// database failed.
pub proof fn law_edit_is_stored(
    claims: Claims,
    payload: EditReq,
    app: AppState,
    start: Step<ChangeNote, Reply>,
    rows: Rows,
    turns: Seq<Turn<ChangeNote>>,
    reply: Reply,
    after: Rows,
)
    requires
        call_ensures(edit, (&claims, payload), start),
        runs(app, start, rows, turns, (reply, after)),
    ensures
        ({
            let id = object_id_of(payload._id@);
            let text = object_id_of(payload.stateId->0@);
            let has_text = payload.stateId is Some && payload.state is Some && is_object_id(
                payload.stateId->0@,
            ) && rows.states.dom().contains(text);
            let old = rows.notes[id];
            reply == says(OK, "Note updated!") ==> {
                &&& has_own_note(rows, payload._id@, claims.sub@)
                &&& after.notes == rows.notes.insert(
                    id,
                    Note {
                        name: if payload.title is Some {
                            payload.title
                        } else {
                            old.name
                        },
                        body: if payload.body is Some {
                            payload.body
                        } else {
                            old.body
                        },
                        image: if payload.image is Some {
                            payload.image
                        } else {
                            old.image
                        },
                        ..old
                    },
                )
                &&& after.states == if has_text {
                    rows.states.insert(
                        text,
                        NoteState { state: payload.state->0, ..rows.states[text] },
                    )
                } else {
                    rows.states
                }
                &&& after == (Rows { notes: after.notes, states: after.states, ..rows })
            }
        }),
        !has_own_note(rows, payload._id@, claims.sub@) ==> after == rows && !(reply.status == OK),
        unfailed(turns) && has_own_note(rows, payload._id@, claims.sub@) && (payload.state is Some
            && payload.stateId is Some ==> may_edit_text(
            rows,
            object_id_of(payload._id@),
            payload.stateId->0@,
            claims.sub@,
        )) ==> reply == says(OK, "Note updated!"),
{
    reveal_with_fuel(runs, 7);
    let id = object_id_of(payload._id@);
    assert(rows.notes.insert(id, rows.notes[id]) =~= rows.notes || !rows.notes.dom().contains(id));
}

/// A note that was renamed has the new name, and nothing else is changed. An
/// own note is renamed unless the database failed, another one never.
pub proof fn law_rename_is_stored(
    claims: Claims,
    id: &str,
    payload: RenameReq,
    app: AppState,
    start: Step<ChangeNote, Reply>,
    rows: Rows,
    turns: Seq<Turn<ChangeNote>>,
    reply: Reply,
    after: Rows,
)
    requires
        call_ensures(rename, (&claims, id, payload), start),
        runs(app, start, rows, turns, (reply, after)),
    ensures
        reply.status == OK ==> {
            let note = object_id_of(id@);
            &&& has_own_note(rows, id@, claims.sub@)
            &&& reply == says(OK, "Updated!")
            &&& after == (Rows {
                notes: rows.notes.insert(
                    note,
                    Note { name: Some(payload.name), ..rows.notes[note] },
                ),
                ..rows
            })
        },
        reply.status != OK ==> after == rows,
        unfailed(turns) ==> (reply.status == OK) == has_own_note(rows, id@, claims.sub@),
{
    reveal_with_fuel(runs, 4);
}

/// A note whose image was changed has the new one, and nothing else is changed.
pub proof fn law_image_is_stored(
    claims: Claims,
    id: &str,
    payload: ImageReq,
    app: AppState,
    start: Step<ChangeNote, Reply>,
    rows: Rows,
    turns: Seq<Turn<ChangeNote>>,
    reply: Reply,
    after: Rows,
)
    requires
        call_ensures(change_image, (&claims, id, payload), start),
        runs(app, start, rows, turns, (reply, after)),
    ensures
        reply.status == OK ==> {
            let note = object_id_of(id@);
            &&& has_own_note(rows, id@, claims.sub@)
            &&& reply == says(OK, "Updated!")
            &&& after == (Rows {
                notes: rows.notes.insert(
                    note,
                    Note { image: Some(payload.image), ..rows.notes[note] },
                ),
                ..rows
            })
        },
        reply.status != OK ==> after == rows,
        unfailed(turns) ==> (reply.status == OK) == has_own_note(rows, id@, claims.sub@),
{
    reveal_with_fuel(runs, 4);
}

/// `settings` are those of a note, or ones in which nothing has been chosen.
pub open spec fn are_settings_of(settings: NoteSettings, note: Note) -> bool {
    match note.settings {
        Some(s) => settings == s,
        None => settings.shared is None && settings.permissions is None && settings.pinned is None
            && settings.noteBackgroundColor is None,
    }
}

/// A note whose background was changed has the new one; its other settings and
/// all else are as they were.
pub proof fn law_background_is_stored(
    claims: Claims,
    id: &str,
    payload: BgReq,
    app: AppState,
    start: Step<ChangeNote, Reply>,
    rows: Rows,
    turns: Seq<Turn<ChangeNote>>,
    old: NoteSettings,
    reply: Reply,
    after: Rows,
)
    requires
        call_ensures(change_bg, (&claims, id, payload), start),
        runs(app, start, rows, turns, (reply, after)),
        are_settings_of(old, rows.notes[object_id_of(id@)]),
    ensures
        reply.status == OK ==> {
            let note = object_id_of(id@);
            &&& has_own_note(rows, id@, claims.sub@)
            &&& reply == says(OK, "Updated!")
            &&& after == (Rows {
                notes: rows.notes.insert(
                    note,
                    Note {
                        settings: Some(
                            NoteSettings {
                                noteBackgroundColor: Some(payload.noteBackgroundColor),
                                ..old
                            },
                        ),
                        ..rows.notes[note]
                    },
                ),
                ..rows
            })
        },
        reply.status != OK ==> after == rows,
        unfailed(turns) ==> (reply.status == OK) == has_own_note(rows, id@, claims.sub@),
{
    reveal_with_fuel(runs, 4);
}

/// A note that was pinned or unpinned is; its other settings and all else are
/// as they were.
pub proof fn law_pin_is_stored(
    claims: Claims,
    id: &str,
    payload: PinReq,
    app: AppState,
    start: Step<ChangeNote, Reply>,
    rows: Rows,
    turns: Seq<Turn<ChangeNote>>,
    old: NoteSettings,
    reply: Reply,
    after: Rows,
)
    requires
        call_ensures(pin_note, (&claims, id, payload), start),
        runs(app, start, rows, turns, (reply, after)),
        are_settings_of(old, rows.notes[object_id_of(id@)]),
    ensures
        reply.status == OK ==> {
            let note = object_id_of(id@);
            &&& has_own_note(rows, id@, claims.sub@)
            &&& reply == says(
                OK,
                if payload.condition {
                    "Note pinned!"
                } else {
                    "Note unpinned!"
                },
            )
            &&& after == (Rows {
                notes: rows.notes.insert(
                    note,
                    Note {
                        settings: Some(NoteSettings { pinned: Some(payload.condition), ..old }),
                        ..rows.notes[note]
                    },
                ),
                ..rows
            })
        },
        reply.status != OK ==> after == rows,
        unfailed(turns) ==> (reply.status == OK) == has_own_note(rows, id@, claims.sub@),
{
    reveal_with_fuel(runs, 4);
}

proof fn lemma_label_ids(labels: Seq<String>)
    requires
        forall|i: int| 0 <= i < labels.len() ==> is_object_id((#[trigger] labels[i])@),
    ensures
        label_ids(labels).len() == labels.len(),
        forall|i: int|
            0 <= i < labels.len() ==> label_ids(labels)[i] == object_id_of((#[trigger] labels[i])@),
    decreases labels.len(),
{
    if labels.len() > 0 {
        let rest = labels.drop_last();
        assert forall|i: int| 0 <= i < rest.len() implies is_object_id((#[trigger] rest[i])@) by {
            assert(rest[i] == labels[i]);
        }
        lemma_label_ids(rest);
        assert(is_object_id(labels[labels.len() - 1]@));
        assert forall|i: int| 0 <= i < labels.len() implies label_ids(labels)[i] == object_id_of(
            (#[trigger] labels[i])@,
        ) by {
            if i < rest.len() {
                assert(rest[i] == labels[i]);
            }
        }
    }
}

/// A note that was given labels has those, in their order, and no other;
/// nothing else is changed.
pub proof fn law_labels_are_stored(
    claims: Claims,
    payload: AddLabelReq,
    app: AppState,
    start: Step<ChangeNote, Reply>,
    rows: Rows,
    turns: Seq<Turn<ChangeNote>>,
    reply: Reply,
    after: Rows,
)
    requires
        call_ensures(add_label, (&claims, payload), start),
        runs(app, start, rows, turns, (reply, after)),
        forall|i: int|
            0 <= i < payload.labels@.len() ==> is_object_id((#[trigger] payload.labels@[i])@),
    ensures
        reply.status == OK ==> {
            let note = object_id_of(payload.noteId@);
            let labels = after.notes[note].labels;
            &&& has_own_note(rows, payload.noteId@, claims.sub@)
            &&& reply == says(OK, "Label attached!")
            &&& labels matches Some(ids) && ids@.len() == payload.labels@.len() && forall|i: int|
                0 <= i < ids@.len() ==> #[trigger] ids@[i] == object_id_of(payload.labels@[i]@)
            &&& after == (Rows {
                notes: rows.notes.insert(note, Note { labels, ..rows.notes[note] }),
                ..rows
            })
        },
        reply.status != OK ==> after == rows,
        unfailed(turns) ==> (reply.status == OK) == has_own_note(
            rows,
            payload.noteId@,
            claims.sub@,
        ),
{
    reveal_with_fuel(runs, 4);
    lemma_label_ids(payload.labels@);
}

/// A note whose labels were taken off has none; nothing else is changed.
pub proof fn law_labels_are_taken_off(
    claims: Claims,
    id: &str,
    app: AppState,
    start: Step<ChangeNote, Reply>,
    rows: Rows,
    turns: Seq<Turn<ChangeNote>>,
    reply: Reply,
    after: Rows,
)
    requires
        call_ensures(delete_all_labels, (&claims, id), start),
        runs(app, start, rows, turns, (reply, after)),
    ensures
        reply.status == OK ==> {
            let note = object_id_of(id@);
            let labels = after.notes[note].labels;
            &&& has_own_note(rows, id@, claims.sub@)
            &&& reply == says(OK, "Labels detached!")
            &&& labels matches Some(ids) && ids@.len() == 0
            &&& after == (Rows {
                notes: rows.notes.insert(note, Note { labels, ..rows.notes[note] }),
                ..rows
            })
        },
        reply.status != OK ==> after == rows,
        unfailed(turns) ==> (reply.status == OK) == has_own_note(rows, id@, claims.sub@),
{
    reveal_with_fuel(runs, 4);
}

proof fn lemma_without_label(labels: Seq<ObjectId>, label: Seq<char>, other: ObjectId)
    ensures
        labels_without(labels, label).contains(other) == (labels.contains(other) && hex_form(other@)
            != label),
    decreases labels.len(),
{
    if labels.len() > 0 {
        let rest = labels.drop_last();
        let kept = labels_without(rest, label);
        lemma_without_label(rest, label, other);
        if labels.contains(other) {
            let i = choose|i: int| 0 <= i < labels.len() && labels[i] == other;
            if i < rest.len() {
                assert(rest[i] == other);
            }
        }
        if rest.contains(other) {
            let i = choose|i: int| 0 <= i < rest.len() && rest[i] == other;
            assert(labels[i] == other);
        }
        assert(labels[labels.len() - 1] == labels.last());
        let all = labels_without(labels, label);
        if kept.contains(other) {
            let i = choose|i: int| 0 <= i < kept.len() && kept[i] == other;
            assert(all[i] == other);
        }
        if all.contains(other) {
            let i = choose|i: int| 0 <= i < all.len() && all[i] == other;
            if i < kept.len() {
                assert(kept[i] == other);
            }
        }
        if hex_form(labels.last()@) != label {
            assert(all[all.len() - 1] == labels.last());
        }
    }
}

/// A note that a label was taken off has its other labels and not that one;
/// nothing else is changed.
pub proof fn law_label_is_taken_off(
    claims: Claims,
    label: String,
    id: &str,
    other: ObjectId,
    app: AppState,
    start: Step<ChangeNote, Reply>,
    rows: Rows,
    turns: Seq<Turn<ChangeNote>>,
    reply: Reply,
    after: Rows,
)
    requires
        call_ensures(delete_label, (&claims, label, id), start),
        runs(app, start, rows, turns, (reply, after)),
    ensures
        reply.status == OK ==> {
            let note = object_id_of(id@);
            let old = match rows.notes[note].labels {
                Some(ids) => ids@,
                None => Seq::empty(),
            };
            let labels = after.notes[note].labels;
            &&& has_own_note(rows, id@, claims.sub@)
            &&& reply == says(OK, "Label detached!")
            &&& labels matches Some(ids) && ids@.contains(other) == (old.contains(other)
                && hex_form(other@) != label@)
            &&& after == (Rows {
                notes: rows.notes.insert(note, Note { labels, ..rows.notes[note] }),
                ..rows
            })
        },
        reply.status != OK ==> after == rows,
        unfailed(turns) ==> (reply.status == OK) == has_own_note(rows, id@, claims.sub@),
{
    reveal_with_fuel(runs, 4);
    lemma_without_label(
        match rows.notes[object_id_of(id@)].labels {
            Some(ids) => ids@,
            None => Seq::empty(),
        },
        label@,
        other,
    );
}

/// A note that was deleted is gone, and the text that it named with it; nothing
/// else is. A note of another is not deleted.
pub proof fn law_deleted_note_is_gone(
    claims: Claims,
    id: &str,
    app: AppState,
    start: Step<ChangeNote, Reply>,
    rows: Rows,
    turns: Seq<Turn<ChangeNote>>,
    reply: Reply,
    after: Rows,
)
    requires
        call_ensures(delete, (&claims, id), start),
        runs(app, start, rows, turns, (reply, after)),
    ensures
        reply.status == OK ==> {
            let note = object_id_of(id@);
            &&& is_object_id(id@)
            &&& rows.notes.dom().contains(note) ==> rows.notes[note].author@ == claims.sub@
            &&& reply == says(OK, "Note deleted!")
            &&& !after.notes.dom().contains(note)
            &&& after.notes == rows.notes.remove(note)
            &&& after.states == if rows.notes.dom().contains(note) && rows.notes[note].state is Some
                && rows.notes[note].state->0 is ObjectId {
                rows.states.remove(rows.notes[note].state->0->ObjectId_0)
            } else {
                rows.states
            }
            &&& after == (Rows { notes: after.notes, states: after.states, ..rows })
        },
        reply.status != OK ==> after.notes == rows.notes,
        rows.notes.dom().contains(object_id_of(id@)) && !has_own_note(rows, id@, claims.sub@)
            ==> after == rows && reply.status != OK,
        unfailed(turns) && is_object_id(id@) && (rows.notes.dom().contains(object_id_of(id@))
            ==> has_own_note(rows, id@, claims.sub@)) ==> reply.status == OK,
{
    reveal_with_fuel(runs, 5);
    assert(!rows.notes.dom().contains(object_id_of(id@)) ==> rows.notes.remove(object_id_of(id@))
        =~= rows.notes);
}

/// A note that was added is stored as it was sent, for the one who sent it,
/// with a text of its own that is the one that was sent; the two name each
/// other. Nothing else is changed. It is stored unless the database failed,
/// and not in the name of another.
pub proof fn law_added_note_is_stored(
    claims: Claims,
    payload: AddReq,
    began: UtcTime,
    app: AppState,
    start: Step<AddNote, Reply>,
    rows: Rows,
    turns: Seq<Turn<AddNote>>,
    reply: Reply,
    after: Rows,
)
    requires
        call_ensures(add, (&claims, payload, began), start),
        runs(app, start, rows, turns, (reply, after)),
    ensures
        reply.status == OK ==> {
            &&& claims.sub@ == payload.author@
            &&& reply.body matches Body::NoteAdded { id, page_location }
            &&& page_location@ == (match payload.pageLocation {
                Some(PageLocation::Text(s)) => s@,
                _ => "0"@,
            })
            &&& reply.cookies is Nothing
            &&& !rows.notes.dom().contains(id)
            &&& after.notes.dom().contains(id)
            &&& after.notes == rows.notes.insert(id, after.notes[id])
            &&& {
                let note = after.notes[id];
                &&& note.id == Some(id)
                &&& note.name == payload.name
                &&& note.body == payload.body
                &&& note.image == payload.image
                &&& note.author == payload.author
                &&& note.labels matches Some(labels) && labels@.len() == 0
                &&& note.settings == Some(
                    match payload.settings {
                        SettingsReq::Settings(s) => s,
                        SettingsReq::Unreadable => NoteSettings {
                            shared: None,
                            permissions: None,
                            pinned: None,
                            noteBackgroundColor: None,
                        },
                        _ => NoteSettings {
                            shared: Some(false),
                            permissions: None,
                            pinned: Some(false),
                            noteBackgroundColor: None,
                        },
                    },
                )
                &&& note.pageLocation == (match payload.pageLocation {
                    Some(PageLocation::Text(s)) => Some(s),
                    Some(PageLocation::Other(s)) => Some(s),
                    None => None,
                })
                &&& note.createdAt == Some(turns[0].now)
                &&& note.updatedAt is None
                &&& note.state matches Some(Bson::ObjectId(text))
                &&& !rows.states.dom().contains(text)
                &&& after.states.dom().contains(text)
                &&& after.states == rows.states.insert(text, after.states[text])
                &&& after.states[text] == (NoteState {
                    id: Some(text),
                    state: payload.state,
                    noteId: Some(id),
                    createdAt: Some(began),
                    updatedAt: None,
                })
            }
            &&& after == (Rows { notes: after.notes, states: after.states, ..rows })
        },
        claims.sub@ != payload.author@ ==> after == rows,
        unfailed(turns) ==> (reply.status == OK) == (claims.sub@ == payload.author@),
{
    reveal_with_fuel(runs, 5);
    if reply.status == OK {
        let text = turns[0].event->Inserted_0;
        let s = turns[0].rows.states;
        assert(s.insert(text, after.states[text]) =~= rows.states.insert(text, after.states[text]));
    }
}

/// The labels among the rows, in the order of the identifiers.
pub open spec fn found_labels(ids: Seq<ObjectId>, rows: Map<ObjectId, Label>) -> Seq<Label>
    decreases ids.len(),
{
    if ids.len() == 0 {
        Seq::empty()
    } else {
        let rest = found_labels(ids.drop_last(), rows);
        if rows.dom().contains(ids.last()) {
            rest.push(rows[ids.last()])
        } else {
            rest
        }
    }
}

proof fn lemma_labels_read(
    note: Note,
    state: NoteState,
    next: int,
    labels: Seq<Label>,
    app: AppState,
    step: Step<GetNote, Reply>,
    rows: Rows,
    turns: Seq<Turn<GetNote>>,
    answered: bool,
    reply: Reply,
    after: Rows,
)
    requires
        0 <= next <= labels_of(note).len(),
        labels_step(note, state, next, labels, step),
        runs(app, step, rows, turns, (reply, after)),
        answered ==> unfailed(turns) && labels == found_labels(
            labels_of(note).take(next),
            rows.labels,
        ),
    ensures
        after == rows,
        reply.status == OK,
        reply.cookies is Nothing,
        reply.body matches Body::NoteFound { note: n, state: s, labels: Some(l) } && n == note && s
            == Some(state) && (answered ==> l@ == found_labels(labels_of(note), rows.labels)),
    decreases turns.len(),
{
    let ids = labels_of(note);
    if next < ids.len() {
        let t = turns[0];
        let more = match t.event {
            Event::Label(Some(label)) => labels.push(label),
            _ => labels,
        };
        assert(ids.take(next + 1).drop_last() =~= ids.take(next));
        assert(ids.take(next + 1).last() == ids[next]);
        if answered {
            assert forall|i: int| 0 <= i < turns.skip(1).len() implies !((
            #[trigger] turns.skip(1)[i]).event is Failed) by {
                assert(turns.skip(1)[i] == turns[i + 1]);
            }
        }
        lemma_labels_read(
            note,
            state,
            next + 1,
            more,
            app,
            t.step,
            t.rows,
            turns.skip(1),
            answered,
            reply,
            after,
        );
    } else {
        assert(ids.take(next) =~= ids);
    }
}

/// A note that is read is the stored one, of the one who reads it, with the
/// text that it names and its labels, those that are stored, in their order. No
/// row is changed. Who asks for an own note as its author gets it, unless the
/// database failed.
pub proof fn law_stored_note_is_read(
    claims: Claims,
    id: &str,
    author: Option<String>,
    app: AppState,
    start: Step<GetNote, Reply>,
    rows: Rows,
    turns: Seq<Turn<GetNote>>,
    reply: Reply,
    after: Rows,
)
    requires
        call_ensures(get_note, (&claims, id, author), start),
        runs(app, start, rows, turns, (reply, after)),
    ensures
        after == rows,
        reply.status == OK ==> {
            let note = rows.notes[object_id_of(id@)];
            let text = match note.state {
                Some(Bson::ObjectId(t)) => found(rows.states, t),
                Some(Bson::Text(t)) => if is_object_id(t@) {
                    found(rows.states, object_id_of(t@))
                } else {
                    None
                },
                _ => None,
            };
            &&& has_own_note(rows, id@, claims.sub@)
            &&& reply.cookies is Nothing
            &&& reply.body matches Body::NoteFound { note: n, state, labels }
            &&& n == note
            &&& state == text
            &&& labels is Some <==> (text is Some && note.labels is Some)
            &&& unfailed(turns) && labels is Some ==> labels->0@ == found_labels(
                note.labels->0@,
                rows.labels,
            )
        },
        unfailed(turns) && author is Some && author->0@ == claims.sub@ && has_own_note(
            rows,
            id@,
            claims.sub@,
        ) ==> reply.status == OK,
        !has_own_note(rows, id@, claims.sub@) ==> reply.status != OK,
{
    reveal_with_fuel(runs, 3);
    if start is Ask {
        let t = turns[0];
        if t.step is Ask {
            let rest = turns.skip(1);
            let u = rest[0];
            assert(u == turns[1]);
            if u.step is Ask || (u.event matches Event::State(Some(_)) && rows.notes[object_id_of(
                id@,
            )].labels is Some) {
                let note = rows.notes[object_id_of(id@)];
                assert(labels_of(note).take(0) =~= Seq::empty());
                if unfailed(turns) {
                    assert forall|i: int| 0 <= i < rest.skip(1).len() implies !((
                    #[trigger] rest.skip(1)[i]).event is Failed) by {
                        assert(rest.skip(1)[i] == turns[i + 2]);
                    }
                }
                lemma_labels_read(
                    note,
                    u.event->State_0->0,
                    0,
                    Seq::empty(),
                    app,
                    u.step,
                    u.rows,
                    rest.skip(1),
                    unfailed(turns),
                    reply,
                    after,
                );
            }
        }
    }
}

} // verus!
