use noap_server::config::{AppState, Environment};
use noap_server::flow::{Action, Event, Flow, NoteChange, StateChange, Step};
use noap_server::handlers::note::pages::NotesQuery;
use noap_server::handlers::note::{
    AddLabelReq, AddReq, BgReq, ChangeNote, EditReq, ImageReq, PageLocation, PinReq, RenameReq, SettingsReq,
};
use noap_server::handlers::{label, note, session};
use noap_server::http::{Body, Headers, Reply};
use noap_server::json::Json;
use noap_server::models::{Bson, Label, Note, NoteSettings, NoteState, Session};
use noap_server::object_id::ObjectId;
use noap_server::time::UtcTime;
use noap_server::utils::crypto::Claims;
use noap_server::utils::object_id_from_str;

const USER: &str = "648a173ca6d551d5ee99e897";
const OTHER: &str = "000000000000000000000001";
const NOTE: &str = "6ab290bf9c189ae12d54b155";
const TEXT: &str = "6ab290bf9c189ae12d54b156";
const NOW: UtcTime = UtcTime { secs: 1_790_000_000, nanos: 0 };

fn id(hex: &str) -> ObjectId {
    object_id_from_str(hex).unwrap()
}

fn claims(sub: &str) -> Claims {
    Claims { iss: "login-form".to_string(), sub: sub.to_string(), user: None, exp: 0 }
}

fn environment() -> Environment {
    Environment {
        mail_hostname: None,
        mail_port: None,
        mail_username: None,
        mail_password: None,
        host_mail: None,
        ipgeolocation_key: None,
        allowed_origins: None,
        cookie_secure: None,
        cookie_samesite: None,
        webauthn_rp_id: None,
        webauthn_origin: None,
        webauthn_rp_name: None,
        vapid_private_key: None,
        vapid_subject: None,
        cron_secret: None,
    }
}

fn app() -> AppState {
    AppState::from_env(environment(), "secret".to_string())
}

fn stored(author: &str) -> Note {
    Note {
        id: Some(id(NOTE)),
        name: Some("list".to_string()),
        body: Some("milk".to_string()),
        labels: Some(vec![id(USER), id(OTHER)]),
        image: None,
        state: Some(Bson::ObjectId(id(TEXT))),
        settings: Some(NoteSettings {
            shared: Some(true),
            permissions: None,
            pinned: None,
            noteBackgroundColor: None,
        }),
        author: author.to_string(),
        pageLocation: None,
        createdAt: Some(NOW),
        updatedAt: None,
    }
}

fn asked<S>(step: Step<S, Reply>) -> (Action, S) {
    match step {
        Step::Ask(action, after) => (action, after),
        Step::Done(reply) => panic!("done: {:?}", reply),
    }
}

fn done<S>(step: Step<S, Reply>) -> Reply {
    match step {
        Step::Done(reply) => reply,
        Step::Ask(action, _) => panic!("asks: {:?}", action),
    }
}

// ---------- notes ----------

fn new_note(author: &str) -> AddReq {
    AddReq {
        name: Some("list".to_string()),
        body: None,
        image: None,
        state: "{}".to_string(),
        author: author.to_string(),
        settings: SettingsReq::Missing,
        pageLocation: Some(PageLocation::Text("3".to_string())),
    }
}

#[test]
fn a_note_is_added_after_its_text() {
    let (action, after) = asked(note::add(&claims(USER), new_note(USER), NOW));
    match action {
        Action::InsertState(s) => assert_eq!(s.state, "{}"),
        other => panic!("{:?}", other),
    }
    let (action, after) = asked(after.resume(&app(), Event::Inserted(id(TEXT)), NOW));
    match action {
        Action::InsertNote(n) => {
            assert_eq!(n.author, USER);
            assert_eq!(n.settings.unwrap().pinned, Some(false));
            assert_eq!(n.labels.unwrap().len(), 0);
            assert_eq!(n.createdAt, Some(NOW));
            assert_eq!(n.pageLocation.as_deref(), Some("3"));
        }
        other => panic!("{:?}", other),
    }
    let (action, after) = asked(after.resume(&app(), Event::Inserted(id(NOTE)), NOW));
    match action {
        Action::UpdateState(state, StateChange::NoteId(n)) => {
            assert_eq!(state.to_hex(), TEXT);
            assert_eq!(n.to_hex(), NOTE);
        }
        other => panic!("{:?}", other),
    }
    match done(after.resume(&app(), Event::Done, NOW)).body {
        Body::NoteAdded { id, page_location } => {
            assert_eq!(id.to_hex(), NOTE);
            assert_eq!(page_location, "3");
        }
        other => panic!("{:?}", other),
    }
    assert_eq!(done(note::add(&claims(OTHER), new_note(USER), NOW)).status, 403);
}

#[test]
fn only_the_author_changes_a_note() {
    for (author, owned) in [(USER, true), (OTHER, false)] {
        let req = RenameReq { name: "new".to_string() };
        let (_, after) = asked(note::rename(&claims(USER), NOTE, req));
        let step = after.resume(&app(), Event::Note(Some(stored(author))), NOW);
        if owned {
            match asked(step).0 {
                Action::UpdateNote(n, NoteChange::Name(name)) => {
                    assert_eq!(n.to_hex(), NOTE);
                    assert_eq!(name, "new");
                }
                other => panic!("{:?}", other),
            }
        } else {
            assert_eq!(done(step).status, 403);
        }
    }
}

#[test]
fn a_setting_of_a_note_changes_alone() {
    let (_, after) = asked(note::pin_note(&claims(USER), NOTE, PinReq { condition: true }));
    match asked(after.resume(&app(), Event::Note(Some(stored(USER))), NOW)).0 {
        Action::UpdateNote(_, NoteChange::Settings(s)) => {
            assert_eq!(s.pinned, Some(true));
            assert_eq!(s.shared, Some(true));
        }
        other => panic!("{:?}", other),
    }
    let req = BgReq { noteBackgroundColor: "#abc".to_string() };
    let (_, after) = asked(note::change_bg(&claims(USER), NOTE, req));
    match asked(after.resume(&app(), Event::Note(Some(stored(USER))), NOW)).0 {
        Action::UpdateNote(_, NoteChange::Settings(s)) => {
            assert_eq!(s.noteBackgroundColor.as_deref(), Some("#abc"));
            assert_eq!(s.shared, Some(true));
            assert_eq!(s.pinned, None);
        }
        other => panic!("{:?}", other),
    }
    let req = ImageReq { image: "x.png".to_string() };
    let (_, after) = asked(note::change_image(&claims(USER), NOTE, req));
    match asked(after.resume(&app(), Event::Note(Some(stored(USER))), NOW)).0 {
        Action::UpdateNote(_, NoteChange::Image(image)) => assert_eq!(image, "x.png"),
        other => panic!("{:?}", other),
    }
}

#[test]
fn labels_of_a_note_come_and_go() {
    let req = AddLabelReq {
        labels: vec![USER.to_string(), "garbage".to_string(), OTHER.to_string()],
        noteId: NOTE.to_string(),
    };
    let (_, after) = asked(note::add_label(&claims(USER), req));
    match asked(after.resume(&app(), Event::Note(Some(stored(USER))), NOW)).0 {
        Action::UpdateNote(_, NoteChange::Labels(ids)) => {
            let hex: Vec<String> = ids.iter().map(|i| i.to_hex()).collect();
            assert_eq!(hex, vec![USER.to_string(), OTHER.to_string()]);
        }
        other => panic!("{:?}", other),
    }
    let (_, after) = asked(note::delete_label(&claims(USER), OTHER.to_string(), NOTE));
    match asked(after.resume(&app(), Event::Note(Some(stored(USER))), NOW)).0 {
        Action::UpdateNote(_, NoteChange::Labels(ids)) => {
            assert_eq!(ids.len(), 1);
            assert_eq!(ids[0].to_hex(), USER);
        }
        other => panic!("{:?}", other),
    }
    let (_, after) = asked(note::delete_all_labels(&claims(USER), NOTE));
    match asked(after.resume(&app(), Event::Note(Some(stored(USER))), NOW)).0 {
        Action::UpdateNote(_, NoteChange::Labels(ids)) => assert!(ids.is_empty()),
        other => panic!("{:?}", other),
    }
}

#[test]
fn a_note_is_edited_and_deleted_with_its_text() {
    let req = EditReq {
        _id: NOTE.to_string(),
        title: Some("t".to_string()),
        body: None,
        image: None,
        state: Some("new".to_string()),
        stateId: Some(TEXT.to_string()),
    };
    let (_, after) = asked(note::edit(&claims(USER), req));
    let (action, after) = asked(after.resume(&app(), Event::Note(Some(stored(USER))), NOW));
    match action {
        Action::UpdateNote(_, NoteChange::Contents { name, body, image }) => {
            assert_eq!(name.as_deref(), Some("t"));
            assert!(body.is_none() && image.is_none());
        }
        other => panic!("{:?}", other),
    }
    let (action, after) = asked(after.resume(&app(), Event::Done, NOW));
    match action {
        Action::UpdateState(s, StateChange::Text(text)) => {
            assert_eq!(s.to_hex(), TEXT);
            assert_eq!(text, "new");
        }
        other => panic!("{:?}", other),
    }
    assert_eq!(done(after.resume(&app(), Event::Done, NOW)).status, 200);
    let (_, after) = asked(note::delete(&claims(USER), NOTE));
    let (action, after) = asked(after.resume(&app(), Event::Note(Some(stored(USER))), NOW));
    match &action {
        Action::DeleteState(s) => assert_eq!(s.to_hex(), TEXT),
        other => panic!("{:?}", other),
    }
    let (action, _) = asked(after.resume(&app(), Event::Done, NOW));
    assert!(matches!(action, Action::DeleteNote(_)), "{:?}", action);
}

/// An edit of a note and of a text that the note does not name, up to the lookup
/// of the text.
fn edit_of_another_text(title: Option<&str>) -> ChangeNote {
    let req = EditReq {
        _id: NOTE.to_string(),
        title: title.map(|t| t.to_string()),
        body: None,
        image: None,
        state: Some("new".to_string()),
        stateId: Some(OTHER.to_string()),
    };
    let (_, after) = asked(note::edit(&claims(USER), req));
    let (action, after) = asked(after.resume(&app(), Event::Note(Some(stored(USER))), NOW));
    match action {
        Action::StateById(t) => assert_eq!(t.to_hex(), OTHER),
        other => panic!("{:?}", other),
    }
    after
}

fn text_of(note: Option<&str>) -> Event {
    let mut text = text();
    text.noteId = note.map(id);
    Event::State(Some(text))
}

fn writes_the_other_text(step: Step<ChangeNote, Reply>) {
    let (action, after) = asked(step);
    match action {
        Action::UpdateState(t, StateChange::Text(text)) => {
            assert_eq!(t.to_hex(), OTHER);
            assert_eq!(text, "new");
        }
        other => panic!("{:?}", other),
    }
    assert_eq!(done(after.resume(&app(), Event::Done, NOW)).status, 200);
}

#[test]
fn a_text_of_an_own_note_is_written() {
    // The text names the note, though the note does not name the text.
    let flow = edit_of_another_text(None);
    writes_the_other_text(flow.resume(&app(), text_of(Some(NOTE)), NOW));
    // The text names another note of the same author.
    let flow = edit_of_another_text(Some("t"));
    let (action, after) = asked(flow.resume(&app(), text_of(Some(OTHER)), NOW));
    match action {
        Action::NoteById(n) => assert_eq!(n.to_hex(), OTHER),
        other => panic!("{:?}", other),
    }
    let (action, after) = asked(after.resume(&app(), Event::Note(Some(stored(USER))), NOW));
    match action {
        Action::UpdateNote(n, _) => assert_eq!(n.to_hex(), NOTE),
        other => panic!("{:?}", other),
    }
    writes_the_other_text(after.resume(&app(), Event::Done, NOW));
}

#[test]
fn a_text_of_another_author_is_refused() {
    let flow = edit_of_another_text(Some("t"));
    let (_, after) = asked(flow.resume(&app(), text_of(Some(OTHER)), NOW));
    let step = after.resume(&app(), Event::Note(Some(stored("somebody"))), NOW);
    assert_eq!(done(step).status, 403);
    let flow = edit_of_another_text(Some("t"));
    let (_, after) = asked(flow.resume(&app(), text_of(Some(OTHER)), NOW));
    assert_eq!(done(after.resume(&app(), Event::Note(None), NOW)).status, 404);
    let flow = edit_of_another_text(Some("t"));
    assert_eq!(done(flow.resume(&app(), text_of(None), NOW)).status, 404);
    let flow = edit_of_another_text(Some("t"));
    assert_eq!(done(flow.resume(&app(), Event::Failed, NOW)).status, 500);
    // There is no such text: the rest is written.
    let flow = edit_of_another_text(Some("t"));
    let (action, after) = asked(flow.resume(&app(), Event::State(None), NOW));
    assert!(matches!(action, Action::UpdateNote(..)), "{:?}", action);
    assert_eq!(done(after.resume(&app(), Event::Done, NOW)).status, 200);
}

fn text() -> NoteState {
    NoteState {
        id: Some(id(TEXT)),
        state: "{}".to_string(),
        noteId: Some(id(NOTE)),
        createdAt: None,
        updatedAt: None,
    }
}

fn a_label(owner: &str) -> Label {
    Label {
        id: Some(id(OTHER)),
        name: "home".to_string(),
        color: "red".to_string(),
        fontColor: None,
        label_type: "default".to_string(),
        userId: id(owner),
        createdAt: Some(NOW),
        updatedAt: None,
    }
}

#[test]
fn a_note_is_found_with_its_text_and_labels() {
    let (_, after) = asked(note::get_note(&claims(USER), NOTE, Some(USER.to_string())));
    let (action, after) = asked(after.resume(&app(), Event::Note(Some(stored(USER))), NOW));
    assert!(matches!(action, Action::StateById(_)));
    let (action, after) = asked(after.resume(&app(), Event::State(Some(text())), NOW));
    assert!(matches!(action, Action::LabelById(_)));
    let (action, after) = asked(after.resume(&app(), Event::Label(None), NOW));
    assert!(matches!(action, Action::LabelById(_)));
    match done(after.resume(&app(), Event::Label(Some(a_label(USER))), NOW)).body {
        Body::NoteFound { note, state, labels } => {
            assert_eq!(note.author, USER);
            assert_eq!(state.unwrap().state, "{}");
            // The label that is gone is left out.
            assert_eq!(labels.unwrap().len(), 1);
        }
        other => panic!("{:?}", other),
    }
    let step = note::get_note(&claims(OTHER), NOTE, Some(USER.to_string()));
    assert_eq!(done(step).status, 403);
}

fn query(search: Option<&str>, limit: &str) -> NotesQuery {
    NotesQuery {
        limit: Some(limit.to_string()),
        pinnedNotesPage: None,
        search: search.map(|s| s.to_string()),
    }
}

#[test]
fn a_page_of_notes_and_the_pinned_ones() {
    let step = note::view(&claims(USER), "2", USER.to_string(), query(None, "10"));
    let (action, after) = asked(step);
    assert!(matches!(action, Action::CountNotes { pinned: false, .. }));
    let (action, after) = asked(after.resume(&app(), Event::Count(25), NOW));
    match action {
        Action::NotesPage { skip, limit, pinned, .. } => {
            assert_eq!(skip, 10);
            assert_eq!(limit, 10);
            assert!(!pinned);
        }
        other => panic!("{:?}", other),
    }
    let (action, after) = asked(after.resume(&app(), Event::Notes(vec![stored(USER)]), NOW));
    assert!(matches!(action, Action::CountNotes { pinned: true, .. }));
    let (_, after) = asked(after.resume(&app(), Event::Count(0), NOW));
    match done(after.resume(&app(), Event::Notes(Vec::new()), NOW)).body {
        Body::Notes { notes, pinned } => {
            assert_eq!(notes.totalDocs, 25);
            assert_eq!(notes.totalPages, 3);
            assert!(notes.hasNextPage);
            assert_eq!(notes.docs.len(), 1);
            assert!(!pinned.unwrap().hasNextPage);
        }
        other => panic!("{:?}", other),
    }
}

/// The notes of a page, as a store with these notes answers.
fn page_of(rows: &[(&str, i64, bool)], page: &str) -> (Vec<String>, i64, i64, bool) {
    let mut wanted: Vec<&(&str, i64, bool)> = rows.iter().filter(|r| !r.2).collect();
    wanted.sort_by_key(|r| r.1);
    let step = note::view(&claims(USER), page, USER.to_string(), query(None, "2"));
    let (_, after) = asked(step);
    let (action, after) =
        asked(after.resume(&app(), Event::Count(wanted.len() as u64), NOW));
    let docs = match action {
        Action::NotesPage { skip, limit, pinned: false, .. } => wanted
            .iter()
            .skip(skip as usize)
            .take(limit as usize)
            .map(|r| Note {
                name: Some(r.0.to_string()),
                createdAt: Some(UtcTime { secs: r.1, nanos: 0 }),
                ..stored(USER)
            })
            .collect(),
        other => panic!("{:?}", other),
    };
    let (_, after) = asked(after.resume(&app(), Event::Notes(docs), NOW));
    let (_, after) = asked(after.resume(&app(), Event::Count(0), NOW));
    match done(after.resume(&app(), Event::Notes(Vec::new()), NOW)).body {
        Body::Notes { notes, .. } => (
            notes.docs.into_iter().map(|n| n.name.unwrap()).collect(),
            notes.totalDocs,
            notes.totalPages,
            notes.hasNextPage,
        ),
        other => panic!("{:?}", other),
    }
}

#[test]
fn the_pages_hold_every_note_once() {
    let rows = [("c", 3, false), ("a", 1, false), ("p", 9, true), ("e", 5, false), ("b", 2, false), ("d", 4, false)];
    let mut shown = Vec::new();
    for page in ["1", "2", "3"] {
        let (docs, total, pages, more) = page_of(&rows, page);
        assert_eq!((total, pages), (5, 3));
        assert_eq!(more, page != "3");
        shown.extend(docs);
    }
    assert_eq!(shown, ["a", "b", "c", "d", "e"]);
    assert!(page_of(&rows, "4").0.is_empty());
    assert!(page_of(&rows, "9223372036854775807").0.is_empty());
}

#[test]
fn a_search_finds_exactly_what_matches() {
    let labelled = "6ab290bf9c189ae12d54b1aa";
    let make = |name: &str, body: Option<&str>, labels: &[&str], created: i64| Note {
        name: Some(name.to_string()),
        body: body.map(|b| b.to_string()),
        labels: Some(labels.iter().map(|l| id(l)).collect()),
        createdAt: Some(UtcTime { secs: created, nanos: 0 }),
        ..stored(USER)
    };
    let rows = vec![
        make("d", Some("to SHOP"), &[], 4),
        make("no", None, &[OTHER, OTHER], 1),
        make("c", None, &[OTHER, labelled], 3),
        make("Shop", None, &[], 2),
        make("none", Some("x"), &[], 5),
    ];
    let step = note::view(&claims(USER), "1", USER.to_string(), query(Some("sHop"), "2"));
    let (_, after) = asked(step);
    let mut step = after.resume(&app(), Event::Notes(rows), NOW);
    let reply = loop {
        match step {
            Step::Done(reply) => {
                break reply;
            }
            Step::Ask(Action::LabelById(l), after) => {
                let found = l.to_hex() == labelled;
                let label = Label { name: "the shop".to_string(), ..a_label(USER) };
                let event = Event::Label(if found { Some(label) } else { None });
                step = after.resume(&app(), event, NOW);
            }
            Step::Ask(other, _) => panic!("{:?}", other),
        }
    };
    match reply.body {
        Body::Notes { notes, .. } => {
            let names: Vec<String> = notes.docs.into_iter().map(|n| n.name.unwrap()).collect();
            assert_eq!(names, ["Shop", "c"]);
            assert_eq!((notes.totalDocs, notes.totalPages), (3, 2));
            assert!(notes.hasNextPage);
        }
        other => panic!("{:?}", other),
    }
}

#[test]
fn a_search_looks_at_names_and_labels() {
    let mut named = stored(USER);
    named.name = Some("Shopping".to_string());
    named.createdAt = Some(UtcTime { secs: 1, nanos: 0 });
    let mut other = stored(USER);
    other.name = Some("Else".to_string());
    other.body = None;
    other.state = None;
    let step = note::view(&claims(USER), "1", USER.to_string(), query(Some("SHOP"), "10"));
    let (action, after) = asked(step);
    assert!(matches!(action, Action::NotesOf(_)), "{:?}", action);
    let mut step = after.resume(&app(), Event::Notes(vec![other, named]), NOW);
    let reply = loop {
        match step {
            Step::Done(reply) => {
                break reply;
            }
            Step::Ask(action, after) => {
                assert!(matches!(action, Action::LabelById(_)), "{:?}", action);
                step = after.resume(&app(), Event::Label(None), NOW);
            }
        }
    };
    match reply.body {
        Body::Notes { notes, pinned } => {
            assert_eq!(notes.docs.len(), 1);
            assert_eq!(notes.docs[0].name.as_deref(), Some("Shopping"));
            assert!(pinned.is_none());
        }
        other => panic!("{:?}", other),
    }
}

// ---------- labels ----------

#[test]
fn a_label_takes_its_style_from_either_name() {
    let member = |name: &str, value: &str| (name.to_string(), Json::Text(value.to_string()));
    let body = Json::Object(vec![member("name", "home"), member("type", "invisible")]);
    match asked(label::add(&claims(USER), USER, &body, NOW)).0 {
        Action::InsertLabel(l) => {
            assert_eq!(l.name, "home");
            assert_eq!(l.color, "");
            assert_eq!(l.label_type, "invisible");
            assert_eq!(l.createdAt, Some(NOW));
        }
        other => panic!("{:?}", other),
    }
    let body =
        Json::Object(vec![member("selectedStyle", "default"), member("type", "invisible")]);
    match asked(label::add(&claims(USER), USER, &body, NOW)).0 {
        Action::InsertLabel(l) => assert_eq!(l.label_type, "default"),
        other => panic!("{:?}", other),
    }
    assert_eq!(done(label::add(&claims(OTHER), USER, &body, NOW)).status, 403);
}

#[test]
fn only_the_owner_changes_a_label() {
    let (_, after) = asked(label::delete(&claims(USER), OTHER));
    let step = after.resume(&app(), Event::Label(Some(a_label(OTHER))), NOW);
    assert_eq!(done(step).status, 403);
    let (_, after) = asked(label::delete(&claims(USER), OTHER));
    let (action, _) = asked(after.resume(&app(), Event::Label(Some(a_label(USER))), NOW));
    assert!(matches!(action, Action::DeleteLabel(_)));
    let req = label::EditReq {
        _id: OTHER.to_string(),
        name: "work".to_string(),
        color: "blue".to_string(),
        label_type: "default".to_string(),
    };
    let (_, after) = asked(label::edit(&claims(USER), req));
    match asked(after.resume(&app(), Event::Label(Some(a_label(USER))), NOW)).0 {
        Action::UpdateLabel { name, at, .. } => {
            assert_eq!(name, "work");
            assert_eq!(at, NOW);
        }
        other => panic!("{:?}", other),
    }
}

#[test]
fn labels_come_in_pages() {
    let q = label::ViewQuery {
        search: None,
        page: Some("2".to_string()),
        limit: Some("2".to_string()),
    };
    let (_, after) = asked(label::view(&claims(USER), USER, q));
    let (action, after) = asked(after.resume(&app(), Event::Count(5), NOW));
    assert!(matches!(action, Action::LabelsPage { skip: 2, limit: 2, .. }));
    match done(after.resume(&app(), Event::Labels(vec![a_label(USER)]), NOW)).body {
        Body::Labels(page) => {
            assert_eq!(page.totalDocs, 5);
            assert_eq!(page.totalPages, 3);
            assert_eq!(page.nextPage, Some(3));
            assert_eq!(page.prevPage, Some(1));
            assert!(page.hasNextPage && page.hasPrevPage);
        }
        other => panic!("{:?}", other),
    }
}

// ---------- sessions ----------

fn row(token: &str) -> Session {
    Session {
        id: Some(id(NOTE)),
        userId: id(USER),
        token: token.to_string(),
        expAt: NOW.secs,
        ip: "Unknown".to_string(),
        browserData: "ua".to_string(),
        location: "here".to_string(),
        countryFlag: String::new(),
        deviceData: Bson::Null,
        clientData: "ua".to_string(),
        createdAt: None,
    }
}

#[test]
fn sessions_are_listed_without_their_tokens() {
    let headers = Headers {
        authorization: Some("Bearer mine".to_string()),
        cookie: None,
        origin: None,
        referer: None,
        x_forwarded_for: None,
        x_real_ip: None,
        user_agent: None,
    };
    let (_, after) = asked(session::view(&claims(USER), &headers, USER.to_string()));
    let rows = Event::Sessions(vec![row("mine"), row("theirs")]);
    let reply = done(after.resume(&app(), rows, NOW));
    assert!(!format!("{:?}", reply).contains("theirs"));
    match reply.body {
        Body::Sessions(entries) => {
            assert!(entries[0].current);
            assert!(!entries[1].current);
        }
        other => panic!("{:?}", other),
    }
}

#[test]
fn sessions_are_ended_by_their_owner() {
    let (action, after) = asked(session::delete_one(&claims(USER), USER.to_string(), NOTE));
    assert!(matches!(action, Action::DeleteSession { .. }));
    assert_eq!(done(after.resume(&app(), Event::Done, NOW)).status, 200);
    assert_eq!(done(session::delete_one(&claims(OTHER), USER.to_string(), NOTE)).status, 403);
    let (action, _) = asked(session::delete_all(&claims(USER), USER.to_string()));
    assert!(matches!(action, Action::DeleteSessions { .. }));
}
