//! Pages of notes, and the search among them.

use vstd::prelude::*;
#[allow(unused_imports)]
use vstd::string::*;

use crate::config::AppState;
use crate::flow::{Action, Event, Flow, Step};
#[allow(unused_imports)]
use crate::handlers::note::labels_of;
use crate::http::{message, reply, Body, NotePage, Reply, BAD_REQUEST, NOT_FOUND, OK};
#[allow(unused_imports)]
use crate::http::{says, Cookies};
use crate::lists::reversed;
use crate::middleware::auth::require_owner;
#[allow(unused_imports)]
use crate::middleware::auth::forbidden;
use crate::models::Note;
use crate::object_id::ObjectId;
use crate::pagination::{page_count, read_number, skip_for, take_page, total_for};
#[allow(unused_imports)]
use crate::pagination::{number_of, page_of, pages_of, skip_of, total_of};
use crate::text::{contains, to_lowercase};
#[allow(unused_imports)]
use crate::text::{contains_text, lowercase};
use crate::time::UtcTime;
use crate::utils::crypto::Claims;
#[allow(unused_imports)]
use crate::utils::crypto::text_view;
use crate::utils::db_error;
#[allow(unused_imports)]
use crate::utils::db_failed;

verus! {

/// The query of a request for notes.
#[derive(Debug)]
pub struct NotesQuery {
    pub limit: Option<String>,
    pub pinnedNotesPage: Option<String>,
    pub search: Option<String>,
}

/// What a request for notes asks for.
#[derive(Debug)]
pub struct Wanted {
    pub author: String,
    pub page: i64,
    pub limit: i64,
    pub pinned_page: i64,
    pub search: String,
}

/// How many pinned notes stand on a page.
pub const PINNED_LIMIT: i64 = 10;

impl Wanted {
    /// Pages and limits count from one.
    pub open spec fn wf(self) -> bool {
        self.page >= 1 && self.limit >= 1 && self.pinned_page >= 1
    }
}

/// What a page of notes waits for.
pub enum ViewNotes {
    /// How many notes are not pinned.
    Count { wanted: Wanted },
    /// Those of the page.
    Docs { wanted: Wanted, total: i64 },
    /// How many notes are pinned.
    PinnedCount { wanted: Wanted, notes: NotePage },
    /// Those of the page.
    PinnedDocs { wanted: Wanted, notes: NotePage, total: i64 },
    /// All notes, to be searched.
    All { wanted: Wanted },
    /// The label `next` of the last note of `todo`. The notes of `todo` are
    /// still to be searched, the last one first.
    Label { wanted: Wanted, todo: Vec<Note>, next: usize, matched: Vec<Note> },
}

impl ViewNotes {
    /// What is asked for counts from one, and totals are not negative.
    pub open spec fn wf(self) -> bool {
        match self {
            ViewNotes::Count { wanted } => wanted.wf(),
            ViewNotes::Docs { wanted, total } => wanted.wf() && total >= 0,
            ViewNotes::PinnedCount { wanted, .. } => wanted.wf(),
            ViewNotes::PinnedDocs { wanted, total, .. } => wanted.wf() && total >= 0,
            ViewNotes::All { wanted } => wanted.wf(),
            ViewNotes::Label { wanted, .. } => wanted.wf(),
        }
    }
}

// ---------- the search ----------

/// `text` holds `search`, the case aside.
pub open spec fn holds(text: Seq<char>, search: Seq<char>) -> bool {
    contains_text(lowercase(text), lowercase(search))
}

/// The name or the body of a note holds `search`.
pub open spec fn text_matches(note: Note, search: Seq<char>) -> bool {
    (note.name is Some && holds(note.name->0@, search)) || (note.body is Some && holds(
        note.body->0@,
        search,
    ))
}

fn note_matches(note: &Note, needle: &str, Ghost(search): Ghost<Seq<char>>) -> (r: bool)
    requires
        needle@ == lowercase(search),
    ensures
        r == text_matches(*note, search),
{
    let by_name = match &note.name {
        Some(name) => contains(to_lowercase(name.as_str()).as_str(), needle),
        None => false,
    };
    let by_body = match &note.body {
        Some(body) => contains(to_lowercase(body.as_str()).as_str(), needle),
        None => false,
    };
    by_name || by_body
}

/// Searches the notes of `todo`, the last one first, as far as it goes without
/// looking at labels: the notes that match, and those that are left. Where
/// some are left, the last one has labels that decide.
pub open spec fn scanned(todo: Seq<Note>, matched: Seq<Note>, search: Seq<char>) -> (
    Seq<Note>,
    Seq<Note>,
)
    decreases todo.len(),
{
    if todo.len() == 0 {
        (matched, todo)
    } else if text_matches(todo.last(), search) {
        scanned(todo.drop_last(), matched.push(todo.last()), search)
    } else if labels_of(todo.last()).len() == 0 {
        scanned(todo.drop_last(), matched, search)
    } else {
        (matched, todo)
    }
}

/// `a` was created before `b`; what has no date comes first.
pub open spec fn created_before(a: Note, b: Note) -> bool {
    match (a.createdAt, b.createdAt) {
        (None, Some(_)) => true,
        (Some(x), Some(y)) => x.before(y),
        _ => false,
    }
}

/// `note` put into a list ordered by date, behind those of the same date.
pub open spec fn with_note(list: Seq<Note>, note: Note) -> Seq<Note>
    decreases list.len(),
{
    if list.len() > 0 && created_before(note, list.last()) {
        with_note(list.drop_last(), note).push(list.last())
    } else {
        list.push(note)
    }
}

/// The notes ordered by date, those of the same date in the order they had.
pub open spec fn by_date(notes: Seq<Note>) -> Seq<Note>
    decreases notes.len(),
{
    if notes.len() == 0 {
        notes
    } else {
        with_note(by_date(notes.drop_last()), notes.last())
    }
}

fn comes_before(a: &Note, b: &Note) -> (r: bool)
    ensures
        r == created_before(*a, *b),
{
    match (&a.createdAt, &b.createdAt) {
        (None, Some(_)) => true,
        (Some(x), Some(y)) => x.is_before(y),
        _ => false,
    }
}

fn insert_note(list: &mut Vec<Note>, note: Note)
    ensures
        final(list)@ == with_note(old(list)@, note),
{
    let ghost before = list@;
    let mut k = list.len();
    assert(before.take(k as int) =~= before);
    assert(before.skip(k as int) =~= Seq::empty());
    assert(with_note(before, note) =~= with_note(before.take(k as int), note) + before.skip(
        k as int,
    ));
    while k > 0 && comes_before(&note, &list[k - 1])
        invariant
            k <= list@.len(),
            list@ == before,
            with_note(before, note) == with_note(before.take(k as int), note) + before.skip(
                k as int,
            ),
        decreases k,
    {
        proof {
            let head = before.take(k as int);
            assert(head.last() == before[k - 1]);
            assert(head.drop_last() =~= before.take(k - 1));
            assert(with_note(head, note) == with_note(before.take(k - 1), note).push(before[k - 1]));
            assert(with_note(before.take(k - 1), note).push(before[k - 1]) + before.skip(k as int)
                =~= with_note(before.take(k - 1), note) + before.skip(k - 1));
        }
        k -= 1;
    }
    proof {
        let head = before.take(k as int);
        if k > 0 {
            assert(head.last() == before[k - 1]);
        }
        assert(with_note(head, note) == head.push(note));
        assert(before.insert(k as int, note) =~= head.push(note) + before.skip(k as int));
    }
    list.insert(k, note);
}

fn sort_by_date(notes: Vec<Note>) -> (r: Vec<Note>)
    ensures
        r@ == by_date(notes@),
{
    let ghost all = notes@;
    let mut left = reversed(notes);
    let mut r: Vec<Note> = Vec::new();
    assert(all.take(0) =~= Seq::empty());
    while left.len() > 0
        invariant
            left@.len() <= all.len(),
            left@ == all.reverse().take(left@.len() as int),
            r@ == by_date(all.take(all.len() - left@.len())),
        decreases left@.len(),
    {
        let ghost n = left@.len();
        match left.pop() {
            Some(note) => {
                proof {
                    let i = all.len() - n;
                    assert(note == all.reverse()[n - 1]);
                    assert(note == all[i]);
                    assert(all.take(i + 1).drop_last() =~= all.take(i));
                    assert(all.take(i + 1).last() == note);
                }
                insert_note(&mut r, note);
            },
            None => {},
        }
        assert(left@ =~= all.reverse().take(n - 1));
    }
    assert(all.take(all.len() as int) =~= all);
    r
}

/// No note stands behind one that was created after it.
pub open spec fn is_by_date(notes: Seq<Note>) -> bool {
    forall|i: int, j: int|
        0 <= i < j < notes.len() ==> !created_before(#[trigger] notes[j], #[trigger] notes[i])
}

proof fn lemma_with_note(list: Seq<Note>, note: Note)
    requires
        is_by_date(list),
    ensures
        is_by_date(with_note(list, note)),
        with_note(list, note).to_multiset() == list.to_multiset().insert(note),
        forall|i: int|
            0 <= i < with_note(list, note).len() ==> (#[trigger] with_note(list, note)[i]) == note
                || list.contains(with_note(list, note)[i]),
    decreases list.len(),
{
    broadcast use vstd::seq_lib::group_to_multiset_ensures;

    if list.len() > 0 && created_before(note, list.last()) {
        let rest = list.drop_last();
        let inner = with_note(rest, note);
        assert(is_by_date(rest)) by {
            assert forall|i: int, j: int| 0 <= i < j < rest.len() implies !created_before(
                #[trigger] rest[j],
                #[trigger] rest[i],
            ) by {
                assert(!created_before(list[j], list[i]));
            }
        }
        lemma_with_note(rest, note);
        let all = inner.push(list.last());
        assert forall|i: int| 0 <= i < all.len() implies (#[trigger] all[i]) == note
            || list.contains(all[i]) by {
            if i < inner.len() {
                assert(inner[i] == note || rest.contains(inner[i]));
                if rest.contains(inner[i]) {
                    let j = choose|j: int| 0 <= j < rest.len() && rest[j] == inner[i];
                    assert(list[j] == inner[i]);
                }
            } else {
                assert(list[list.len() - 1] == all[i]);
            }
        }
        assert forall|i: int, j: int| 0 <= i < j < all.len() implies !created_before(
            #[trigger] all[j],
            #[trigger] all[i],
        ) by {
            if j < inner.len() {
                assert(!created_before(inner[j], inner[i]));
            } else {
                assert(inner[i] == note || rest.contains(inner[i]));
                if rest.contains(inner[i]) {
                    let k = choose|k: int| 0 <= k < rest.len() && rest[k] == inner[i];
                    assert(!created_before(list[list.len() - 1], list[k]));
                }
            }
        }
        assert(list =~= rest.push(list.last()));
        assert(all.to_multiset() =~= list.to_multiset().insert(note));
    } else {
        let all = list.push(note);
        assert forall|i: int, j: int| 0 <= i < j < all.len() implies !created_before(
            #[trigger] all[j],
            #[trigger] all[i],
        ) by {
            if j < list.len() {
                assert(!created_before(list[j], list[i]));
            } else {
                assert(!created_before(list[list.len() - 1], list[i]) || i == list.len() - 1);
            }
        }
        assert forall|i: int| 0 <= i < all.len() implies (#[trigger] all[i]) == note
            || list.contains(all[i]) by {
            if i < list.len() {
                assert(list[i] == all[i]);
            }
        }
    }
}

/// A search gives every note that matches, once, ordered by date.
pub proof fn law_search_is_by_date(notes: Seq<Note>)
    ensures
        is_by_date(by_date(notes)),
        by_date(notes).to_multiset() == notes.to_multiset(),
    decreases notes.len(),
{
    broadcast use vstd::seq_lib::group_to_multiset_ensures;

    if notes.len() > 0 {
        law_search_is_by_date(notes.drop_last());
        lemma_with_note(by_date(notes.drop_last()), notes.last());
        assert(notes =~= notes.drop_last().push(notes.last()));
    }
}

/// The reply to a search.
pub open spec fn is_found(wanted: Wanted, matched: Seq<Note>, r: Step<ViewNotes, Reply>) -> bool {
    r matches Step::Done(
        Reply { status, cookies: Cookies::Nothing, body: Body::Notes { notes, pinned: None } },
    ) && status == OK && is_page(
        notes,
        page_of(by_date(matched), wanted.page as int, wanted.limit as int),
        total_of(matched.len() as int),
        wanted.page as int,
        wanted.limit as int,
    )
}

/// `page` holds `docs`, out of `total`.
pub open spec fn is_page(
    page: NotePage,
    docs: Seq<Note>,
    total: int,
    number: int,
    limit: int,
) -> bool {
    &&& page.docs@ == docs
    &&& page.totalDocs == total
    &&& page.totalPages == pages_of(total, limit)
    &&& page.hasNextPage == (number < pages_of(total, limit))
}

fn note_page(docs: Vec<Note>, total: i64, number: i64, limit: i64) -> (r: NotePage)
    requires
        total >= 0,
        limit >= 1,
    ensures
        is_page(r, docs@, total as int, number as int, limit as int),
        r.docs == docs,
{
    let pages = page_count(total, limit);
    NotePage { docs, totalDocs: total, hasNextPage: number < pages, totalPages: pages }
}

/// What follows once the notes of `todo` are left to be searched.
pub open spec fn search_step(
    wanted: Wanted,
    todo: Seq<Note>,
    matched: Seq<Note>,
    r: Step<ViewNotes, Reply>,
) -> bool {
    let (found, left) = scanned(todo, matched, wanted.search@);
    if left.len() == 0 {
        is_found(wanted, found, r)
    } else {
        r matches Step::Ask(
            Action::LabelById(label),
            ViewNotes::Label { wanted: w, todo: t, next, matched: m },
        ) && label == labels_of(left.last())[0] && w == wanted && t@ == left && next == 0 && m@
            == found
    }
}

fn search(wanted: Wanted, todo: Vec<Note>, matched: Vec<Note>) -> (r: Step<ViewNotes, Reply>)
    requires
        wanted.wf(),
    ensures
        search_step(wanted, todo@, matched@, r),
        r matches Step::Ask(_, after) ==> after.wf(),
{
    let needle = to_lowercase(wanted.search.as_str());
    let mut left = todo;
    let mut found = matched;
    let ghost start = (todo@, matched@);
    while left.len() > 0
        invariant
            needle@ == lowercase(wanted.search@),
            wanted.wf(),
            scanned(left@, found@, wanted.search@) == scanned(start.0, start.1, wanted.search@),
            start == (todo@, matched@),
        decreases left@.len(),
    {
        let last = left.len() - 1;
        let hit = note_matches(&left[last], needle.as_str(), Ghost(wanted.search@));
        let label: Option<ObjectId> = match &left[last].labels {
            Some(ids) => if ids.len() > 0 {
                Some(ids[0])
            } else {
                None
            },
            None => None,
        };
        if hit {
            match left.pop() {
                Some(note) => found.push(note),
                None => {},
            }
        } else {
            match label {
                Some(id) => {
                    return Step::Ask(
                        Action::LabelById(id),
                        ViewNotes::Label { wanted, todo: left, next: 0, matched: found },
                    );
                },
                None => {
                    let _ = left.pop();
                },
            }
        }
    }
    let total = total_for(found.len() as u64);
    let docs = take_page(sort_by_date(found), wanted.page, wanted.limit);
    let notes = note_page(docs, total, wanted.page, wanted.limit);
    Step::Done(reply(OK, Body::Notes { notes, pinned: None }))
}

// ---------- the handler ----------

/// What a request for notes asks for.
pub open spec fn is_wanted(wanted: Wanted, page: Seq<char>, author: Seq<char>, query: NotesQuery) -> bool {
    &&& wanted.author@ == author
    &&& wanted.page == number_of(Some(page), 1)
    &&& wanted.limit == number_of(text_view(query.limit), 10)
    &&& wanted.pinned_page == number_of(text_view(query.pinnedNotesPage), 1)
    &&& wanted.search@ == match query.search {
        Some(s) => s@,
        None => Seq::empty(),
    }
}

/// `r` is the first step of a request for notes.
pub open spec fn view_step(
    claims: Claims,
    page: Seq<char>,
    author: Seq<char>,
    query: NotesQuery,
    r: Step<ViewNotes, Reply>,
) -> bool {
    if claims.sub@ != author {
        r == Step::<ViewNotes, Reply>::Done(forbidden())
    } else if author.len() == 0 || page.len() == 0 {
        r == Step::<ViewNotes, Reply>::Done(says(NOT_FOUND, "Access denied!"))
    } else if query.search is Some && query.search->0@.len() > 0 {
        r matches Step::Ask(Action::NotesOf(a), ViewNotes::All { wanted }) && a@ == author
            && is_wanted(wanted, page, author, query)
    } else {
        r matches Step::Ask(
            Action::CountNotes { author: a, pinned: false },
            ViewNotes::Count { wanted },
        ) && a@ == author && is_wanted(wanted, page, author, query)
    }
}

/// Lists the notes of an author: a page of those that are not pinned and one
/// of those that are; or, where something is searched, a page of those whose
/// name, body or label holds it.
pub fn view(claims: &Claims, page: &str, author: String, query: NotesQuery) -> (r: Step<
    ViewNotes,
    Reply,
>)
    ensures
        r matches Step::Ask(_, after) ==> after.wf(),
        view_step(*claims, page@, author@, query, r),
{
    match require_owner(claims, author.as_str()) {
        Err(e) => {
            return Step::Done(e);
        },
        Ok(_) => {},
    }
    if author.as_str().unicode_len() == 0 || page.unicode_len() == 0 {
        return Step::Done(message(NOT_FOUND, "Access denied!"));
    }
    let page = read_number(Some(page), 1);
    let limit = match &query.limit {
        Some(s) => read_number(Some(s.as_str()), 10),
        None => read_number(None, 10),
    };
    let pinned_page = match &query.pinnedNotesPage {
        Some(s) => read_number(Some(s.as_str()), 1),
        None => read_number(None, 1),
    };
    let search = match query.search {
        Some(s) => s,
        None => String::new(),
    };
    let searching = search.as_str().unicode_len() > 0;
    let by = author.clone();
    let wanted = Wanted { author, page, limit, pinned_page, search };
    if searching {
        Step::Ask(Action::NotesOf(by), ViewNotes::All { wanted })
    } else {
        Step::Ask(Action::CountNotes { author: by, pinned: false }, ViewNotes::Count { wanted })
    }
}

/// The label of an answer holds `search`.
pub open spec fn label_matches(event: Event, search: Seq<char>) -> bool {
    match event {
        Event::Label(Some(label)) => holds(label.name@, search),
        _ => false,
    }
}

impl ViewNotes {
    /// `r` is what follows an answer. A label that cannot be found does not
    /// match.
    pub open spec fn next(self, event: Event, r: Step<ViewNotes, Reply>) -> bool {
        match self {
            ViewNotes::Count { wanted } => match event {
                Event::Count(n) => r == Step::<ViewNotes, Reply>::Ask(
                    Action::NotesPage {
                        author: wanted.author,
                        pinned: false,
                        skip: skip_of(wanted.page as int, wanted.limit as int) as u64,
                        limit: wanted.limit,
                    },
                    ViewNotes::Docs { wanted, total: total_of(n as int) as i64 },
                ),
                _ => r == Step::<ViewNotes, Reply>::Done(db_failed(BAD_REQUEST)),
            },
            ViewNotes::Docs { wanted, total } => match event {
                Event::Notes(docs) => r matches Step::Ask(
                    Action::CountNotes { author, pinned: true },
                    ViewNotes::PinnedCount { wanted: w, notes },
                ) && author == wanted.author && w == wanted && is_page(
                    notes,
                    docs@,
                    total as int,
                    wanted.page as int,
                    wanted.limit as int,
                ),
                _ => r == Step::<ViewNotes, Reply>::Done(db_failed(BAD_REQUEST)),
            },
            ViewNotes::PinnedCount { wanted, notes } => match event {
                Event::Count(n) => r == Step::<ViewNotes, Reply>::Ask(
                    Action::NotesPage {
                        author: wanted.author,
                        pinned: true,
                        skip: skip_of(wanted.pinned_page as int, PINNED_LIMIT as int) as u64,
                        limit: PINNED_LIMIT,
                    },
                    ViewNotes::PinnedDocs { wanted, notes, total: total_of(n as int) as i64 },
                ),
                _ => r == Step::<ViewNotes, Reply>::Done(db_failed(BAD_REQUEST)),
            },
            ViewNotes::PinnedDocs { wanted, notes, total } => match event {
                Event::Notes(docs) => r matches Step::Done(
                    Reply {
                        status,
                        cookies: Cookies::Nothing,
                        body: Body::Notes { notes: n, pinned: Some(p) },
                    },
                ) && status == OK && n == notes && is_page(
                    p,
                    docs@,
                    total as int,
                    wanted.pinned_page as int,
                    PINNED_LIMIT as int,
                ),
                _ => r == Step::<ViewNotes, Reply>::Done(db_failed(BAD_REQUEST)),
            },
            ViewNotes::All { wanted } => match event {
                Event::Notes(notes) => search_step(wanted, notes@.reverse(), Seq::empty(), r),
                _ => r == Step::<ViewNotes, Reply>::Done(db_failed(BAD_REQUEST)),
            },
            ViewNotes::Label { wanted, todo, next, matched } => if todo@.len() == 0 {
                search_step(wanted, todo@, matched@, r)
            } else if label_matches(event, wanted.search@) {
                search_step(wanted, todo@.drop_last(), matched@.push(todo@.last()), r)
            } else if next + 1 < labels_of(todo@.last()).len() {
                r == Step::<ViewNotes, Reply>::Ask(
                    Action::LabelById(labels_of(todo@.last())[next + 1]),
                    ViewNotes::Label { wanted, todo, next: (next + 1) as usize, matched },
                )
            } else {
                search_step(wanted, todo@.drop_last(), matched@, r)
            },
        }
    }
}

impl Flow for ViewNotes {
    type Out = Reply;

    open spec fn ready(self) -> bool {
        self.wf()
    }

    fn resume(self, app: &AppState, event: Event, now: UtcTime) -> (r: Step<ViewNotes, Reply>)
        ensures
            self.next(event, r),
    {
        match self {
            ViewNotes::Count { wanted } => match event {
                Event::Count(n) => Step::Ask(
                    Action::NotesPage {
                        author: wanted.author.clone(),
                        pinned: false,
                        skip: skip_for(wanted.page, wanted.limit),
                        limit: wanted.limit,
                    },
                    ViewNotes::Docs { wanted, total: total_for(n) },
                ),
                _ => Step::Done(db_error(BAD_REQUEST)),
            },
            ViewNotes::Docs { wanted, total } => match event {
                Event::Notes(docs) => {
                    let notes = note_page(docs, total, wanted.page, wanted.limit);
                    Step::Ask(
                        Action::CountNotes { author: wanted.author.clone(), pinned: true },
                        ViewNotes::PinnedCount { wanted, notes },
                    )
                },
                _ => Step::Done(db_error(BAD_REQUEST)),
            },
            ViewNotes::PinnedCount { wanted, notes } => match event {
                Event::Count(n) => Step::Ask(
                    Action::NotesPage {
                        author: wanted.author.clone(),
                        pinned: true,
                        skip: skip_for(wanted.pinned_page, PINNED_LIMIT),
                        limit: PINNED_LIMIT,
                    },
                    ViewNotes::PinnedDocs { wanted, notes, total: total_for(n) },
                ),
                _ => Step::Done(db_error(BAD_REQUEST)),
            },
            ViewNotes::PinnedDocs { wanted, notes, total } => match event {
                Event::Notes(docs) => {
                    let pinned = note_page(docs, total, wanted.pinned_page, PINNED_LIMIT);
                    Step::Done(reply(OK, Body::Notes { notes, pinned: Some(pinned) }))
                },
                _ => Step::Done(db_error(BAD_REQUEST)),
            },
            ViewNotes::All { wanted } => match event {
                Event::Notes(notes) => search(wanted, reversed(notes), Vec::new()),
                _ => Step::Done(db_error(BAD_REQUEST)),
            },
            ViewNotes::Label { wanted, todo, next, matched } => {
                let mut todo = todo;
                let mut matched = matched;
                if todo.len() == 0 {
                    return search(wanted, todo, matched);
                }
                let hit = match event {
                    Event::Label(Some(label)) => contains(
                        to_lowercase(label.name.as_str()).as_str(),
                        to_lowercase(wanted.search.as_str()).as_str(),
                    ),
                    _ => false,
                };
                let last = todo.len() - 1;
                let following: Option<ObjectId> = match &todo[last].labels {
                    Some(ids) => if next < ids.len() && next + 1 < ids.len() {
                        Some(ids[next + 1])
                    } else {
                        None
                    },
                    None => None,
                };
                if hit {
                    match todo.pop() {
                        Some(note) => matched.push(note),
                        None => {},
                    }
                    return search(wanted, todo, matched);
                }
                match following {
                    Some(id) => Step::Ask(
                        Action::LabelById(id),
                        ViewNotes::Label { wanted, todo, next: next + 1, matched },
                    ),
                    None => {
                        let _ = todo.pop();
                        search(wanted, todo, matched)
                    },
                }
            },
        }
    }
}

} // verus!
