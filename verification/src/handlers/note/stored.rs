//! What the pages of stored notes are.

use vstd::prelude::*;
#[allow(unused_imports)]
use vstd::string::*;

#[allow(unused_imports)]
use crate::flow::{Action, Event, Step};
#[allow(unused_imports)]
use crate::handlers::note::labels_of;
#[allow(unused_imports)]
use crate::handlers::note::pages::{by_date, created_before, holds, is_found, is_page, is_wanted, label_matches, law_search_is_by_date, scanned, search_step, text_matches, view_step, with_note, NotesQuery, ViewNotes, Wanted, PINNED_LIMIT};
#[allow(unused_imports)]
use crate::http::{Body, Reply, OK};
#[allow(unused_imports)]
use crate::models::{Label, Note};
#[allow(unused_imports)]
use crate::object_id::ObjectId;
#[allow(unused_imports)]
use crate::pagination::{first_pages, law_pages_hold_every_item_once, number_of, page_of, pages_of};
#[allow(unused_imports)]
use crate::utils::crypto::{text_view, Claims};

verus! {

/// A note that is pinned.
pub open spec fn is_pinned(note: Note) -> bool {
    note.settings matches Some(s) && s.pinned == Some(true)
}

/// Those of the stored notes that are of the author and pinned, or not.
pub open spec fn notes_of(rows: Seq<Note>, author: Seq<char>, pinned: bool) -> Seq<Note>
    decreases rows.len(),
{
    if rows.len() == 0 {
        rows
    } else {
        let earlier = notes_of(rows.drop_last(), author, pinned);
        if rows.last().author@ == author && is_pinned(rows.last()) == pinned {
            earlier.push(rows.last())
        } else {
            earlier
        }
    }
}

/// `items` from index `skip` on, `limit` at most.
pub open spec fn part_of(items: Seq<Note>, skip: int, limit: int) -> Seq<Note> {
    let from = if skip <= items.len() {
        skip
    } else {
        items.len() as int
    };
    let to = if from + limit <= items.len() {
        from + limit
    } else {
        items.len() as int
    };
    items.subrange(from, to)
}

/// `event` is what the stored notes answer.
pub open spec fn answers(rows: Seq<Note>, action: Action, event: Event) -> bool {
    match action {
        Action::CountNotes { author, pinned } => event matches Event::Count(n) && n == notes_of(
            rows,
            author@,
            pinned,
        ).len(),
        Action::NotesPage { author, pinned, skip, limit } => event matches Event::Notes(docs)
            && docs@ == part_of(
            by_date(notes_of(rows, author@, pinned)),
            skip as int,
            limit as int,
        ),
        _ => false,
    }
}

/// `after` follows `before` once the stored notes have answered.
pub open spec fn follows(
    rows: Seq<Note>,
    before: Step<ViewNotes, Reply>,
    event: Event,
    after: Step<ViewNotes, Reply>,
) -> bool {
    before matches Step::Ask(action, state) && answers(rows, action, event) && state.next(
        event,
        after,
    )
}

/// The reply to a request for a page without a search counts the notes of the
/// author that are not pinned and has the page of them, oldest first; none of
/// them is pinned. The pinned ones have pages of their own.
pub proof fn law_view_gives_the_page(
    rows: Seq<Note>,
    claims: Claims,
    page: Seq<char>,
    author: Seq<char>,
    query: NotesQuery,
    steps: Seq<Step<ViewNotes, Reply>>,
    events: Seq<Event>,
)
    requires
        rows.len() <= i64::MAX,
        claims.sub@ == author,
        author.len() > 0,
        page.len() > 0,
        query.search is None || query.search->0@.len() == 0,
        steps.len() == 5,
        view_step(claims, page, author, query, steps[0]),
        follows(rows, steps[0], events[0], steps[1]),
        follows(rows, steps[1], events[1], steps[2]),
        follows(rows, steps[2], events[2], steps[3]),
        follows(rows, steps[3], events[3], steps[4]),
    ensures
        ({
            let number = number_of(Some(page), 1);
            let limit = number_of(text_view(query.limit), 10);
            let pinned_number = number_of(text_view(query.pinnedNotesPage), 1);
            let free = by_date(notes_of(rows, author, false));
            let pinned = by_date(notes_of(rows, author, true));
            &&& steps[4] matches Step::Done(
                Reply { status, body: Body::Notes { notes, pinned: Some(p) }, .. },
            ) && status == OK && is_page(
                notes,
                page_of(free, number, limit),
                free.len() as int,
                number,
                limit,
            ) && is_page(
                p,
                page_of(pinned, pinned_number, PINNED_LIMIT as int),
                pinned.len() as int,
                pinned_number,
                PINNED_LIMIT as int,
            ) && forall|i: int|
                0 <= i < notes.docs@.len() ==> !is_pinned(#[trigger] notes.docs@[i])
                    && notes.docs@[i].author@ == author
        }),
{
    let free = notes_of(rows, author, false);
    let pinned = notes_of(rows, author, true);
    let number = number_of(Some(page), 1);
    let limit = number_of(text_view(query.limit), 10);
    lemma_notes_of(rows, author, false);
    lemma_notes_of(rows, author, true);
    let docs = page_of(by_date(free), number, limit);
    let items = by_date(free);
    assert forall|i: int| 0 <= i < docs.len() implies !is_pinned(#[trigger] docs[i])
        && docs[i].author@ == author by {
        assert(exists|k: int| 0 <= k < items.len() && items[k] == docs[i]);
        let k = choose|k: int| 0 <= k < items.len() && items[k] == docs[i];
        assert(items.contains(items[k]));
    }
}

proof fn lemma_picked(rows: Seq<Note>, author: Seq<char>, pinned: bool)
    ensures
        notes_of(rows, author, pinned).len() <= rows.len(),
        forall|i: int|
            0 <= i < notes_of(rows, author, pinned).len() ==> rows.contains(
                #[trigger] notes_of(rows, author, pinned)[i],
            ) && notes_of(rows, author, pinned)[i].author@ == author && is_pinned(
                notes_of(rows, author, pinned)[i],
            ) == pinned,
    decreases rows.len(),
{
    if rows.len() > 0 {
        let earlier = notes_of(rows.drop_last(), author, pinned);
        let items = notes_of(rows, author, pinned);
        lemma_picked(rows.drop_last(), author, pinned);
        assert forall|i: int| 0 <= i < items.len() implies rows.contains(#[trigger] items[i])
            && items[i].author@ == author && is_pinned(items[i]) == pinned by {
            if i < earlier.len() {
                assert(items[i] == earlier[i]);
                let j = choose|j: int|
                    0 <= j < rows.drop_last().len() && rows.drop_last()[j] == earlier[i];
                assert(rows[j] == items[i]);
            } else {
                assert(rows[rows.len() - 1] == items[i]);
            }
        }
    }
}

/// The order keeps the number of notes; each is of the author, and pinned or not
/// as asked.
pub proof fn lemma_notes_of(rows: Seq<Note>, author: Seq<char>, pinned: bool)
    ensures
        by_date(notes_of(rows, author, pinned)).len() == notes_of(rows, author, pinned).len(),
        notes_of(rows, author, pinned).len() <= rows.len(),
        forall|n: Note| #[trigger]
            by_date(notes_of(rows, author, pinned)).contains(n) ==> n.author@ == author
                && is_pinned(n) == pinned,
{
    broadcast use vstd::seq_lib::group_to_multiset_ensures;

    let items = notes_of(rows, author, pinned);
    let sorted = by_date(items);
    lemma_picked(rows, author, pinned);
    law_search_is_by_date(items);
    assert(sorted.to_multiset().len() == sorted.len());
    assert(items.to_multiset().len() == items.len());
    assert forall|n: Note| #[trigger] sorted.contains(n) implies n.author@ == author && is_pinned(n)
        == pinned by {
        assert(sorted.to_multiset().contains(n));
        assert(items.contains(n));
    }
}

/// No two notes were created at the same time.
pub open spec fn distinct_dates(notes: Seq<Note>) -> bool {
    forall|i: int, j: int|
        0 <= i < j < notes.len() ==> (#[trigger] notes[i]).createdAt != (
        #[trigger] notes[j]).createdAt
}

proof fn lemma_with_note_inserts(list: Seq<Note>, note: Note) -> (k: int)
    ensures
        0 <= k <= list.len(),
        with_note(list, note) == list.insert(k, note),
    decreases list.len(),
{
    if list.len() > 0 && created_before(note, list.last()) {
        let k = lemma_with_note_inserts(list.drop_last(), note);
        assert(list.drop_last().insert(k, note).push(list.last()) =~= list.insert(k, note));
        k
    } else {
        assert(list.push(note) =~= list.insert(list.len() as int, note));
        list.len() as int
    }
}

proof fn lemma_distinct_dates(notes: Seq<Note>)
    requires
        distinct_dates(notes),
    ensures
        distinct_dates(by_date(notes)),
    decreases notes.len(),
{
    broadcast use vstd::seq_lib::group_to_multiset_ensures;

    if notes.len() > 0 {
        let note = notes.last();
        let rest = notes.drop_last();
        let list = by_date(rest);
        assert forall|i: int, j: int| 0 <= i < j < rest.len() implies (#[trigger] rest[i]).createdAt
            != (#[trigger] rest[j]).createdAt by {
            assert(notes[i].createdAt != notes[j].createdAt);
        }
        lemma_distinct_dates(rest);
        law_search_is_by_date(rest);
        assert forall|i: int| 0 <= i < list.len() implies (#[trigger] list[i]).createdAt
            != note.createdAt by {
            assert(list.to_multiset().contains(list[i]));
            assert(rest.contains(list[i]));
            let j = choose|j: int| 0 <= j < rest.len() && rest[j] == list[i];
            assert(notes[j].createdAt != notes[notes.len() - 1].createdAt);
        }
        let k = lemma_with_note_inserts(list, note);
        let all = list.insert(k, note);
        assert forall|i: int, j: int| 0 <= i < j < all.len() implies (#[trigger] all[i]).createdAt
            != (#[trigger] all[j]).createdAt by {
            let a = if i < k {
                i
            } else {
                i - 1
            };
            let b = if j < k {
                j
            } else {
                j - 1
            };
            if i != k {
                assert(all[i] == list[a]);
            }
            if j != k {
                assert(all[j] == list[b]);
            }
        }
    }
}

/// The pages of the notes of an author that are not pinned hold each of those
/// notes once; a page behind the last holds none. Where no two of them were
/// created at the same time, each stands behind those created before it.
pub proof fn law_pages_hold_the_notes(rows: Seq<Note>, author: Seq<char>, limit: int, page: int)
    requires
        rows.len() <= i64::MAX,
        limit >= 1,
        page >= 1,
    ensures
        ({
            let free = notes_of(rows, author, false);
            let shown = first_pages(by_date(free), limit, pages_of(free.len() as int, limit));
            &&& shown == by_date(free)
            &&& shown.to_multiset() == free.to_multiset()
            &&& distinct_dates(free) ==> forall|i: int, j: int|
                0 <= i < j < shown.len() ==> created_before(#[trigger] shown[i], #[trigger] shown[j])
            &&& page > pages_of(free.len() as int, limit) ==> page_of(
                by_date(free),
                page,
                limit,
            ).len() == 0
        }),
{
    let free = notes_of(rows, author, false);
    let shown = by_date(free);
    lemma_notes_of(rows, author, false);
    law_pages_hold_every_item_once(shown, limit, page);
    law_search_is_by_date(free);
    if distinct_dates(free) {
        lemma_distinct_dates(free);
        assert forall|i: int, j: int| 0 <= i < j < shown.len() implies created_before(
            #[trigger] shown[i],
            #[trigger] shown[j],
        ) by {
            assert(!created_before(shown[j], shown[i]));
            assert(shown[i].createdAt != shown[j].createdAt);
        }
    }
}

// ---------- the search ----------

/// Those of the stored notes that are of the author.
pub open spec fn all_notes_of(rows: Seq<Note>, author: Seq<char>) -> Seq<Note>
    decreases rows.len(),
{
    if rows.len() == 0 {
        rows
    } else if rows.last().author@ == author {
        all_notes_of(rows.drop_last(), author).push(rows.last())
    } else {
        all_notes_of(rows.drop_last(), author)
    }
}

/// The label of a note at `i` is stored, and its name holds `search`.
pub open spec fn label_holds(
    labels: Map<ObjectId, Label>,
    note: Note,
    i: int,
    search: Seq<char>,
) -> bool {
    labels.dom().contains(labels_of(note)[i]) && holds(labels[labels_of(note)[i]].name@, search)
}

/// The name, the body or the name of a label of a note holds `search`.
pub open spec fn is_match(labels: Map<ObjectId, Label>, note: Note, search: Seq<char>) -> bool {
    text_matches(note, search) || exists|i: int|
        0 <= i < labels_of(note).len() && #[trigger] label_holds(labels, note, i, search)
}

/// The notes that match, in their order.
pub open spec fn matching(
    labels: Map<ObjectId, Label>,
    notes: Seq<Note>,
    search: Seq<char>,
) -> Seq<Note>
    decreases notes.len(),
{
    if notes.len() == 0 {
        notes
    } else if is_match(labels, notes[0], search) {
        seq![notes[0]] + matching(labels, notes.skip(1), search)
    } else {
        matching(labels, notes.skip(1), search)
    }
}

/// `event` is what the stored notes and labels answer to a search.
pub open spec fn answers_search(
    rows: Seq<Note>,
    labels: Map<ObjectId, Label>,
    action: Action,
    event: Event,
) -> bool {
    match action {
        Action::NotesOf(author) => event matches Event::Notes(docs) && docs@ == all_notes_of(
            rows,
            author@,
        ),
        Action::LabelById(id) => event matches Event::Label(found) && found == (
        if labels.dom().contains(id) {
            Some(labels[id])
        } else {
            None
        }),
        _ => false,
    }
}

/// `after` follows `before` once the stored notes and labels have answered.
pub open spec fn search_follows(
    rows: Seq<Note>,
    labels: Map<ObjectId, Label>,
    before: Step<ViewNotes, Reply>,
    event: Event,
    after: Step<ViewNotes, Reply>,
) -> bool {
    before matches Step::Ask(action, state) && answers_search(rows, labels, action, event)
        && state.next(event, after)
}

/// A search on its way: what it has found and what it will find are `found`.
pub open spec fn is_searching(
    labels: Map<ObjectId, Label>,
    found: Seq<Note>,
    wanted: Wanted,
    step: Step<ViewNotes, Reply>,
) -> bool {
    match step {
        Step::Ask(action, ViewNotes::Label { wanted: w, todo, next, matched }) => {
            let note = todo@.last();
            &&& w == wanted
            &&& todo@.len() > 0
            &&& !text_matches(note, wanted.search@)
            &&& next < labels_of(note).len()
            &&& action == Action::LabelById(labels_of(note)[next as int])
            &&& forall|i: int|
                0 <= i < next ==> !#[trigger] label_holds(labels, note, i, wanted.search@)
            &&& matched@ + matching(labels, todo@.reverse(), wanted.search@) == found
        },
        Step::Ask(_, _) => false,
        Step::Done(_) => is_found(wanted, found, step),
    }
}

/// Taking the note that is searched next.
proof fn lemma_next_searched(
    labels: Map<ObjectId, Label>,
    todo: Seq<Note>,
    matched: Seq<Note>,
    search: Seq<char>,
)
    requires
        todo.len() > 0,
    ensures
        matched + matching(labels, todo.reverse(), search) == (if is_match(
            labels,
            todo.last(),
            search,
        ) {
            matched.push(todo.last()) + matching(labels, todo.drop_last().reverse(), search)
        } else {
            matched + matching(labels, todo.drop_last().reverse(), search)
        }),
{
    let all = todo.reverse();
    assert(all[0] == todo.last());
    assert(all.skip(1) =~= todo.drop_last().reverse());
    let rest = matching(labels, all.skip(1), search);
    assert(matched + (seq![todo.last()] + rest) =~= matched.push(todo.last()) + rest);
}

proof fn lemma_scanned(
    labels: Map<ObjectId, Label>,
    todo: Seq<Note>,
    matched: Seq<Note>,
    search: Seq<char>,
)
    ensures
        ({
            let (found, left) = scanned(todo, matched, search);
            &&& found + matching(labels, left.reverse(), search) == matched + matching(
                labels,
                todo.reverse(),
                search,
            )
            &&& left.len() > 0 ==> !text_matches(left.last(), search) && labels_of(
                left.last(),
            ).len() > 0
        }),
    decreases todo.len(),
{
    if todo.len() > 0 {
        lemma_next_searched(labels, todo, matched, search);
        if text_matches(todo.last(), search) {
            lemma_scanned(labels, todo.drop_last(), matched.push(todo.last()), search);
        } else if labels_of(todo.last()).len() == 0 {
            lemma_scanned(labels, todo.drop_last(), matched, search);
        }
    }
}

proof fn lemma_search_step(
    labels: Map<ObjectId, Label>,
    wanted: Wanted,
    todo: Seq<Note>,
    matched: Seq<Note>,
    r: Step<ViewNotes, Reply>,
)
    requires
        search_step(wanted, todo, matched, r),
    ensures
        is_searching(
            labels,
            matched + matching(labels, todo.reverse(), wanted.search@),
            wanted,
            r,
        ),
{
    let (found, left) = scanned(todo, matched, wanted.search@);
    lemma_scanned(labels, todo, matched, wanted.search@);
    if left.len() == 0 {
        assert(left.reverse() =~= Seq::empty());
        assert(found + matching(labels, left.reverse(), wanted.search@) =~= found);
    }
}

proof fn lemma_searching(
    rows: Seq<Note>,
    labels: Map<ObjectId, Label>,
    found: Seq<Note>,
    wanted: Wanted,
    before: Step<ViewNotes, Reply>,
    event: Event,
    after: Step<ViewNotes, Reply>,
)
    requires
        is_searching(labels, found, wanted, before),
        search_follows(rows, labels, before, event, after),
    ensures
        is_searching(labels, found, wanted, after),
{
    if let Step::Ask(action, ViewNotes::Label { wanted: w, todo, next, matched }) = before {
        let note = todo@.last();
        let search = wanted.search@;
        lemma_next_searched(labels, todo@, matched@, search);
        assert(label_matches(event, search) == label_holds(labels, note, next as int, search));
        if label_matches(event, search) {
            assert(is_match(labels, note, search));
            lemma_search_step(labels, wanted, todo@.drop_last(), matched@.push(note), after);
        } else if next + 1 < labels_of(note).len() {
            assert(note.labels is Some && labels_of(note).len() == note.labels->0.len());
            assert forall|i: int| 0 <= i < next + 1 implies !#[trigger] label_holds(
                labels,
                note,
                i,
                search,
            ) by {
                if i < next {
                    assert(!label_holds(labels, note, i, search));
                }
            }
        } else {
            assert(!is_match(labels, note, search));
            lemma_search_step(labels, wanted, todo@.drop_last(), matched@, after);
        }
    }
}

proof fn lemma_search_goes_on(
    rows: Seq<Note>,
    labels: Map<ObjectId, Label>,
    claims: Claims,
    page: Seq<char>,
    author: Seq<char>,
    query: NotesQuery,
    steps: Seq<Step<ViewNotes, Reply>>,
    events: Seq<Event>,
    n: int,
) -> (wanted: Wanted)
    requires
        claims.sub@ == author,
        author.len() > 0,
        page.len() > 0,
        query.search is Some && query.search->0@.len() > 0,
        steps.len() == events.len() + 1,
        view_step(claims, page, author, query, steps[0]),
        forall|i: int|
            0 <= i < events.len() ==> search_follows(
                rows,
                labels,
                steps[i],
                #[trigger] events[i],
                steps[i + 1],
            ),
        1 <= n < steps.len(),
    ensures
        is_wanted(wanted, page, author, query),
        is_searching(
            labels,
            matching(labels, all_notes_of(rows, author), query.search->0@),
            wanted,
            steps[n],
        ),
    decreases n,
{
    let search = query.search->0@;
    let notes = all_notes_of(rows, author);
    assert(search_follows(rows, labels, steps[n - 1], events[n - 1], steps[n - 1 + 1]));
    if n == 1 {
        let wanted = steps[0]->Ask_1->All_wanted;
        lemma_search_step(labels, wanted, notes.reverse(), Seq::empty(), steps[1]);
        assert(notes.reverse().reverse() =~= notes);
        assert(Seq::<Note>::empty() + matching(labels, notes, search) =~= matching(
            labels,
            notes,
            search,
        ));
        wanted
    } else {
        let wanted = lemma_search_goes_on(
            rows,
            labels,
            claims,
            page,
            author,
            query,
            steps,
            events,
            n - 1,
        );
        lemma_searching(
            rows,
            labels,
            matching(labels, notes, search),
            wanted,
            steps[n - 1],
            events[n - 1],
            steps[n],
        );
        wanted
    }
}

/// The notes that match are those among the notes that do.
pub proof fn lemma_matching(labels: Map<ObjectId, Label>, notes: Seq<Note>, search: Seq<char>)
    ensures
        matching(labels, notes, search).len() <= notes.len(),
        forall|n: Note| #[trigger]
            matching(labels, notes, search).contains(n) <==> notes.contains(n) && is_match(
                labels,
                n,
                search,
            ),
    decreases notes.len(),
{
    if notes.len() > 0 {
        let first = notes[0];
        let rest = notes.skip(1);
        let tail = matching(labels, rest, search);
        let all = matching(labels, notes, search);
        lemma_matching(labels, rest, search);
        assert forall|n: Note| #[trigger] all.contains(n) <==> notes.contains(n) && is_match(
            labels,
            n,
            search,
        ) by {
            if all.contains(n) {
                let i = choose|i: int| 0 <= i < all.len() && all[i] == n;
                if is_match(labels, first, search) && i == 0 {
                    assert(notes[0] == n);
                } else {
                    let j = if is_match(labels, first, search) {
                        i - 1
                    } else {
                        i
                    };
                    assert(tail[j] == n);
                    assert(tail.contains(n));
                    let k = choose|k: int| 0 <= k < rest.len() && rest[k] == n;
                    assert(notes[k + 1] == n);
                }
            }
            if notes.contains(n) && is_match(labels, n, search) {
                let i = choose|i: int| 0 <= i < notes.len() && notes[i] == n;
                if i == 0 {
                    assert(all[0] == n);
                } else {
                    assert(rest[i - 1] == n);
                    assert(tail.contains(n));
                    let k = choose|k: int| 0 <= k < tail.len() && tail[k] == n;
                    if is_match(labels, first, search) {
                        assert(all[k + 1] == n);
                    } else {
                        assert(all[k] == n);
                    }
                }
            }
        }
    }
}

/// A search that has come to its end replies with a page of exactly those notes
/// of the author whose name, body or label holds what is searched, the case
/// aside, oldest first, and counts them.
pub proof fn law_search_finds_the_matching_notes(
    rows: Seq<Note>,
    labels: Map<ObjectId, Label>,
    claims: Claims,
    page: Seq<char>,
    author: Seq<char>,
    query: NotesQuery,
    steps: Seq<Step<ViewNotes, Reply>>,
    events: Seq<Event>,
)
    requires
        rows.len() <= i64::MAX,
        claims.sub@ == author,
        author.len() > 0,
        page.len() > 0,
        query.search is Some && query.search->0@.len() > 0,
        steps.len() == events.len() + 1,
        view_step(claims, page, author, query, steps[0]),
        forall|i: int|
            0 <= i < events.len() ==> search_follows(
                rows,
                labels,
                steps[i],
                #[trigger] events[i],
                steps[i + 1],
            ),
        steps.last() is Done,
    ensures
        ({
            let notes = all_notes_of(rows, author);
            let found = matching(labels, notes, query.search->0@);
            let number = number_of(Some(page), 1);
            let limit = number_of(text_view(query.limit), 10);
            &&& steps.last() matches Step::Done(
                Reply { status, body: Body::Notes { notes: shown, pinned: None }, .. },
            ) && status == OK && is_page(
                shown,
                page_of(by_date(found), number, limit),
                found.len() as int,
                number,
                limit,
            )
            &&& by_date(found).to_multiset() == found.to_multiset()
            &&& forall|n: Note| #[trigger]
                found.contains(n) <==> notes.contains(n) && is_match(
                    labels,
                    n,
                    query.search->0@,
                )
        }),
{
    let notes = all_notes_of(rows, author);
    let search = query.search->0@;
    let last = steps.len() - 1;
    assert(last >= 1);
    let wanted = lemma_search_goes_on(
        rows,
        labels,
        claims,
        page,
        author,
        query,
        steps,
        events,
        last,
    );
    lemma_matching(labels, notes, search);
    lemma_all_notes(rows, author);
    law_search_is_by_date(matching(labels, notes, search));
}

proof fn lemma_all_notes(rows: Seq<Note>, author: Seq<char>)
    ensures
        all_notes_of(rows, author).len() <= rows.len(),
    decreases rows.len(),
{
    if rows.len() > 0 {
        lemma_all_notes(rows.drop_last(), author);
    }
}

} // verus!
