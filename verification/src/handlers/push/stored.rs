//! What stored subscriptions and activities are after subscriptions and sweeps.

use vstd::prelude::*;
#[allow(unused_imports)]
use vstd::string::*;

#[allow(unused_imports)]
use crate::config::AppState;
#[allow(unused_imports)]
use crate::flow::{Action, Event, Flow, PushAnswer, PushRequest, Step, Subscription};
#[allow(unused_imports)]
use crate::handlers::activity::schedule::{is_time_text, law_time_is_written, time_form};
#[allow(unused_imports)]
use crate::handlers::push::{cron_push_due, has_header, has_no_request, is_notice, is_payload, is_push_step, is_request_for, law_due_key_follows_the_written_time, payload_json, subscribe_step, sweep_start, PushFlow, PushPayload, SubscribeReq, Sweep, Tally, WallClock, NOT_CONFIGURED};
#[allow(unused_imports)]
use crate::http::{says, Body, Headers, Reply, SERVICE_UNAVAILABLE, UNAUTHORIZED};
#[allow(unused_imports)]
use crate::json::{distinct_names, has_text_member, json_text, JsonView};
#[allow(unused_imports)]
use crate::models::{Activity, PushSubscription};
#[allow(unused_imports)]
use crate::numbers::decimal;
#[allow(unused_imports)]
use crate::object_id::{hex_form, object_id_of, ObjectId};
#[allow(unused_imports)]
use crate::text::{lemma_first_index_is, trimmed};
#[allow(unused_imports)]
use crate::time::UtcTime;
#[allow(unused_imports)]
use crate::utils::crypto::{text_view, Claims};

verus! {

// ---------- subscriptions ----------

/// `row` holds what a subscription gives it, as of `at`; a new row was created
/// then.
pub open spec fn is_written(
    row: PushSubscription,
    s: Subscription,
    at: UtcTime,
    created: Option<UtcTime>,
) -> bool {
    &&& row.endpoint@ == s.endpoint@
    &&& row.userId == s.userId
    &&& row.p256dh@ == s.p256dh@
    &&& row.auth@ == s.auth@
    &&& text_view(row.userAgent) == Some(s.userAgent@)
    &&& row.createdAt == created
    &&& row.updatedAt == Some(at.to_millis())
}

/// `after` is the stored subscriptions once one was written: the row with its
/// endpoint is changed, and one is added where there is none.
pub open spec fn upserted(
    rows: Seq<PushSubscription>,
    s: Subscription,
    at: UtcTime,
    after: Seq<PushSubscription>,
) -> bool {
    if exists|i: int| 0 <= i < rows.len() && (#[trigger] rows[i]).endpoint@ == s.endpoint@ {
        exists|i: int, row: PushSubscription|
            0 <= i < rows.len() && (#[trigger] rows[i]).endpoint@ == s.endpoint@
                && #[trigger] is_written(row, s, at, rows[i].createdAt) && after == rows.update(
                i,
                row,
            )
    } else {
        exists|row: PushSubscription| #[trigger]
            is_written(row, s, at, Some(at.to_millis())) && after == rows.push(row)
    }
}

/// A request to subscribe a device that is answered with `Ok` turns the stored
/// subscriptions from `rows` into `after`.
pub open spec fn subscribes(
    claims: Claims,
    app: AppState,
    userId: Seq<char>,
    payload: SubscribeReq,
    now: UtcTime,
    rows: Seq<PushSubscription>,
    after: Seq<PushSubscription>,
) -> bool {
    exists|r: Step<PushFlow, Reply>| #[trigger]
        subscribe_step(claims, app, userId, payload, now, r) && (r matches Step::Ask(
            Action::UpsertSubscription(s, at),
            _,
        ) && upserted(rows, s, at, after))
}

/// A device that one user subscribes and then another, or the same one again, is
/// stored once: it is the second user's, with the keys and the agent of the
/// second request, and with the date of the first. The first user has it no
/// more, unless it is the same user.
pub proof fn law_a_device_is_stored_once(
    first: (Claims, Seq<char>, SubscribeReq, UtcTime),
    second: (Claims, Seq<char>, SubscribeReq, UtcTime),
    app: AppState,
    rows: Seq<PushSubscription>,
    between: Seq<PushSubscription>,
    after: Seq<PushSubscription>,
) -> (k: int)
    requires
        trimmed(first.2.endpoint@) == trimmed(second.2.endpoint@),
        forall|i: int|
            0 <= i < rows.len() ==> (#[trigger] rows[i]).endpoint@ != trimmed(first.2.endpoint@),
        subscribes(first.0, app, first.1, first.2, first.3, rows, between),
        subscribes(second.0, app, second.1, second.2, second.3, between, after),
    ensures
        0 <= k < after.len(),
        forall|i: int|
            0 <= i < after.len() ==> ((#[trigger] after[i]).endpoint@ == trimmed(
                second.2.endpoint@,
            ) <==> i == k),
        after[k].userId == object_id_of(second.1),
        after[k].p256dh@ == trimmed(second.2.p256dh@),
        after[k].auth@ == trimmed(second.2.auth@),
        text_view(after[k].userAgent) == Some(
            match second.2.user_agent {
                Some(ua) => ua@,
                None => Seq::empty(),
            },
        ),
        after[k].createdAt == Some(first.3.to_millis()),
        object_id_of(first.1) != object_id_of(second.1) ==> forall|i: int|
            0 <= i < after.len() && (#[trigger] after[i]).userId == object_id_of(first.1)
                ==> after[i].endpoint@ != trimmed(first.2.endpoint@),
{
    let endpoint = trimmed(first.2.endpoint@);
    let k = rows.len() as int;
    assert(between.len() == rows.len() + 1 && between[k].endpoint@ == endpoint);
    assert forall|i: int| 0 <= i < between.len() && i != k implies (#[trigger] between[i]).endpoint@
        != endpoint by {
        assert(between[i] == rows[i]);
    }
    assert(after.len() == between.len());
    assert forall|i: int| 0 <= i < after.len() implies ((#[trigger] after[i]).endpoint@ == endpoint
        <==> i == k) by {
        if i != k {
            assert(after[i] == between[i]);
        }
    }
    k
}

/// Without a key to sign with, no request to subscribe a device writes anything;
/// the owner is told that push is not configured.
pub proof fn law_no_subscription_without_a_key(
    claims: Claims,
    app: AppState,
    userId: Seq<char>,
    payload: SubscribeReq,
    now: UtcTime,
    r: Step<PushFlow, Reply>,
)
    requires
        app.vapid_private_key is None,
        subscribe_step(claims, app, userId, payload, now, r),
    ensures
        r is Done,
        claims.sub@ == userId ==> r == Step::<PushFlow, Reply>::Done(
            says(SERVICE_UNAVAILABLE, NOT_CONFIGURED),
        ),
{
}

// ---------- sweeps ----------

/// A sweep as it was run: its steps, what each was answered, and when.
pub struct Run {
    pub steps: Seq<Step<Sweep, Reply>>,
    pub events: Seq<Event>,
    pub times: Seq<UtcTime>,
}

impl Run {
    /// The step at `i` leads to the next one.
    pub open spec fn moves(self, app: AppState, i: int) -> bool {
        self.steps[i] matches Step::Ask(_, state) && state.next(
            app,
            self.events[i],
            self.times[i],
            self.steps[i + 1],
        )
    }

    /// A sweep from its beginning on, as far as it got.
    pub open spec fn is_sweep(self, app: AppState, headers: Headers, began: UtcTime) -> bool {
        &&& self.steps.len() == self.events.len() + 1
        &&& self.steps.len() == self.times.len() + 1
        &&& sweep_start(headers, app, began, self.steps[0])
        &&& forall|i: int| 0 <= i < self.events.len() ==> #[trigger] self.moves(app, i)
    }

    /// The occurrence that the step at `n` is about.
    pub open spec fn occurrence(self, n: int) -> Option<(ObjectId, Seq<char>)>
        decreases n,
    {
        match self.steps[n] {
            Step::Ask(_, Sweep::Claim { id, key, .. }) => Some((id, key@)),
            Step::Ask(_, Sweep::Devices { id, key, .. }) => Some((id, key@)),
            Step::Ask(_, Sweep::Push { .. }) | Step::Ask(_, Sweep::Prune { .. }) => if n > 0 {
                self.occurrence(n - 1)
            } else {
                None
            },
            _ => None,
        }
    }

    /// The sweep sends a notification of an occurrence.
    pub open spec fn sends(self, n: int, id: ObjectId, key: Seq<char>) -> bool {
        &&& 0 <= n < self.steps.len()
        &&& self.steps[n] matches Step::Ask(Action::SendPush(_), _)
        &&& self.occurrence(n) == Some((id, key))
    }

    /// The step at `m` claims an occurrence, and the claim goes through.
    pub open spec fn claims(self, m: int, id: ObjectId, key: Seq<char>) -> bool {
        &&& 0 <= m < self.events.len()
        &&& self.steps[m] matches Step::Ask(Action::ClaimOccurrence { id: i, key: k, .. }, _) && i
            == id && k@ == key
        &&& self.events[m] == Event::Changed(true)
    }
}

proof fn lemma_claims(run: Run, app: AppState, headers: Headers, began: UtcTime, n: int)
    requires
        run.is_sweep(app, headers, began),
        0 <= n < run.steps.len(),
    ensures
        run.steps[n] matches Step::Ask(action, Sweep::Claim { id, key, .. }) ==> action matches
            Action::ClaimOccurrence { id: i, key: k, .. } && i == id && k@ == key@,
        run.steps[n] matches Step::Ask(action, state) ==> (action is SendPush ==> state is Push),
{
    if n > 0 {
        assert(run.moves(app, n - 1));
    }
}

proof fn lemma_sent_after_claim(
    run: Run,
    app: AppState,
    headers: Headers,
    began: UtcTime,
    n: int,
) -> (m: int)
    requires
        run.is_sweep(app, headers, began),
        0 <= n < run.steps.len(),
        run.steps[n] matches Step::Ask(_, state) && (state is Devices || state is Push
            || state is Prune),
    ensures
        m < n,
        run.occurrence(n) matches Some((id, key)) && run.claims(m, id, key),
    decreases n,
{
    assert(n > 0);
    assert(run.moves(app, n - 1));
    if run.steps[n]->Ask_1 is Devices {
        lemma_claims(run, app, headers, began, n - 1);
        n - 1
    } else {
        lemma_sent_after_claim(run, app, headers, began, n - 1)
    }
}

/// A sweep sends notifications of an occurrence only after its own claim of the
/// occurrence went through.
pub proof fn law_sweep_sends_what_it_claimed(
    run: Run,
    app: AppState,
    headers: Headers,
    began: UtcTime,
    n: int,
    id: ObjectId,
    key: Seq<char>,
) -> (m: int)
    requires
        run.is_sweep(app, headers, began),
        run.sends(n, id, key),
    ensures
        m < n,
        run.claims(m, id, key),
{
    lemma_claims(run, app, headers, began, n);
    lemma_sent_after_claim(run, app, headers, began, n)
}

proof fn lemma_payload(run: Run, app: AppState, headers: Headers, began: UtcTime, n: int) -> (m: int)
    requires
        run.is_sweep(app, headers, began),
        0 <= n < run.steps.len(),
        run.steps[n] matches Step::Ask(_, state) && (state is Push || state is Prune),
    ensures
        0 <= m < n,
        run.steps[m] matches Step::Ask(_, Sweep::Claim { activity, id, key, .. }) && run.occurrence(n)
            == Some((id, key@)) && is_notice(sent_text(run.steps[n]), activity, id, key@),
    decreases n,
{
    assert(n > 0);
    assert(run.moves(app, n - 1));
    assert(run.occurrence(n) == run.occurrence(n - 1));
    if run.steps[n - 1]->Ask_1 is Devices {
        assert(n > 1);
        assert(run.moves(app, n - 2));
        let key = run.steps[n - 1]->Ask_1->Devices_key;
        assert(run.occurrence(n - 1) == Some((run.steps[n - 1]->Ask_1->Devices_id, key@)));
        n - 2
    } else {
        lemma_payload(run, app, headers, began, n - 1)
    }
}

/// The text that a step sends to devices.
pub open spec fn sent_text(step: Step<Sweep, Reply>) -> Seq<char> {
    match step {
        Step::Ask(_, Sweep::Push { payload, .. }) => payload@,
        Step::Ask(_, Sweep::Prune { payload, .. }) => payload@,
        _ => Seq::empty(),
    }
}

/// What a sweep sends of an occurrence is a request to a device, from which the
/// device reads the notice of the activity that was claimed.
pub proof fn law_sweep_sends_the_notice(
    run: Run,
    app: AppState,
    headers: Headers,
    began: UtcTime,
    n: int,
    id: ObjectId,
    key: Seq<char>,
) -> (m: int)
    requires
        run.is_sweep(app, headers, began),
        run.sends(n, id, key),
    ensures
        0 <= m < n,
        run.steps[m] matches Step::Ask(_, Sweep::Claim { activity, .. }) && is_notice(
            sent_text(run.steps[n]),
            activity,
            id,
            key,
        ),
        run.steps[n] matches Step::Ask(Action::SendPush(request), Sweep::Push { devices, .. })
            && is_request_for(request, app, devices@.last(), sent_text(run.steps[n])),
{
    lemma_claims(run, app, headers, began, n);
    assert(n > 0);
    assert(run.moves(app, n - 1));
    lemma_payload(run, app, headers, began, n)
}

/// The key that an activity has stored after claims of its occurrences, in the
/// order in which the store took them.
pub open spec fn stored_key(stored: Option<Seq<char>>, claims: Seq<Seq<char>>) -> Option<Seq<char>> {
    if claims.len() == 0 {
        stored
    } else {
        Some(claims.last())
    }
}

/// The claim at `i` goes through: its key is not the stored one.
pub open spec fn goes_through(stored: Option<Seq<char>>, claims: Seq<Seq<char>>, i: int) -> bool {
    stored_key(stored, claims.take(i)) != Some(claims[i])
}

/// The claims of an activity by a sweep are the ones at `places` in the store's
/// order, and are answered as the store has it.
pub open spec fn claims_at(
    run: Run,
    id: ObjectId,
    stored: Option<Seq<char>>,
    claims: Seq<Seq<char>>,
    places: Map<int, int>,
) -> bool {
    forall|m: int, key: Seq<char>| #[trigger]
        run.claims(m, id, key) ==> places.dom().contains(m) && 0 <= places[m] < claims.len()
            && claims[places[m]] == key && goes_through(stored, claims, places[m])
}

/// Of all sweeps that find an activity due for the same occurrence, overlapping
/// or not, one at most sends notifications of it: two sweeps whose claims the
/// store took in some order do not both send. The activity has the occurrence
/// stored as soon as the first claim was taken, whether it has a device or not.
pub proof fn law_one_sweep_sends_an_occurrence(
    first: (Run, Headers, UtcTime),
    second: (Run, Headers, UtcTime),
    app: AppState,
    id: ObjectId,
    key: Seq<char>,
    stored: Option<Seq<char>>,
    claims: Seq<Seq<char>>,
    places: (Map<int, int>, Map<int, int>),
)
    requires
        first.0.is_sweep(app, first.1, first.2),
        second.0.is_sweep(app, second.1, second.2),
        forall|i: int| 0 <= i < claims.len() ==> #[trigger] claims[i] == key,
        claims_at(first.0, id, stored, claims, places.0),
        claims_at(second.0, id, stored, claims, places.1),
        forall|m: int, n: int|
            places.0.dom().contains(m) && places.1.dom().contains(n) ==> #[trigger] places.0[m]
                != #[trigger] places.1[n],
    ensures
        !((exists|n: int| first.0.sends(n, id, key)) && (exists|n: int|
            second.0.sends(n, id, key))),
        claims.len() > 0 ==> stored_key(stored, claims) == Some(key),
{
    if (exists|n: int| first.0.sends(n, id, key)) && (exists|n: int| second.0.sends(n, id, key)) {
        let a = choose|n: int| first.0.sends(n, id, key);
        let b = choose|n: int| second.0.sends(n, id, key);
        let m = law_sweep_sends_what_it_claimed(first.0, app, first.1, first.2, a, id, key);
        let n = law_sweep_sends_what_it_claimed(second.0, app, second.1, second.2, b, id, key);
        assert(first.0.claims(m, id, key));
        assert(second.0.claims(n, id, key));
        let i = places.0[m];
        let j = places.1[n];
        assert(i != j);
        if i > 0 {
            assert(claims.take(i).last() == claims[i - 1]);
        } else {
            assert(claims.take(j).last() == claims[j - 1]);
        }
    }
}

/// A sweep has counted no more activities as pushed than it has looked at.
pub open spec fn counts_up(step: Step<Sweep, Reply>) -> bool {
    match step {
        Step::Ask(_, Sweep::Open { .. }) => true,
        Step::Ask(_, Sweep::Next { tally, .. }) => tally.pushed <= tally.checked,
        Step::Ask(_, Sweep::Claim { tally, .. })
        | Step::Ask(_, Sweep::Devices { tally, .. })
        | Step::Ask(_, Sweep::Push { tally, .. })
        | Step::Ask(_, Sweep::Prune { tally, .. }) => tally.pushed < tally.checked || tally.checked
            == u32::MAX,
        Step::Done(reply) => reply.body matches Body::PushSweep { checked, pushed } ==> pushed
            <= checked,
    }
}

/// The reply to a sweep counts no more activities as pushed than it counts as
/// looked at.
pub proof fn law_sweep_counts_up(
    run: Run,
    app: AppState,
    headers: Headers,
    began: UtcTime,
    n: int,
)
    requires
        run.is_sweep(app, headers, began),
        0 <= n < run.steps.len(),
    ensures
        counts_up(run.steps[n]),
        run.steps[n] matches Step::Done(reply) ==> (reply.body matches Body::PushSweep {
            checked,
            pushed,
        } ==> pushed <= checked),
    decreases n,
{
    if n > 0 {
        law_sweep_counts_up(run, app, headers, began, n - 1);
        assert(run.moves(app, n - 1));
    }
}

/// A caller of the sweep who does not present the secret is turned away, and
/// nothing is sent or written.
pub proof fn law_sweep_needs_the_secret(
    headers: Headers,
    app: AppState,
    now: UtcTime,
    r: Step<Sweep, Reply>,
)
    requires
        sweep_start(headers, app, now, r),
        app.cron_secret matches Some(s) && text_view(headers.authorization) != Some(
            "Bearer "@ + s@,
        ),
    ensures
        r == Step::<Sweep, Reply>::Done(says(UNAUTHORIZED, "Invalid cron secret")),
{
    reveal_strlit("Bearer ");
    assert("Bearer "@.len() == 7);
}

// ---------- every device ----------

/// The step at `n` is about the devices of one activity.
pub open spec fn is_sending(run: Run, n: int) -> bool {
    run.steps[n] matches Step::Ask(_, state) && (state is Push || state is Prune)
}

/// Between the steps `from` and `to` a device was sent the text, or no request
/// could be made for it.
pub open spec fn is_served(
    run: Run,
    app: AppState,
    from: int,
    to: int,
    device: PushSubscription,
    text: Seq<char>,
) -> bool {
    ||| has_no_request(app, device, text)
    ||| exists|i: int|
        from < i <= to && (#[trigger] run.steps[i] matches Step::Ask(Action::SendPush(request), _)
            && is_request_for(request, app, device, text))
}

/// The devices that a step leaves to be notified later.
pub open spec fn to_serve(step: Step<Sweep, Reply>) -> Seq<PushSubscription> {
    match step {
        Step::Ask(_, Sweep::Push { devices, .. }) => devices@.drop_last(),
        Step::Ask(_, Sweep::Prune { devices, .. }) => devices@,
        _ => Seq::empty(),
    }
}

proof fn lemma_served(
    run: Run,
    app: AppState,
    headers: Headers,
    began: UtcTime,
    from: int,
    devices: Vec<PushSubscription>,
    text: Seq<char>,
    to: int,
)
    requires
        run.is_sweep(app, headers, began),
        0 <= from < to < run.steps.len(),
        run.steps[from] matches Step::Ask(_, Sweep::Devices { .. }),
        run.events[from] == Event::Subscriptions(devices),
        devices@.len() > 0,
        forall|i: int| from < i <= to ==> #[trigger] is_sending(run, i),
        text == sent_text(run.steps[from + 1]),
    ensures
        sent_text(run.steps[to]) == text,
        to_serve(run.steps[to]).len() <= devices@.len(),
        to_serve(run.steps[to]) == devices@.reverse().take(to_serve(run.steps[to]).len() as int),
        forall|j: int|
            to_serve(run.steps[to]).len() <= j < devices@.len() ==> is_served(
                run,
                app,
                from,
                to,
                #[trigger] devices@.reverse()[j],
                text,
            ),
        run.steps[to] matches Step::Ask(_, Sweep::Push { devices: d, .. }) ==> d@.len() > 0,
    decreases to,
{
    let all = devices@.reverse();
    assert(run.moves(app, to - 1));
    assert(is_sending(run, to));
    let left = to_serve(run.steps[to]);
    if to - 1 == from {
        let d = run.steps[to]->Ask_1->Push_devices@;
        assert(d.drop_last() =~= all.take(d.len() - 1));
        assert forall|j: int| left.len() <= j < devices@.len() implies is_served(
            run,
            app,
            from,
            to,
            #[trigger] all[j],
            text,
        ) by {
            if j == left.len() {
                assert(d.last() == all[j]);
                assert(run.steps[to] matches Step::Ask(Action::SendPush(request), _)
                    && is_request_for(request, app, all[j], text));
            }
        }
    } else {
        assert forall|i: int| from < i <= to - 1 implies #[trigger] is_sending(run, i) by {}
        lemma_served(run, app, headers, began, from, devices, text, to - 1);
        assert(is_sending(run, to - 1));
        let before = to_serve(run.steps[to - 1]);
        if run.steps[to]->Ask_1 is Prune {
            assert(left =~= before);
        } else {
            let d = run.steps[to]->Ask_1->Push_devices@;
            assert(d == before.take(d.len() as int));
            assert(d.drop_last() =~= all.take(d.len() - 1));
            assert forall|j: int| left.len() <= j < devices@.len() implies is_served(
                run,
                app,
                from,
                to,
                #[trigger] all[j],
                text,
            ) by {
                if j == left.len() {
                    assert(d.last() == all[j]);
                    assert(run.steps[to] matches Step::Ask(Action::SendPush(request), _)
                        && is_request_for(request, app, all[j], text));
                } else if j < before.len() {
                    assert(before[j] == all[j]);
                    assert(has_no_request(app, before[j], text));
                }
            }
        }
        assert forall|j: int| before.len() <= j < devices@.len() implies is_served(
            run,
            app,
            from,
            to,
            #[trigger] all[j],
            text,
        ) by {
            assert(is_served(run, app, from, to - 1, all[j], text));
            if !has_no_request(app, all[j], text) {
                let i = choose|i: int|
                    from < i <= to - 1 && (#[trigger] run.steps[i] matches Step::Ask(
                        Action::SendPush(request),
                        _,
                    ) && is_request_for(request, app, all[j], text));
                assert(from < i <= to);
            }
        }
    }
}

/// Once the devices of an owner are known, each of them is sent one request with
/// the notice of the claimed occurrence before the sweep goes on to the next
/// activity. A device is passed over only where no request can be made for it,
/// or where making it failed.
pub proof fn law_every_device_is_notified(
    run: Run,
    app: AppState,
    headers: Headers,
    began: UtcTime,
    from: int,
    to: int,
    devices: Vec<PushSubscription>,
    j: int,
) -> (text: Seq<char>)
    requires
        run.is_sweep(app, headers, began),
        0 <= from < to < run.steps.len(),
        run.steps[from] matches Step::Ask(_, Sweep::Devices { .. }),
        run.events[from] == Event::Subscriptions(devices),
        forall|i: int| from < i < to ==> #[trigger] is_sending(run, i),
        run.steps[to] matches Step::Ask(Action::NextActivity, _),
        0 <= j < devices@.len(),
    ensures
        run.steps[from] matches Step::Ask(_, Sweep::Devices { activity, id, key, .. }) && is_notice(
            text,
            activity,
            id,
            key@,
        ),
        is_served(run, app, from, to, devices@[j], text),
{
    let all = devices@.reverse();
    let k = devices@.len() - 1 - j;
    assert(all[k] == devices@[j]);
    assert(run.moves(app, to - 1));
    if to - 1 == from {
        let (clock, tally, activity, id, key) = (
            run.steps[from]->Ask_1->Devices_clock,
            run.steps[from]->Ask_1->Devices_tally,
            run.steps[from]->Ask_1->Devices_activity,
            run.steps[from]->Ask_1->Devices_id,
            run.steps[from]->Ask_1->Devices_key,
        );
        let t = choose|t: String|
            is_notice(t@, activity, id, key@) && #[trigger] is_push_step(
                run.steps[to],
                app,
                clock,
                tally,
                all,
                t,
                false,
            );
        t@
    } else {
        assert(run.moves(app, from));
        assert(is_sending(run, from + 1));
        let text = sent_text(run.steps[from + 1]);
        assert(is_sending(run, to - 1));
        lemma_served(run, app, headers, began, from, devices, text, to - 1);
        let left = to_serve(run.steps[to - 1]);
        if k < left.len() {
            assert(left[k] == all[k]);
            assert(has_no_request(app, left[k], text));
        } else {
            assert(is_served(run, app, from, to - 1, all[k], text));
            if !has_no_request(app, all[k], text) {
                let i = choose|i: int|
                    from < i <= to - 1 && (#[trigger] run.steps[i] matches Step::Ask(
                        Action::SendPush(request),
                        _,
                    ) && is_request_for(request, app, all[k], text));
                assert(from < i <= to);
            }
        }
        text
    }
}

/// While a request can be made for the next device, the sweep sends one to it
/// and does not go on to the next activity.
pub proof fn law_next_device_is_sent_to(
    flow: Sweep,
    app: AppState,
    event: Event,
    now: UtcTime,
    r: Step<Sweep, Reply>,
    next: PushSubscription,
    text: Seq<char>,
)
    requires
        call_ensures(<Sweep as Flow>::resume, (flow, &app, event, now), r),
        match flow {
            Sweep::Push { devices, payload, .. } => devices@.len() > 1 && devices@[devices@.len()
                - 2] == next && payload@ == text && !(event matches Event::Pushed(
                PushAnswer::Status(s),
            ) && (s == 404 || s == 410)),
            Sweep::Prune { devices, payload, .. } => devices@.len() > 0 && devices@.last() == next
                && payload@ == text,
            _ => false,
        },
        !has_no_request(app, next, text),
    ensures
        r matches Step::Ask(Action::SendPush(request), after) && is_request_for(
            request,
            app,
            next,
            text,
        ),
{
    let left = match flow {
        Sweep::Push { devices, .. } => devices@.drop_last(),
        Sweep::Prune { devices, .. } => devices@,
        _ => Seq::empty(),
    };
    assert(left[left.len() - 1] == next);
    if let Step::Ask(_, Sweep::Push { devices, .. }) = r {
        if devices@.len() < left.len() {
            assert(has_no_request(app, left[left.len() - 1], text));
        }
        assert(left.take(left.len() as int) =~= left);
    }
}

/// A device whose push service says that the subscription is gone loses it, and
/// no other device does: it is the one that the request was sent to.
pub proof fn law_dead_subscription_is_deleted(
    flow: Sweep,
    app: AppState,
    event: Event,
    now: UtcTime,
    r: Step<Sweep, Reply>,
)
    requires
        call_ensures(<Sweep as Flow>::resume, (flow, &app, event, now), r),
        flow matches Sweep::Push { devices, .. } ==> devices@.len() > 0,
    ensures
        r matches Step::Ask(Action::DeleteSubscription { endpoint }, _) ==> (flow matches
            Sweep::Push { devices, .. } && endpoint == devices@.last().endpoint && (event matches
            Event::Pushed(PushAnswer::Status(s)) && (s == 404 || s == 410))),
        flow is Push && (event matches Event::Pushed(PushAnswer::Status(s)) && (s == 404 || s
            == 410)) ==> r matches Step::Ask(Action::DeleteSubscription { .. }, _),
{
}

/// An activity whose time was written at most five minutes ago has its
/// occurrence of today claimed, unless it was pushed already; one that is not
/// due, or that is disabled, is passed over.
pub proof fn law_due_activity_is_claimed(
    clock: WallClock,
    tally: Tally,
    app: AppState,
    activity: Activity,
    hours: int,
    minutes: int,
    now: UtcTime,
    r: Step<Sweep, Reply>,
)
    requires
        call_ensures(
            <Sweep as Flow>::resume,
            (Sweep::Next { clock, tally }, &app, Event::Activity(Some(activity)), now),
            r,
        ),
        0 <= hours < 24,
        0 <= minutes < 60,
        is_time_text(activity.trigger.time@, hours, minutes),
        activity.triggerType@ == "daily"@,
    ensures
        ({
            let key = "daily:"@ + clock.today_key@;
            let due = activity.enabled && hours * 60 + minutes <= clock.minutes <= hours * 60
                + minutes + 5;
            if due && activity.id is Some && !(activity.lastPushKey matches Some(k) && k@ == key) {
                r matches Step::Ask(Action::ClaimOccurrence { id, key: k, at }, _) && Some(id)
                    == activity.id && k@ == key && at == now
            } else {
                r matches Step::Ask(Action::NextActivity, _)
            }
        }),
{
    law_due_key_follows_the_written_time(
        activity,
        hours,
        minutes,
        clock.today_br@,
        clock.minutes as int,
        clock.today_key@,
    );
}

/// A single activity has its occurrence claimed on its own day alone, from its
/// written time on for five minutes.
pub proof fn law_single_activity_is_claimed_on_its_day(
    clock: WallClock,
    tally: Tally,
    app: AppState,
    activity: Activity,
    hours: int,
    minutes: int,
    now: UtcTime,
    r: Step<Sweep, Reply>,
)
    requires
        call_ensures(
            <Sweep as Flow>::resume,
            (Sweep::Next { clock, tally }, &app, Event::Activity(Some(activity)), now),
            r,
        ),
        0 <= hours < 24,
        0 <= minutes < 60,
        is_time_text(activity.trigger.time@, hours, minutes),
        activity.triggerType@ == "once"@,
    ensures
        ({
            let key = "once:"@ + clock.today_br@;
            let due = activity.enabled && hours * 60 + minutes <= clock.minutes <= hours * 60
                + minutes + 5 && (activity.trigger.date matches Some(d) && d@ == clock.today_br@);
            if due && activity.id is Some && !(activity.lastPushKey matches Some(k) && k@ == key) {
                r matches Step::Ask(Action::ClaimOccurrence { id, key: k, at }, _) && Some(id)
                    == activity.id && k@ == key && at == now
            } else {
                r matches Step::Ask(Action::NextActivity, _)
            }
        }),
{
    law_due_key_follows_the_written_time(
        activity,
        hours,
        minutes,
        clock.today_br@,
        clock.minutes as int,
        clock.today_key@,
    );
}

/// Once its claim went through, the devices of the owner of the activity are
/// looked up, whichever form of the identifier their rows have; where it did
/// not, nothing is sent.
pub proof fn law_claimed_occurrence_goes_to_the_owner(
    clock: WallClock,
    tally: Tally,
    activity: Activity,
    id: ObjectId,
    key: String,
    app: AppState,
    event: Event,
    now: UtcTime,
    r: Step<Sweep, Reply>,
)
    requires
        call_ensures(
            <Sweep as Flow>::resume,
            (Sweep::Claim { clock, tally, activity, id, key }, &app, event, now),
            r,
        ),
    ensures
        event == Event::Changed(true) ==> (r matches Step::Ask(
            Action::SubscriptionsOfEither(user, text),
            _,
        ) && user == activity.userId && text@ == hex_form(activity.userId@)),
        event != Event::Changed(true) ==> (r matches Step::Ask(Action::NextActivity, _)),
{
}

/// A notice is a JSON object that says the title and the description of the
/// activity, which activity and occurrence it is about, and where to go: to the
/// linked note, where there is one.
pub proof fn law_notice_says_the_activity(
    text: Seq<char>,
    activity: Activity,
    id: ObjectId,
    kind: Seq<char>,
    day: Seq<char>,
) -> (notice: JsonView)
    requires
        is_notice(text, activity, id, kind + seq![':'] + day),
        !kind.contains(':'),
    ensures
        text == json_text(notice),
        has_text_member(notice, "title"@, activity.title@),
        has_text_member(
            notice,
            "body"@,
            match activity.description {
                Some(d) => d@,
                None => "Scheduled activity"@,
            },
        ),
        has_text_member(notice, "activityId"@, hex_form(id@)),
        has_text_member(notice, "occurrenceKey"@, kind + seq![':'] + day),
        has_text_member(notice, "tag"@, "noap-activity-"@ + hex_form(id@) + "-"@ + day),
        has_text_member(
            notice,
            "url"@,
            match activity.noteId {
                Some(n) => "/notes/page/1/note/"@ + n@,
                None => "/"@,
            },
        ),
{
    let key = kind + seq![':'] + day;
    let p = choose|p: PushPayload|
        is_payload(p, activity, id, key) && text == json_text(#[trigger] payload_json(p));
    let notice = payload_json(p);
    let members = notice->Object_0;
    assert forall|i: int| 0 <= i < kind.len() implies key[i] != ':' by {
        assert(key[i] == kind[i]);
    }
    assert(key[kind.len() as int] == ':');
    lemma_first_index_is(key, ':', kind.len() as int);
    assert(key.skip(kind.len() as int + 1) =~= day);
    reveal_strlit("title");
    reveal_strlit("body");
    reveal_strlit("tag");
    reveal_strlit("url");
    reveal_strlit("activityId");
    reveal_strlit("occurrenceKey");
    assert("title"@[0] == 't' && "title"@.len() == 5 && "tag"@[0] == 't' && "tag"@.len() == 3);
    assert("body"@[0] == 'b' && "url"@[0] == 'u');
    assert("activityId"@[0] == 'a' && "occurrenceKey"@[0] == 'o');
    assert(distinct_names(members));
    assert(members[0] == ("title"@, JsonView::Text(p.title@)));
    assert(members[1] == ("body"@, JsonView::Text(p.body@)));
    assert(members[2] == ("tag"@, JsonView::Text(p.tag@)));
    assert(members[3] == ("url"@, JsonView::Text(p.url@)));
    assert(members[4] == ("activityId"@, JsonView::Text(p.activity_id@)));
    assert(members[5] == ("occurrenceKey"@, JsonView::Text(p.occurrence_key@)));
    notice
}

/// A sweep that may run begins with the activities up to the time of day by the
/// clock of Recife, three hours behind, written as hours and minutes.
pub proof fn law_sweep_begins_by_the_clock_of_recife(
    headers: Headers,
    app: AppState,
    now: UtcTime,
    r: Step<Sweep, Reply>,
)
    requires
        call_ensures(cron_push_due, (&headers, &app, now), r),
        now.is_clock(),
        app.vapid_private_key is Some,
        app.cron_secret matches Some(s) ==> (headers.authorization matches Some(a) && a@
            == "Bearer "@ + s@),
    ensures
        ({
            let minute = ((now.secs - 3 * 3600) % 86400) / 60;
            r matches Step::Ask(Action::ScanActivities { up_to }, Sweep::Open { clock })
                && clock.minutes == minute && is_time_text(up_to@, minute / 60, minute % 60)
        }),
{
    let minute = ((now.secs - 3 * 3600) % 86400) / 60;
    law_time_is_written(minute / 60, minute % 60, time_form(minute / 60, minute % 60));
}

/// A push service holds a notice for a day where the device is away, and
/// delivers it at once where it is not.
pub proof fn law_notices_last_a_day(
    request: PushRequest,
    app: AppState,
    device: PushSubscription,
    text: Seq<char>,
)
    requires
        is_request_for(request, app, device, text),
    ensures
        has_header(request.headers@, "ttl"@, "86400"@),
        has_header(request.headers@, "urgency"@, "high"@),
{
    reveal_strlit("86400");
    reveal_with_fuel(decimal, 6);
    assert(decimal(86400) =~= "86400"@);
}

} // verus!
