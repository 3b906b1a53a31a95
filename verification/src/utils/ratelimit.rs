//! A sliding-window rate limiter, in memory.
//!
//! Budgets are kept per key: a client address or an account, with the name of
//! the endpoint. Each process counts for itself.

use vstd::hash_map::StringHashMap;
use vstd::prelude::*;

use crate::http::Headers;
#[allow(unused_imports)]
use crate::text::{alphanumeric, chars_of, is_ascii_alphanumeric, owned, split, split_at, trim, trimmed, views};

verus! {

/// How many keys are kept before stale ones are dropped.
pub const MAX_KEYS: usize = 50_000;

/// Nanoseconds in a second.
pub const NANOS: u64 = 1_000_000_000;

// ---------- the window ----------

/// How long before `now` the time `t` was. Times are nanoseconds of a clock
/// that does not go back; one that lies ahead counts as now.
pub open spec fn elapsed(now: u64, t: u64) -> int {
    if now >= t {
        now - t
    } else {
        0
    }
}

/// The times that lie less than `window` before `now`, in their order.
pub open spec fn recent(hits: Seq<u64>, now: u64, window: u64) -> Seq<u64>
    decreases hits.len(),
{
    if hits.len() == 0 {
        Seq::empty()
    } else {
        let rest = recent(hits.drop_last(), now, window);
        if elapsed(now, hits.last()) < window {
            rest.push(hits.last())
        } else {
            rest
        }
    }
}

/// Seconds until the oldest of `hits` leaves the window, one at least.
pub open spec fn retry_after(hits: Seq<u64>, now: u64, window: u64) -> int {
    let left = if hits.len() > 0 {
        window - elapsed(now, hits[0])
    } else {
        window as int
    };
    if left < NANOS {
        1
    } else {
        left / NANOS as int
    }
}

fn keep_recent(hits: &Vec<u64>, now: u64, window: u64) -> (r: Vec<u64>)
    ensures
        r@ == recent(hits@, now, window),
{
    let mut r: Vec<u64> = Vec::new();
    let mut i: usize = 0;
    while i < hits.len()
        invariant
            i <= hits@.len(),
            r@ == recent(hits@.take(i as int), now, window),
        decreases hits@.len() - i,
    {
        let t = hits[i];
        let since: u64 = if now >= t {
            now - t
        } else {
            0
        };
        proof {
            assert(hits@.take(i + 1).drop_last() =~= hits@.take(i as int));
            assert(hits@.take(i + 1).last() == t);
        }
        if since < window {
            r.push(t);
        }
        i += 1;
    }
    assert(hits@.take(hits@.len() as int) =~= hits@);
    r
}

// ---------- the limiter ----------

/// What was counted, by key.
pub struct RateLimiter {
    hits: StringHashMap<Vec<u64>>,
    keys: Vec<String>,
}

/// The times counted under `key`.
pub open spec fn counted(m: Map<Seq<char>, Seq<u64>>, key: Seq<char>) -> Seq<u64> {
    if m.contains_key(key) {
        m[key]
    } else {
        Seq::empty()
    }
}

/// The keys that were hit within the window.
pub open spec fn live_part(m: Map<Seq<char>, Seq<u64>>, now: u64, window: u64) -> Map<
    Seq<char>,
    Seq<u64>,
> {
    Map::new(|k: Seq<char>| m.contains_key(k) && recent(m[k], now, window).len() > 0, |k: Seq<char>| m[k])
}

/// What is kept when an attempt comes: everything, until there are too many
/// keys; then the live ones, and nothing where those are too many.
pub open spec fn cleaned(m: Map<Seq<char>, Seq<u64>>, now: u64, window: u64) -> Map<
    Seq<char>,
    Seq<u64>,
> {
    if m.dom().len() <= MAX_KEYS {
        m
    } else if live_part(m, now, window).dom().len() <= MAX_KEYS {
        live_part(m, now, window)
    } else {
        Map::empty()
    }
}

/// Whether one more attempt is within the budget.
pub open spec fn admits(hits: Seq<u64>, max_attempts: u32, window: u64, now: u64) -> bool {
    recent(hits, now, window).len() < max_attempts
}

/// What is counted after an attempt.
pub open spec fn after_attempt(hits: Seq<u64>, max_attempts: u32, window: u64, now: u64) -> Seq<
    u64,
> {
    if admits(hits, max_attempts, window, now) {
        recent(hits, now, window).push(now)
    } else {
        recent(hits, now, window)
    }
}

/// Whether an attempt under `key` passes.
pub open spec fn passes(
    m: Map<Seq<char>, Seq<u64>>,
    key: Seq<char>,
    max_attempts: u32,
    window: u64,
    now: u64,
) -> bool {
    admits(counted(cleaned(m, now, window), key), max_attempts, window, now)
}

/// What is counted after an attempt under `key`.
pub open spec fn after_call(
    m: Map<Seq<char>, Seq<u64>>,
    key: Seq<char>,
    max_attempts: u32,
    window: u64,
    now: u64,
) -> Map<Seq<char>, Seq<u64>> {
    cleaned(m, now, window).insert(
        key,
        after_attempt(counted(cleaned(m, now, window), key), max_attempts, window, now),
    )
}

/// `text` is the view of one of `keys`.
pub open spec fn listed(keys: Seq<String>, text: Seq<char>) -> bool {
    exists|i: int| 0 <= i < keys.len() && (#[trigger] keys[i])@ == text
}

impl View for RateLimiter {
    type V = Map<Seq<char>, Seq<u64>>;

    closed spec fn view(&self) -> Map<Seq<char>, Seq<u64>> {
        Map::new(|k: Seq<char>| self.hits@.contains_key(k), |k: Seq<char>| self.hits@[k]@)
    }
}

impl RateLimiter {
    /// The list holds the keys of the map, each once.
    pub closed spec fn wf(&self) -> bool {
        &&& forall|k: Seq<char>| #[trigger]
            self.hits@.contains_key(k) <==> listed(self.keys@, k)
        &&& forall|i: int, j: int|
            0 <= i < j < self.keys@.len() ==> (#[trigger] self.keys@[i])@ != (
            #[trigger] self.keys@[j])@
    }

    pub fn new() -> (r: Self)
        ensures
            r.wf(),
            r@ == Map::<Seq<char>, Seq<u64>>::empty(),
    {
        let r = RateLimiter { hits: StringHashMap::new(), keys: Vec::new() };
        assert(r@ =~= Map::<Seq<char>, Seq<u64>>::empty());
        r
    }
}

proof fn lemma_key_count(keys: Seq<String>, dom: Set<Seq<char>>)
    requires
        forall|k: Seq<char>| #[trigger] dom.contains(k) <==> listed(keys, k),
        forall|i: int, j: int|
            0 <= i < j < keys.len() ==> (#[trigger] keys[i])@ != (#[trigger] keys[j])@,
    ensures
        dom.finite(),
        dom.len() == keys.len(),
    decreases keys.len(),
{
    if keys.len() == 0 {
        assert(dom =~= Set::<Seq<char>>::empty());
    } else {
        let last = keys.last()@;
        let rest = keys.drop_last();
        assert forall|k: Seq<char>| #[trigger] dom.remove(last).contains(k) <==> listed(rest, k) by {
            if dom.remove(last).contains(k) {
                let i = choose|i: int| 0 <= i < keys.len() && (#[trigger] keys[i])@ == k;
                assert(rest[i] == keys[i]);
            }
            if listed(rest, k) {
                let i = choose|i: int| 0 <= i < rest.len() && (#[trigger] rest[i])@ == k;
                assert(rest[i] == keys[i]);
                assert(keys[i]@ != keys[keys.len() - 1]@);
                assert(listed(keys, k));
            }
        }
        lemma_key_count(rest, dom.remove(last));
        assert(keys[keys.len() - 1]@ == last);
        assert(dom.contains(last));
        assert(dom =~= dom.remove(last).insert(last));
    }
}

proof fn lemma_listed_take(keys: Seq<String>, i: int, k: Seq<char>)
    requires
        0 <= i < keys.len(),
    ensures
        listed(keys.take(i + 1), k) == (listed(keys.take(i), k) || keys[i]@ == k),
{
    let a = keys.take(i);
    let b = keys.take(i + 1);
    if listed(b, k) {
        let j = choose|j: int| 0 <= j < b.len() && (#[trigger] b[j])@ == k;
        if j < i {
            assert(a[j] == b[j]);
        }
    }
    if listed(a, k) {
        let j = choose|j: int| 0 <= j < a.len() && (#[trigger] a[j])@ == k;
        assert(b[j] == a[j]);
    }
    if keys[i]@ == k {
        assert(b[i] == keys[i]);
    }
}

proof fn lemma_listed_push(keys: Seq<String>, s: String, k: Seq<char>)
    ensures
        listed(keys.push(s), k) == (listed(keys, k) || s@ == k),
{
    let all = keys.push(s);
    assert(all.take(all.len() as int) =~= all);
    assert(all.take(keys.len() as int) =~= keys);
    lemma_listed_take(all, keys.len() as int, k);
}

impl RateLimiter {
    /// Forgets the keys that were not hit within the window.
    fn drop_stale(&mut self, now: u64, window: u64)
        requires
            old(self).wf(),
        ensures
            final(self).wf(),
            final(self)@ == live_part(old(self)@, now, window),
    {
        let ghost m0 = self.hits@;
        let ghost before = self@;
        let ghost live = |k: Seq<char>| m0.contains_key(k) && recent(m0[k]@, now, window).len() > 0;
        let mut fresh: Vec<String> = Vec::new();
        let mut i: usize = 0;
        proof {
            assert forall|k: Seq<char>| !listed(self.keys@.take(0), k) by {}
            assert forall|k: Seq<char>| !listed(fresh@, k) by {}
        }
        while i < self.keys.len()
            invariant
                i <= self.keys@.len(),
                self.keys@ == old(self).keys@,
                m0 == old(self).hits@,
                old(self).wf(),
                live == (|k: Seq<char>|
                    m0.contains_key(k) && recent(m0[k]@, now, window).len() > 0),
                forall|k: Seq<char>| #[trigger]
                    self.hits@.contains_key(k) == (m0.contains_key(k) && (live(k) || !listed(
                        self.keys@.take(i as int),
                        k,
                    ))),
                forall|k: Seq<char>|
                    #![trigger self.hits@[k]]
                    self.hits@.contains_key(k) ==> self.hits@[k] == m0[k],
                forall|k: Seq<char>| #[trigger]
                    listed(fresh@, k) == (listed(self.keys@.take(i as int), k) && live(k)),
                forall|a: int, b: int|
                    0 <= a < b < fresh@.len() ==> (#[trigger] fresh@[a])@ != (
                    #[trigger] fresh@[b])@,
            decreases self.keys@.len() - i,
        {
            let key = self.keys[i].clone();
            let ghost kept = fresh@;
            let ghost hits_before = self.hits@;
            assert(listed(self.keys@, key@)) by {
                assert(self.keys@[i as int]@ == key@);
            }
            assert(m0.contains_key(key@));
            assert(!listed(self.keys@.take(i as int), key@)) by {
                if listed(self.keys@.take(i as int), key@) {
                    let j = choose|j: int|
                        0 <= j < i && (#[trigger] self.keys@.take(i as int)[j])@ == key@;
                    assert(self.keys@[j]@ == self.keys@[i as int]@);
                }
            }
            assert(self.hits@.contains_key(key@));
            let is_live = match self.hits.get(key.as_str()) {
                Some(hits) => keep_recent(hits, now, window).len() > 0,
                None => false,
            };
            assert(is_live == live(key@));
            if is_live {
                fresh.push(key);
                proof {
                    assert forall|k: Seq<char>| #[trigger]
                        listed(fresh@, k) == (listed(self.keys@.take(i + 1), k) && live(k)) by {
                        lemma_listed_push(kept, key, k);
                        lemma_listed_take(self.keys@, i as int, k);
                        assert(listed(kept, k) == (listed(self.keys@.take(i as int), k) && live(k)));
                    }
                    assert(!listed(kept, key@));
                    assert forall|a: int, b: int| 0 <= a < b < fresh@.len() implies (
                    #[trigger] fresh@[a])@ != (#[trigger] fresh@[b])@ by {
                        if b == kept.len() {
                            assert(kept[a]@ != key@);
                        } else {
                            assert(kept[a]@ != kept[b]@);
                        }
                    }
                }
            } else {
                self.hits.remove(key.as_str());
                proof {
                    assert forall|k: Seq<char>| #[trigger]
                        listed(fresh@, k) == (listed(self.keys@.take(i + 1), k) && live(k)) by {
                        lemma_listed_take(self.keys@, i as int, k);
                    }
                }
            }
            proof {
                assert forall|k: Seq<char>| #[trigger]
                    self.hits@.contains_key(k) == (m0.contains_key(k) && (live(k) || !listed(
                        self.keys@.take(i + 1),
                        k,
                    ))) by {
                    lemma_listed_take(self.keys@, i as int, k);
                    assert(hits_before.contains_key(k) == (m0.contains_key(k) && (live(k)
                        || !listed(self.keys@.take(i as int), k))));
                }
                assert forall|k: Seq<char>|
                    #![trigger self.hits@[k]]
                    self.hits@.contains_key(k) implies self.hits@[k] == m0[k] by {
                    assert(hits_before[k] == m0[k]);
                }
            }
            i += 1;
        }
        self.keys = fresh;
        proof {
            assert(old(self).keys@.take(i as int) =~= old(self).keys@);
            assert forall|k: Seq<char>| #[trigger]
                self.hits@.contains_key(k) <==> listed(self.keys@, k) by {
                assert(m0.contains_key(k) <==> listed(old(self).keys@, k));
            }
            assert(self@ =~= live_part(before, now, window));
        }
    }

    /// Counts one attempt under `key`. Within the budget of `max_attempts` in
    /// the last `window` nanoseconds the answer is `Ok`; else it is the number
    /// of seconds to wait.
    pub fn check(&mut self, key: String, max_attempts: u32, window: u64, now: u64) -> (r: Result<
        (),
        u64,
    >)
        requires
            old(self).wf(),
        ensures
            final(self).wf(),
            (r is Ok) == passes(old(self)@, key@, max_attempts, window, now),
            r is Err ==> r->Err_0 == retry_after(
                recent(counted(cleaned(old(self)@, now, window), key@), now, window),
                now,
                window,
            ),
            final(self)@ == after_call(old(self)@, key@, max_attempts, window, now),
    {
        let ghost before = self@;
        proof {
            lemma_key_count(self.keys@, self.hits@.dom());
            assert(self@.dom() =~= self.hits@.dom());
        }
        if self.keys.len() > MAX_KEYS {
            self.drop_stale(now, window);
            proof {
                lemma_key_count(self.keys@, self.hits@.dom());
                assert(self@.dom() =~= self.hits@.dom());
            }
            if self.keys.len() > MAX_KEYS {
                self.hits = StringHashMap::new();
                self.keys = Vec::new();
                assert(self@ =~= Map::empty());
            }
        }
        let ghost kept = self@;
        let ghost hits0 = self.hits@;
        let ghost keys0 = self.keys@;
        assert(kept == cleaned(before, now, window));
        assert(self.wf());
        let (known, mut hits) = match self.hits.get(key.as_str()) {
            Some(hits) => (true, keep_recent(hits, now, window)),
            None => (false, Vec::new()),
        };
        let ghost start = counted(kept, key@);
        assert(hits@ == recent(start, now, window));
        let r = if hits.len() >= max_attempts as usize {
            let left: u64 = if hits.len() > 0 {
                proof {
                    lemma_recent_is_recent(start, now, window);
                }
                let oldest = hits[0];
                window - (if now >= oldest {
                    now - oldest
                } else {
                    0
                })
            } else {
                window
            };
            Err(
                if left < NANOS {
                    1
                } else {
                    left / NANOS
                },
            )
        } else {
            hits.push(now);
            Ok(())
        };
        let ghost stored = hits@;
        if !known {
            self.keys.push(key.clone());
        }
        self.hits.insert(key.clone(), hits);
        proof {
            assert forall|k: Seq<char>| #[trigger]
                self.hits@.contains_key(k) <==> listed(self.keys@, k) by {
                assert(hits0.contains_key(k) <==> listed(keys0, k));
                if !known {
                    lemma_listed_push(keys0, key, k);
                }
            }
            assert forall|i: int, j: int| 0 <= i < j < self.keys@.len() implies (
            #[trigger] self.keys@[i])@ != (#[trigger] self.keys@[j])@ by {
                if !known && j == keys0.len() {
                    assert(!hits0.contains_key(key@));
                    assert(!listed(keys0, key@));
                    assert(keys0[i]@ != key@);
                } else {
                    assert(keys0[i]@ != keys0[j]@);
                }
            }
            assert(self@ =~= kept.insert(key@, stored));
        }
        r
    }
}

/// What is recent lies within the window.
proof fn lemma_recent_is_recent(hits: Seq<u64>, now: u64, window: u64)
    ensures
        forall|i: int|
            0 <= i < recent(hits, now, window).len() ==> elapsed(
                now,
                #[trigger] recent(hits, now, window)[i],
            ) < window,
    decreases hits.len(),
{
    if hits.len() > 0 {
        let rest = recent(hits.drop_last(), now, window);
        lemma_recent_is_recent(hits.drop_last(), now, window);
        assert forall|i: int| 0 <= i < recent(hits, now, window).len() implies elapsed(
            now,
            #[trigger] recent(hits, now, window)[i],
        ) < window by {
            if i < rest.len() {
                assert(recent(hits, now, window)[i] == rest[i]);
            }
        }
    }
}

proof fn lemma_recent_push(hits: Seq<u64>, t: u64, now: u64, window: u64)
    ensures
        recent(hits.push(t), now, window) == (if elapsed(now, t) < window {
            recent(hits, now, window).push(t)
        } else {
            recent(hits, now, window)
        }),
{
    assert(hits.push(t).drop_last() =~= hits);
}

/// What has left the window stays out of it.
proof fn lemma_recent_later(hits: Seq<u64>, now: u64, later: u64, window: u64)
    requires
        now <= later,
    ensures
        recent(recent(hits, now, window), later, window) == recent(hits, later, window),
    decreases hits.len(),
{
    if hits.len() > 0 {
        lemma_recent_later(hits.drop_last(), now, later, window);
        lemma_recent_push(recent(hits.drop_last(), now, window), hits.last(), later, window);
    }
}

/// A call of the limiter.
pub struct Attempt {
    pub key: Seq<char>,
    pub max_attempts: u32,
    pub window: u64,
    pub now: u64,
}

/// What a new limiter has counted after calls.
pub open spec fn after_calls(calls: Seq<Attempt>) -> Map<Seq<char>, Seq<u64>>
    decreases calls.len(),
{
    if calls.len() == 0 {
        Map::empty()
    } else {
        let c = calls.last();
        after_call(after_calls(calls.drop_last()), c.key, c.max_attempts, c.window, c.now)
    }
}

/// Whether a call that follows `calls` passes.
pub open spec fn call_passes(calls: Seq<Attempt>, c: Attempt) -> bool {
    passes(after_calls(calls), c.key, c.max_attempts, c.window, c.now)
}

/// When those of the calls under `key` were made that passed.
pub open spec fn passed(calls: Seq<Attempt>, key: Seq<char>) -> Seq<u64>
    decreases calls.len(),
{
    if calls.len() == 0 {
        Seq::empty()
    } else {
        let earlier = passed(calls.drop_last(), key);
        if calls.last().key == key && call_passes(calls.drop_last(), calls.last()) {
            earlier.push(calls.last().now)
        } else {
            earlier
        }
    }
}

/// The keys of the calls.
pub open spec fn called_keys(calls: Seq<Attempt>) -> Set<Seq<char>>
    decreases calls.len(),
{
    if calls.len() == 0 {
        Set::empty()
    } else {
        called_keys(calls.drop_last()).insert(calls.last().key)
    }
}

/// The calls are made one after another, under few enough keys for all to be
/// kept, and those under `key` with the same budget.
pub open spec fn are_calls(
    calls: Seq<Attempt>,
    key: Seq<char>,
    max_attempts: u32,
    window: u64,
) -> bool {
    &&& forall|i: int, j: int| 0 <= i <= j < calls.len() ==> calls[i].now <= calls[j].now
    &&& called_keys(calls).len() <= MAX_KEYS
    &&& forall|i: int|
        0 <= i < calls.len() && (#[trigger] calls[i]).key == key ==> calls[i].max_attempts
            == max_attempts && calls[i].window == window
}

proof fn lemma_called_keys(calls: Seq<Attempt>)
    ensures
        called_keys(calls).finite(),
        after_calls(calls).dom().subset_of(called_keys(calls)),
        after_calls(calls).dom().len() <= called_keys(calls).len(),
        calls.len() > 0 ==> called_keys(calls.drop_last()).len() <= called_keys(calls).len(),
    decreases calls.len(),
{
    if calls.len() > 0 {
        let past = calls.drop_last();
        lemma_called_keys(past);
        let c = calls.last();
        let m = after_calls(past);
        assert(cleaned(m, c.now, c.window).dom().subset_of(m.dom()));
        assert(after_calls(calls).dom().subset_of(called_keys(calls)));
    } else {
        assert(after_calls(calls).dom() =~= Set::empty());
    }
    vstd::set_lib::lemma_len_subset(after_calls(calls).dom(), called_keys(calls));
}

proof fn lemma_are_calls(calls: Seq<Attempt>, key: Seq<char>, max_attempts: u32, window: u64)
    requires
        are_calls(calls, key, max_attempts, window),
        calls.len() > 0,
    ensures
        are_calls(calls.drop_last(), key, max_attempts, window),
{
    let past = calls.drop_last();
    lemma_called_keys(calls);
    assert(forall|i: int| 0 <= i < past.len() ==> #[trigger] past[i] == calls[i]);
}

/// What is counted under a key is, within the window, the calls that passed.
proof fn lemma_passed(
    calls: Seq<Attempt>,
    key: Seq<char>,
    max_attempts: u32,
    window: u64,
    later: u64,
)
    requires
        are_calls(calls, key, max_attempts, window),
        calls.len() > 0 ==> calls.last().now <= later,
    ensures
        recent(counted(after_calls(calls), key), later, window) == recent(
            passed(calls, key),
            later,
            window,
        ),
    decreases calls.len(),
{
    if calls.len() > 0 {
        let c = calls.last();
        let past = calls.drop_last();
        let stored = counted(after_calls(past), key);
        let earlier = passed(past, key);
        assert(past.len() > 0 ==> past.last() == calls[calls.len() - 2]);
        assert(c == calls[calls.len() - 1]);
        lemma_are_calls(calls, key, max_attempts, window);
        lemma_called_keys(past);
        lemma_passed(past, key, max_attempts, window, later);
        if c.key == key {
            lemma_recent_later(stored, c.now, later, window);
            lemma_recent_push(recent(stored, c.now, window), c.now, later, window);
            lemma_recent_push(earlier, c.now, later, window);
        }
    }
}

/// A call passes exactly where fewer calls under its key than the budget allows
/// passed within the window before it. Calls that were refused do not count,
/// nor do those under other keys. A budget of none refuses every call.
pub proof fn law_calls_pass_within_the_budget(calls: Seq<Attempt>, c: Attempt)
    requires
        are_calls(calls.push(c), c.key, c.max_attempts, c.window),
    ensures
        call_passes(calls, c) == (recent(passed(calls, c.key), c.now, c.window).len()
            < c.max_attempts),
        c.max_attempts == 0 ==> !call_passes(calls, c),
{
    let all = calls.push(c);
    assert(all.drop_last() =~= calls);
    lemma_are_calls(all, c.key, c.max_attempts, c.window);
    assert(calls.len() > 0 ==> calls.last() == all[calls.len() - 1]);
    assert(c == all[calls.len() as int]);
    lemma_passed(calls, c.key, c.max_attempts, c.window, c.now);
    lemma_called_keys(calls);
}

/// How many of the times lie in `from..to`.
pub open spec fn within(times: Seq<u64>, from: int, to: int) -> nat
    decreases times.len(),
{
    if times.len() == 0 {
        0
    } else {
        within(times.drop_last(), from, to) + (if from <= times.last() < to {
            1nat
        } else {
            0
        })
    }
}

proof fn lemma_within_is_recent(times: Seq<u64>, from: int, now: u64, window: u64)
    requires
        from <= now < from + window,
    ensures
        within(times, from, from + window) <= recent(times, now, window).len(),
    decreases times.len(),
{
    if times.len() > 0 {
        lemma_within_is_recent(times.drop_last(), from, now, window);
    }
}

/// No span as long as the window holds more calls under a key that passed than
/// the budget allows.
pub proof fn law_budget_is_kept(
    calls: Seq<Attempt>,
    key: Seq<char>,
    max_attempts: u32,
    window: u64,
    from: int,
)
    requires
        are_calls(calls, key, max_attempts, window),
    ensures
        within(passed(calls, key), from, from + window) <= max_attempts,
    decreases calls.len(),
{
    if calls.len() > 0 {
        let c = calls.last();
        let past = calls.drop_last();
        let earlier = passed(past, key);
        lemma_are_calls(calls, key, max_attempts, window);
        law_budget_is_kept(past, key, max_attempts, window, from);
        if c.key == key && call_passes(past, c) {
            assert(c == calls[calls.len() - 1]);
            assert(past.push(c) =~= calls);
            law_calls_pass_within_the_budget(past, c);
            assert(earlier.push(c.now).drop_last() =~= earlier);
            if from <= c.now < from + window {
                lemma_within_is_recent(earlier, from, c.now, window);
            }
        }
    }
}

/// An attempt that is refused is admitted again once a whole window has
/// passed without one.
pub proof fn law_budget_comes_back(hits: Seq<u64>, max_attempts: u32, window: u64, now: u64)
    requires
        max_attempts > 0,
        forall|i: int| 0 <= i < hits.len() ==> hits[i] + window <= now,
    ensures
        admits(hits, max_attempts, window, now),
{
    lemma_no_recent(hits, window, now);
}

proof fn lemma_no_recent(hits: Seq<u64>, window: u64, now: u64)
    requires
        forall|i: int| 0 <= i < hits.len() ==> hits[i] + window <= now,
    ensures
        recent(hits, now, window).len() == 0,
    decreases hits.len(),
{
    if hits.len() > 0 {
        assert(hits.last() + window <= now);
        lemma_no_recent(hits.drop_last(), window, now);
    }
}

/// With up to fifty thousand keys nothing that was counted is forgotten. With
/// more, only what is out of the window is, unless more than that are live.
pub proof fn law_many_keys_are_remembered(
    m: Map<Seq<char>, Seq<u64>>,
    key: Seq<char>,
    max_attempts: u32,
    window: u64,
    now: u64,
)
    requires
        m.dom().finite(),
    ensures
        m.dom().len() <= 50_000 ==> passes(m, key, max_attempts, window, now) == admits(
            counted(m, key),
            max_attempts,
            window,
            now,
        ),
        m.dom().len() <= 50_000 ==> forall|k: Seq<char>| #[trigger]
            m.dom().contains(k) && k != key ==> after_call(m, key, max_attempts, window, now)[k]
                == m[k],
        m.dom().len() > 50_000 && live_part(m, now, window).dom().len() > 50_000 ==> passes(
            m,
            key,
            max_attempts,
            window,
            now,
        ) == (max_attempts > 0),
{
    assert(recent(Seq::empty(), now, window) =~= Seq::<u64>::empty());
}

/// Who is told to wait some seconds is told at least one. A second after them the
/// oldest attempt is out of the window, and before them it is not, unless less
/// than a second is left.
pub proof fn law_wait_is_as_long_as_told(hits: Seq<u64>, now: u64, window: u64)
    requires
        hits.len() > 0,
        hits[0] <= now,
        now - hits[0] < window,
    ensures
        ({
            let wait = retry_after(hits, now, window);
            &&& wait >= 1
            &&& now + (wait + 1) * 1_000_000_000 - hits[0] >= window
            &&& wait > 1 ==> now + wait * 1_000_000_000 - hits[0] <= window
        }),
{
    let left = window - (now - hits[0]);
    let wait = left / 1_000_000_000;
    assert(left == wait * 1_000_000_000 + left % 1_000_000_000);
}

// ---------- keys ----------

/// The characters of `s` that are ASCII letters, digits or one of `others`.
pub open spec fn kept_chars(s: Seq<char>, others: Seq<char>) -> Seq<char>
    decreases s.len(),
{
    if s.len() == 0 {
        Seq::empty()
    } else {
        let rest = kept_chars(s.drop_last(), others);
        if is_ascii_alphanumeric(s.last()) || others.contains(s.last()) {
            rest.push(s.last())
        } else {
            rest
        }
    }
}

/// The first `n` characters of `s`, all of them where it is shorter.
pub open spec fn at_most(s: Seq<char>, n: int) -> Seq<char> {
    if s.len() <= n {
        s
    } else {
        s.take(n)
    }
}

/// A key of the limiter: the scope and what is kept of the identity, or
/// "unknown" where nothing is.
pub open spec fn scoped_key(
    scope: Seq<char>,
    id: Seq<char>,
    others: Seq<char>,
    limit: int,
) -> Seq<char> {
    let clean = at_most(kept_chars(id, others), limit);
    scope + ":"@ + (if clean.len() == 0 {
        "unknown"@
    } else {
        clean
    })
}

/// Builds a key of the limiter from an identity that anyone may have sent.
pub fn sanitized_key(scope: &str, id: &str, others: &str, limit: usize) -> (r: String)
    requires
        limit > 0,
    ensures
        r@ == scoped_key(scope@, id@, others@, limit as int),
{
    let chars = chars_of(id);
    let allowed = chars_of(others);
    let mut clean = String::new();
    let mut count: usize = 0;
    let mut i: usize = 0;
    while i < chars.len()
        invariant
            i <= chars@.len(),
            chars@ == id@,
            allowed@ == others@,
            count <= limit,
            count == clean@.len(),
            clean@ == at_most(kept_chars(id@.take(i as int), others@), limit as int),
        decreases chars@.len() - i,
    {
        let c = chars[i];
        let mut known = alphanumeric(c);
        let mut j: usize = 0;
        while j < allowed.len()
            invariant
                j <= allowed@.len(),
                allowed@ == others@,
                known == (is_ascii_alphanumeric(c) || others@.take(j as int).contains(c)),
            decreases allowed@.len() - j,
        {
            proof {
                assert(others@.take(j + 1) =~= others@.take(j as int).push(others@[j as int]));
                if others@.take(j as int).contains(c) {
                    let k = choose|k: int|
                        0 <= k < j && #[trigger] others@.take(j as int)[k] == c;
                    assert(others@.take(j + 1)[k] == c);
                }
                if others@.take(j + 1).contains(c) {
                    let k = choose|k: int|
                        0 <= k < j + 1 && #[trigger] others@.take(j + 1)[k] == c;
                    if k < j {
                        assert(others@.take(j as int)[k] == c);
                    }
                }
                if others@[j as int] == c {
                    assert(others@.take(j + 1)[j as int] == c);
                }
            }
            if allowed[j] == c {
                known = true;
            }
            j += 1;
        }
        proof {
            assert(others@.take(j as int) =~= others@);
            assert(id@.take(i + 1).drop_last() =~= id@.take(i as int));
            assert(id@.take(i + 1).last() == c);
        }
        if known && count < limit {
            clean.push(c);
            count += 1;
        }
        proof {
            assert(clean@ =~= at_most(kept_chars(id@.take(i + 1), others@), limit as int));
        }
        i += 1;
    }
    assert(id@.take(i as int) =~= id@);
    let mut key = owned(scope);
    key.push_str(":");
    if count == 0 {
        key.push_str("unknown");
    } else {
        key.push_str(clean.as_str());
    }
    key
}

/// What is kept of a text are characters of it that may be kept: all of them
/// where all may, none where none may.
pub proof fn lemma_kept_chars(s: Seq<char>, others: Seq<char>)
    ensures
        kept_chars(s, others).len() <= s.len(),
        forall|i: int|
            0 <= i < kept_chars(s, others).len() ==> s.contains(
                #[trigger] kept_chars(s, others)[i],
            ) && (is_ascii_alphanumeric(kept_chars(s, others)[i]) || others.contains(
                kept_chars(s, others)[i],
            )),
        (forall|i: int|
            0 <= i < s.len() ==> is_ascii_alphanumeric(#[trigger] s[i]) || others.contains(s[i]))
            ==> kept_chars(s, others) == s,
        (forall|i: int|
            0 <= i < s.len() ==> !is_ascii_alphanumeric(#[trigger] s[i]) && !others.contains(s[i]))
            ==> kept_chars(s, others).len() == 0,
    decreases s.len(),
{
    if s.len() > 0 {
        let start = s.drop_last();
        let kept = kept_chars(s, others);
        lemma_kept_chars(start, others);
        assert(forall|i: int| 0 <= i < start.len() ==> start[i] == #[trigger] s[i]);
        assert forall|i: int| 0 <= i < kept.len() implies s.contains(#[trigger] kept[i]) && (
        is_ascii_alphanumeric(kept[i]) || others.contains(kept[i])) by {
            if i < kept_chars(start, others).len() {
                assert(kept[i] == kept_chars(start, others)[i]);
                let j = choose|j: int| 0 <= j < start.len() && start[j] == kept[i];
                assert(s[j] == kept[i]);
            } else {
                assert(s[s.len() - 1] == kept[i]);
            }
        }
        if forall|i: int|
            0 <= i < s.len() ==> is_ascii_alphanumeric(#[trigger] s[i]) || others.contains(s[i]) {
            assert(kept_chars(start, others) == start);
            assert(start.push(s.last()) =~= s);
        }
    }
}

/// The trimmed header, where there is one that is not blank.
pub open spec fn header_token(header: Option<Seq<char>>) -> Option<Seq<char>> {
    match header {
        Some(s) => if trimmed(s).len() > 0 {
            Some(trimmed(s))
        } else {
            None
        },
        None => None,
    }
}

/// Who the client is, as far as the hosting proxy says: the first entry of
/// `X-Forwarded-For`, else `X-Real-Ip`, else "unknown".
pub open spec fn client_identity(headers: Headers) -> Seq<char> {
    let forwarded = header_token(
        match headers.x_forwarded_for {
            Some(s) => Some(split_at(s@, ',')[0]),
            None => None,
        },
    );
    let direct = header_token(
        match headers.x_real_ip {
            Some(s) => Some(s@),
            None => None,
        },
    );
    match forwarded {
        Some(ip) => ip,
        None => match direct {
            Some(ip) => ip,
            None => "unknown"@,
        },
    }
}

fn token_of<'a>(header: Option<&'a str>) -> (r: Option<&'a str>)
    ensures
        match r {
            Some(t) => header_token(
                match header {
                    Some(s) => Some(s@),
                    None => None,
                },
            ) == Some(t@),
            None => header_token(
                match header {
                    Some(s) => Some(s@),
                    None => None,
                },
            ) is None,
        },
{
    match header {
        Some(s) => {
            let t = trim(s);
            if t.unicode_len() > 0 {
                Some(t)
            } else {
                None
            }
        },
        None => None,
    }
}

/// The key under which a client's attempts at `scope` are counted.
pub fn client_key(headers: &Headers, scope: &str) -> (r: String)
    ensures
        r@ == scoped_key(scope@, client_identity(*headers), ".:_-"@, 64),
{
    let forwarded = match &headers.x_forwarded_for {
        Some(s) => {
            let parts = split(s.as_str(), ',');
            assert(views(parts@)[0] == split_at(s@, ',')[0]);
            token_of(Some(parts[0]))
        },
        None => token_of(None),
    };
    let direct = match &headers.x_real_ip {
        Some(s) => token_of(Some(s.as_str())),
        None => token_of(None),
    };
    let ip = match forwarded {
        Some(ip) => ip,
        None => match direct {
            Some(ip) => ip,
            None => "unknown",
        },
    };
    sanitized_key(scope, ip, ".:_-", 64)
}

} // verus!
