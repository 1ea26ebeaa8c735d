//! Runs of the single-flight store: sequences of requests and outcomes, as
//! many concurrent callers would produce them one locked step after another,
//! and the laws that hold of every such run.
use crate::flight::{
    begin_spec, complete_spec, fail_spec, is_pending, waiters_of, Slot, Step,
};
use vstd::prelude::*;

verus! {

/// One locked step on the store.
pub enum Event {
    /// `Request(key, waiter)`: a caller asks for `key`.
    Request(u64, u64),
    /// `Complete(key, value)`: the computing party publishes `value`.
    Complete(u64, u64),
    /// `Fail(key)`: the computing party reports that its computation failed.
    Fail(u64),
}

pub open spec fn key_of(e: Event) -> u64 {
    match e {
        Event::Request(k, _) => k,
        Event::Complete(k, _) => k,
        Event::Fail(k) => k,
    }
}

/// Only the computing party reports an outcome, and only while its key is
/// pending.
pub open spec fn legal(m: Map<u64, Slot>, e: Event) -> bool {
    match e {
        Event::Request(_, _) => true,
        Event::Complete(k, _) => is_pending(m, k),
        Event::Fail(k) => is_pending(m, k),
    }
}

pub open spec fn apply(m: Map<u64, Slot>, e: Event) -> Map<u64, Slot> {
    match e {
        Event::Request(k, w) => begin_spec(m, k, w).0,
        Event::Complete(k, v) => complete_spec(m, k, v),
        Event::Fail(k) => fail_spec(m, k),
    }
}

pub open spec fn valid_run(m: Map<u64, Slot>, evs: Seq<Event>) -> bool
    decreases evs.len(),
{
    evs.len() == 0 || (legal(m, evs[0]) && valid_run(apply(m, evs[0]), evs.drop_first()))
}

/// The store after the whole run.
pub open spec fn after(m: Map<u64, Slot>, evs: Seq<Event>) -> Map<u64, Slot>
    decreases evs.len(),
{
    if evs.len() == 0 {
        m
    } else {
        after(apply(m, evs[0]), evs.drop_first())
    }
}

/// What the requests for `key` were told, in order.
pub open spec fn answers(m: Map<u64, Slot>, evs: Seq<Event>, key: u64) -> Seq<Step>
    decreases evs.len(),
{
    if evs.len() == 0 {
        Seq::empty()
    } else {
        let rest = answers(apply(m, evs[0]), evs.drop_first(), key);
        match evs[0] {
            Event::Request(k, w) => if k == key {
                seq![begin_spec(m, k, w).1] + rest
            } else {
                rest
            },
            _ => rest,
        }
    }
}

/// How many computations of `key` the run started.
pub open spec fn computations(m: Map<u64, Slot>, evs: Seq<Event>, key: u64) -> nat
    decreases evs.len(),
{
    if evs.len() == 0 {
        0
    } else {
        let rest = computations(apply(m, evs[0]), evs.drop_first(), key);
        match evs[0] {
            Event::Request(k, w) => if k == key && begin_spec(m, k, w).1 is Compute {
                rest + 1
            } else {
                rest
            },
            _ => rest,
        }
    }
}

pub open spec fn completions(evs: Seq<Event>, key: u64) -> nat
    decreases evs.len(),
{
    if evs.len() == 0 {
        0
    } else {
        completions(evs.drop_first(), key) + (if evs[0] is Complete && key_of(evs[0]) == key {
            1nat
        } else {
            0nat
        })
    }
}

pub open spec fn failures(evs: Seq<Event>, key: u64) -> nat
    decreases evs.len(),
{
    if evs.len() == 0 {
        0
    } else {
        failures(evs.drop_first(), key) + (if evs[0] is Fail && key_of(evs[0]) == key {
            1nat
        } else {
            0nat
        })
    }
}

/// The callers that asked for `key` during the run, in order.
pub open spec fn requesters(evs: Seq<Event>, key: u64) -> Seq<u64>
    decreases evs.len(),
{
    if evs.len() == 0 {
        Seq::empty()
    } else {
        let rest = requesters(evs.drop_first(), key);
        match evs[0] {
            Event::Request(k, w) => if k == key {
                seq![w] + rest
            } else {
                rest
            },
            _ => rest,
        }
    }
}

pub open spec fn pending_count(m: Map<u64, Slot>, key: u64) -> int {
    if is_pending(m, key) {
        1
    } else {
        0
    }
}

/// Every computation started for `key` is accounted for: it completed, it
/// failed, or it is the one still in flight. Since a key is pending while its
/// computation runs, and a request on a pending key waits, no second
/// computation of a key ever starts while one is in flight; and a key is
/// completed at most once, so a successful value is computed exactly once.
pub proof fn lemma_at_most_once(m: Map<u64, Slot>, evs: Seq<Event>, key: u64)
    requires
        valid_run(m, evs),
        !is_pending(m, key),
    ensures
        computations(m, evs, key) == completions(evs, key) + failures(evs, key) + pending_count(
            after(m, evs),
            key,
        ),
        !m.contains_key(key) ==> completions(evs, key) <= 1,
        m.contains_key(key) ==> computations(m, evs, key) == 0 && completions(evs, key) == 0,
{
    lemma_accounting(m, evs, key);
    lemma_completed_once(m, evs, key);
}

proof fn lemma_accounting(m: Map<u64, Slot>, evs: Seq<Event>, key: u64)
    requires
        valid_run(m, evs),
    ensures
        computations(m, evs, key) + pending_count(m, key) == completions(evs, key) + failures(
            evs,
            key,
        ) + pending_count(after(m, evs), key),
    decreases evs.len(),
{
    if evs.len() > 0 {
        lemma_accounting(apply(m, evs[0]), evs.drop_first(), key);
    }
}

/// Once `key` is ready, the run keeps its value, starts no computation of it
/// and completes it no more.
proof fn lemma_ready_kept(m: Map<u64, Slot>, evs: Seq<Event>, key: u64, v: u64)
    requires
        valid_run(m, evs),
        m.contains_key(key),
        m[key] == Slot::Ready(v),
    ensures
        after(m, evs).contains_key(key),
        after(m, evs)[key] == Slot::Ready(v),
        computations(m, evs, key) == 0,
        completions(evs, key) == 0,
        forall|i: int| 0 <= i < answers(m, evs, key).len() ==> answers(m, evs, key)[i] == Step::Hit(v),
    decreases evs.len(),
{
    if evs.len() > 0 {
        let m1 = apply(m, evs[0]);
        assert(m1.contains_key(key) && m1[key] == Slot::Ready(v));
        lemma_ready_kept(m1, evs.drop_first(), key, v);
        let rest = answers(m1, evs.drop_first(), key);
        assert forall|i: int| 0 <= i < answers(m, evs, key).len() implies answers(m, evs, key)[i]
            == Step::Hit(v) by {
            match evs[0] {
                Event::Request(k, w) => if k == key {
                    assert(answers(m, evs, key) == seq![Step::Hit(v)] + rest);
                    if i > 0 {
                        assert(answers(m, evs, key)[i] == rest[i - 1]);
                    }
                },
                _ => {},
            }
        }
    }
}

/// A key that starts out empty or pending is completed at most once.
proof fn lemma_completed_once(m: Map<u64, Slot>, evs: Seq<Event>, key: u64)
    requires
        valid_run(m, evs),
    ensures
        !m.contains_key(key) || is_pending(m, key) ==> completions(evs, key) <= 1,
        m.contains_key(key) && !is_pending(m, key) ==> computations(m, evs, key) == 0 && completions(evs, key) == 0,
    decreases evs.len(),
{
    if m.contains_key(key) && !is_pending(m, key) {
        let v = match m[key] {
            Slot::Ready(v) => v,
            Slot::Pending(_) => 0,
        };
        lemma_ready_kept(m, evs, key, v);
    } else if evs.len() > 0 {
        let m1 = apply(m, evs[0]);
        lemma_completed_once(m1, evs.drop_first(), key);
        if evs[0] is Complete && key_of(evs[0]) == key {
            assert(m1[key] is Ready);
        }
    }
}

/// Once a caller has seen `key` ready with value `v`, every later request
/// for `key` is answered with `v`, no computation of it starts again, and the
/// store still holds `v` at the end.
pub proof fn lemma_consistency(m: Map<u64, Slot>, evs: Seq<Event>, key: u64, v: u64)
    requires
        valid_run(m, evs),
        m.contains_key(key),
        m[key] == Slot::Ready(v),
    ensures
        forall|i: int|
            0 <= i < answers(m, evs, key).len() ==> #[trigger] answers(m, evs, key)[i] == Step::Hit(v),
        computations(m, evs, key) == 0,
        after(m, evs).contains_key(key),
        after(m, evs)[key] == Slot::Ready(v),
{
    lemma_ready_kept(m, evs, key, v);
}

/// A failed computation does not poison its key: the next request for it
/// starts a fresh computation, and a success of that one is kept and handed
/// out from then on.
pub proof fn lemma_retry_after_failure(m: Map<u64, Slot>, key: u64, w1: u64, w2: u64, v: u64)
    requires
        is_pending(m, key),
    ensures
        !fail_spec(m, key).contains_key(key),
        begin_spec(fail_spec(m, key), key, w1).1 == Step::Compute,
        is_pending(begin_spec(fail_spec(m, key), key, w1).0, key),
        begin_spec(complete_spec(begin_spec(fail_spec(m, key), key, w1).0, key, v), key, w2).1
            == Step::Hit(v),
{
}

/// No wakeup is missed: while `key` is in flight, every caller that asks for
/// it is told to wait and is registered, in order, after those already
/// waiting; so the `complete` or `fail` that ends the flight releases all of
/// them. Requests and outcomes for other keys change nothing of this.
pub proof fn lemma_no_missed_wakeups(m: Map<u64, Slot>, evs: Seq<Event>, key: u64)
    requires
        valid_run(m, evs),
        is_pending(m, key),
        forall|i: int| 0 <= i < evs.len() ==> (#[trigger] evs[i] is Request || key_of(evs[i]) != key),
    ensures
        is_pending(after(m, evs), key),
        waiters_of(after(m, evs), key) == waiters_of(m, key) + requesters(evs, key),
        forall|i: int|
            0 <= i < answers(m, evs, key).len() ==> #[trigger] answers(m, evs, key)[i] == Step::Wait,
        answers(m, evs, key).len() == requesters(evs, key).len(),
    decreases evs.len(),
{
    if evs.len() > 0 {
        let m1 = apply(m, evs[0]);
        let tail = evs.drop_first();
        assert forall|i: int| 0 <= i < tail.len() implies (#[trigger] tail[i] is Request || key_of(
            tail[i],
        ) != key) by {
            assert(tail[i] == evs[i + 1]);
        }
        assert(evs[0] is Request || key_of(evs[0]) != key);
        lemma_no_missed_wakeups(m1, tail, key);
        let rest = answers(m1, tail, key);
        match evs[0] {
            Event::Request(k, w) => if k == key {
                assert(waiters_of(m1, key) == waiters_of(m, key).push(w));
                assert(waiters_of(m, key) + requesters(evs, key) =~= waiters_of(m, key).push(w)
                    + requesters(tail, key));
                assert forall|i: int| 0 <= i < answers(m, evs, key).len() implies #[trigger] answers(
                    m,
                    evs,
                    key,
                )[i] == Step::Wait by {
                    assert(answers(m, evs, key) == seq![Step::Wait] + rest);
                    if i > 0 {
                        assert(answers(m, evs, key)[i] == rest[i - 1]);
                    }
                }
            } else {
                assert(waiters_of(m1, key) == waiters_of(m, key));
            },
            Event::Complete(k, _) => assert(waiters_of(m1, key) == waiters_of(m, key)),
            Event::Fail(k) => assert(waiters_of(m1, key) == waiters_of(m, key)),
        }
    }
}

/// Keys are independent: a step on one key leaves every other key's state as
/// it was.
pub proof fn lemma_independent_keys(m: Map<u64, Slot>, e: Event, key: u64)
    requires
        legal(m, e),
        key_of(e) != key,
    ensures
        apply(m, e).contains_key(key) == m.contains_key(key),
        m.contains_key(key) ==> apply(m, e)[key] == m[key],
{
}

} // verus!
