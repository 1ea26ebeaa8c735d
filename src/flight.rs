//! The single-flight store: per key, nothing (empty), a computation in flight
//! with the callers waiting on it, or the value computed once and kept.
use std::collections::HashMap;
use vstd::prelude::*;

verus! {

broadcast use vstd::std_specs::hash::group_hash_axioms;

/// What the store holds for one key, as a mathematical value.
pub enum Slot {
    /// A computation is in flight; the waiters registered on it, in order.
    Pending(Seq<u64>),
    /// The computed value, kept from then on.
    Ready(u64),
}

/// The stored state of one key.
enum Entry {
    Pending(Vec<u64>),
    Ready(u64),
}

impl Entry {
    spec fn slot(self) -> Slot {
        match self {
            Entry::Pending(ws) => Slot::Pending(ws@),
            Entry::Ready(v) => Slot::Ready(v),
        }
    }
}

/// What a caller learns from [`Store::lookup`].
#[derive(PartialEq, Eq, Structural, Clone, Copy, Debug)]
pub enum State {
    Pending,
    Ready(u64),
}

/// What a caller of [`Store::begin`] must do next.
#[derive(PartialEq, Eq, Structural, Clone, Copy, Debug)]
pub enum Step {
    /// The value is there: return it.
    Hit(u64),
    /// The caller is the computing party: run the computation, then report
    /// the outcome with [`Store::complete`] or [`Store::fail`].
    Compute,
    /// Another caller computes: wait to be released with its outcome.
    Wait,
}

pub open spec fn state_of(m: Map<u64, Slot>, key: u64) -> Option<State> {
    if !m.contains_key(key) {
        None
    } else {
        match m[key] {
            Slot::Pending(_) => Some(State::Pending),
            Slot::Ready(v) => Some(State::Ready(v)),
        }
    }
}

pub open spec fn is_pending(m: Map<u64, Slot>, key: u64) -> bool {
    m.contains_key(key) && m[key] is Pending
}

pub open spec fn waiters_of(m: Map<u64, Slot>, key: u64) -> Seq<u64> {
    match m[key] {
        Slot::Pending(ws) => ws,
        Slot::Ready(_) => Seq::empty(),
    }
}

/// One request for `key` by the caller `waiter`: a hit if the value is there,
/// a new computation if the key is empty, a wait otherwise.
pub open spec fn begin_spec(m: Map<u64, Slot>, key: u64, waiter: u64) -> (Map<u64, Slot>, Step) {
    if !m.contains_key(key) {
        (m.insert(key, Slot::Pending(Seq::empty())), Step::Compute)
    } else {
        match m[key] {
            Slot::Ready(v) => (m, Step::Hit(v)),
            Slot::Pending(ws) => (m.insert(key, Slot::Pending(ws.push(waiter))), Step::Wait),
        }
    }
}

/// A successful computation of a pending key: the value is kept.
pub open spec fn complete_spec(m: Map<u64, Slot>, key: u64, value: u64) -> Map<u64, Slot> {
    m.insert(key, Slot::Ready(value))
}

/// A failed computation of a pending key: the key is empty again.
pub open spec fn fail_spec(m: Map<u64, Slot>, key: u64) -> Map<u64, Slot> {
    m.remove(key)
}

pub open spec fn sat_inc(n: u64) -> u64 {
    if n == u64::MAX { n } else { (n + 1) as u64 }
}

/// The per-key states of a cache, with counters of hits and of computations
/// started.
pub struct Store {
    entries: HashMap<u64, Entry>,
    hits: u64,
    misses: u64,
}

impl Store {
    pub closed spec fn hit_count(&self) -> u64 {
        self.hits
    }

    pub closed spec fn miss_count(&self) -> u64 {
        self.misses
    }

    /// An empty store.
    pub fn new() -> (r: Store)
        ensures
            r@ == Map::<u64, Slot>::empty(),
            r.hit_count() == 0,
            r.miss_count() == 0,
    {
        let r = Store { entries: HashMap::new(), hits: 0, misses: 0 };
        assert(r@ =~= Map::<u64, Slot>::empty());
        r
    }

    /// The state of `key`, without changing anything.
    pub fn lookup(&self, key: u64) -> (r: Option<State>)
        ensures
            r == state_of(self@, key),
    {
        match self.entries.get(&key) {
            None => None,
            Some(Entry::Pending(_)) => Some(State::Pending),
            Some(Entry::Ready(v)) => Some(State::Ready(*v)),
        }
    }

    /// The value of `key` if and only if it has been computed.
    pub fn get_ready(&self, key: u64) -> (r: Option<u64>)
        ensures
            r == (match state_of(self@, key) {
                Some(State::Ready(v)) => Some(v),
                _ => None,
            }),
    {
        match self.entries.get(&key) {
            Some(Entry::Ready(v)) => Some(*v),
            _ => None,
        }
    }

    /// Claims an empty key for computation. Returns whether this call won it;
    /// a key that is pending or ready is left as it was.
    pub fn insert_pending(&mut self, key: u64) -> (r: bool)
        ensures
            r == !old(self)@.contains_key(key),
            r ==> final(self)@ == old(self)@.insert(key, Slot::Pending(Seq::empty())),
            !r ==> final(self)@ == old(self)@,
            final(self).hit_count() == old(self).hit_count(),
            final(self).miss_count() == old(self).miss_count(),
    {
        if self.entries.contains_key(&key) {
            false
        } else {
            self.entries.insert(key, Entry::Pending(Vec::new()));
            assert(self@ =~= old(self)@.insert(key, Slot::Pending(Seq::empty())));
            true
        }
    }

    /// Publishes the value of a pending key and hands back the waiters to
    /// release with it, in the order in which they came.
    ///
    /// A key that is not pending means the coordinator is broken; callers
    /// must not do that.
    pub fn complete(&mut self, key: u64, value: u64) -> (released: Vec<u64>)
        requires
            is_pending(old(self)@, key),
        ensures
            released@ == waiters_of(old(self)@, key),
            final(self)@ == complete_spec(old(self)@, key, value),
            final(self).hit_count() == old(self).hit_count(),
            final(self).miss_count() == old(self).miss_count(),
    {
        let ghost m = self@;
        let prev = self.entries.insert(key, Entry::Ready(value));
        assert(self@ =~= complete_spec(m, key, value));
        match prev {
            Some(Entry::Pending(ws)) => ws,
            _ => {
                assert(false);
                Vec::new()
            },
        }
    }

    /// Records that the computation of a pending key failed: the key is empty
    /// again, so a later request computes afresh. Hands back the waiters to
    /// release with the failure.
    pub fn fail(&mut self, key: u64) -> (released: Vec<u64>)
        requires
            is_pending(old(self)@, key),
        ensures
            released@ == waiters_of(old(self)@, key),
            final(self)@ == fail_spec(old(self)@, key),
            final(self).hit_count() == old(self).hit_count(),
            final(self).miss_count() == old(self).miss_count(),
    {
        let ghost m = self@;
        let prev = self.entries.remove(&key);
        assert(self@ =~= fail_spec(m, key));
        match prev {
            Some(Entry::Pending(ws)) => ws,
            _ => {
                assert(false);
                Vec::new()
            },
        }
    }

    /// One request for `key` by the caller `waiter`, decided in one step: the
    /// value if it is there, the computation if the key is empty (the caller
    /// becomes the computing party), a wait otherwise (the caller is
    /// registered and released by the matching `complete` or `fail`).
    pub fn begin(&mut self, key: u64, waiter: u64) -> (step: Step)
        ensures
            (final(self)@, step) == begin_spec(old(self)@, key, waiter),
            final(self).hit_count() == (if step is Hit {
                sat_inc(old(self).hit_count())
            } else {
                old(self).hit_count()
            }),
            final(self).miss_count() == (if step is Compute {
                sat_inc(old(self).miss_count())
            } else {
                old(self).miss_count()
            }),
    {
        let ghost m = self@;
        match self.entries.remove(&key) {
            None => {
                self.entries.insert(key, Entry::Pending(Vec::new()));
                self.misses = self.misses.saturating_add(1);
                assert(self@ =~= m.insert(key, Slot::Pending(Seq::empty())));
                Step::Compute
            },
            Some(Entry::Ready(v)) => {
                self.entries.insert(key, Entry::Ready(v));
                self.hits = self.hits.saturating_add(1);
                assert(self@ =~= m);
                Step::Hit(v)
            },
            Some(Entry::Pending(ws)) => {
                let mut ws = ws;
                ws.push(waiter);
                self.entries.insert(key, Entry::Pending(ws));
                assert(self@ =~= m.insert(key, Slot::Pending(waiters_of(m, key).push(waiter))));
                Step::Wait
            },
        }
    }

    /// How many requests found their value ready (saturating).
    pub fn hits(&self) -> (r: u64)
        ensures
            r == self.hit_count(),
    {
        self.hits
    }

    /// How many computations were started (saturating).
    pub fn misses(&self) -> (r: u64)
        ensures
            r == self.miss_count(),
    {
        self.misses
    }
}

impl View for Store {
    type V = Map<u64, Slot>;

    closed spec fn view(&self) -> Map<u64, Slot> {
        self.entries@.map_values(|e: Entry| e.slot())
    }
}

} // verus!
