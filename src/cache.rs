//! The cache facade for one caller at a time: `get_or_compute` hands out the
//! kept value of a key, or runs the computation and keeps a success.
use crate::flight::{is_pending, sat_inc, state_of, Slot, State, Step, Store};
use vstd::prelude::*;

verus! {

/// A memoizing cache driven by one caller at a time. Every call finishes its
/// key before it returns, so no key is ever left pending.
pub struct Cache {
    store: Store,
}

impl Cache {
    pub closed spec fn view(&self) -> Map<u64, Slot> {
        self.store@
    }

    /// No key is left in flight between calls.
    pub closed spec fn wf(&self) -> bool {
        forall|k: u64| !is_pending(self.store@, k)
    }

    pub closed spec fn computed(&self) -> u64 {
        self.store.miss_count()
    }

    /// An empty cache.
    pub fn new() -> (r: Cache)
        ensures
            r.wf(),
            r.view() == Map::<u64, Slot>::empty(),
            r.computed() == 0,
    {
        Cache { store: Store::new() }
    }

    /// The value kept for `key`, if it has been computed.
    pub fn get(&self, key: u64) -> (r: Option<u64>)
        ensures
            r == (match state_of(self.view(), key) {
                Some(State::Ready(v)) => Some(v),
                _ => None,
            }),
    {
        self.store.get_ready(key)
    }

    /// How many computations were run (saturating).
    pub fn computations(&self) -> (r: u64)
        ensures
            r == self.computed(),
    {
        self.store.misses()
    }

    /// The value of `key`: the kept one if there is one, without calling
    /// `compute`; otherwise `compute(key)`, kept on success. A failure is
    /// handed back and leaves the key empty, so a later call computes afresh.
    pub fn get_or_compute<E, F: Fn(u64) -> Result<u64, E>>(&mut self, key: u64, compute: &F) -> (r:
        Result<u64, E>)
        requires
            old(self).wf(),
            compute.requires((key,)),
        ensures
            final(self).wf(),
            match state_of(old(self).view(), key) {
                Some(State::Ready(v)) => r == Ok::<u64, E>(v)
                    && final(self).view() == old(self).view()
                    && final(self).computed() == old(self).computed(),
                _ => {
                    &&& compute.ensures((key,), r)
                    &&& final(self).computed() == sat_inc(old(self).computed())
                    &&& match r {
                        Ok(v) => final(self).view() == old(self).view().insert(key, Slot::Ready(v)),
                        Err(_) => final(self).view() == old(self).view(),
                    }
                },
            },
    {
        let ghost m = self.store@;
        match self.store.begin(key, 0) {
            Step::Hit(v) => Ok(v),
            Step::Wait => {
                // no key is pending between calls
                assert(is_pending(m, key));
                assert(false);
                compute(key)
            },
            Step::Compute => {
                let out = compute(key);
                match out {
                    Ok(v) => {
                        let _ = self.store.complete(key, v);
                        assert(self.store@ =~= m.insert(key, Slot::Ready(v)));
                        assert forall|k: u64| !is_pending(self.store@, k) by {
                            if k != key {
                                assert(!is_pending(m, k));
                            }
                        }
                        Ok(v)
                    },
                    Err(e) => {
                        let _ = self.store.fail(key);
                        assert(self.store@ =~= m);
                        assert forall|k: u64| !is_pending(self.store@, k) by {
                            assert(!is_pending(m, k));
                        }
                        Err(e)
                    },
                }
            },
        }
    }
}

} // verus!
