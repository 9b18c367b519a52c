//! The per-process futex table, as seen by this core: a record per
//! contended futex address, carrying the owner-dead flag set during
//! robust-list teardown and the count of blocked waiters.

use vstd::prelude::*;
use crate::amap::AssocMap;

verus! {

/// A wait-queue-backed futex record.
#[derive(Debug, Clone, Copy, PartialEq, Eq, Structural)]
pub struct FutexRecord {
    /// Set when a robust-list holder thread died while holding the lock.
    pub owner_dead: bool,
    /// Threads currently blocked on this futex.
    pub waiters: u64,
}

/// The table after waking at most one waiter at `a`.
pub open spec fn wake_one_spec(t: Map<u64, FutexRecord>, a: u64) -> Map<u64, FutexRecord> {
    if t.contains_key(a) && t[a].waiters > 0 {
        t.insert(a, FutexRecord { owner_dead: t[a].owner_dead, waiters: (t[a].waiters - 1) as u64 })
    } else {
        t
    }
}

/// Whether waking at `a` actually releases a waiter.
pub open spec fn woke_spec(t: Map<u64, FutexRecord>, a: u64) -> bool {
    t.contains_key(a) && t[a].waiters > 0
}

/// The table after the futex-death action at `a`: mark the record owner-dead
/// and wake one waiter. A missing record is not an error — the lock was
/// never contended — and leaves the table unchanged.
pub open spec fn futex_death_spec(t: Map<u64, FutexRecord>, a: u64) -> Map<u64, FutexRecord> {
    if t.contains_key(a) {
        t.insert(
            a,
            FutexRecord {
                owner_dead: true,
                waiters: if t[a].waiters > 0 {
                    (t[a].waiters - 1) as u64
                } else {
                    0
                },
            },
        )
    } else {
        t
    }
}

/// The futex records of one process, keyed by canonical futex address.
pub struct FutexTable {
    pub records: AssocMap<FutexRecord>,
}

impl FutexTable {
    pub open spec fn wf(self) -> bool {
        self.records.wf()
    }

    /// An empty table.
    pub fn new() -> (r: FutexTable)
        ensures
            r@ == Map::<u64, FutexRecord>::empty(),
            r.wf(),
    {
        FutexTable { records: AssocMap::new() }
    }

    /// The record at `a`, if the futex was ever contended.
    pub fn get(&self, a: u64) -> (r: Option<FutexRecord>)
        requires
            self.wf(),
        ensures
            r == if self@.contains_key(a) {
                Some(self@[a])
            } else {
                None::<FutexRecord>
            },
    {
        self.records.get(a)
    }

    /// Install or replace the record at `a` (used when a thread starts
    /// waiting on the futex).
    pub fn insert(&mut self, a: u64, rec: FutexRecord)
        requires
            old(self).wf(),
        ensures
            final(self)@ == old(self)@.insert(a, rec),
            final(self).wf(),
    {
        self.records.insert(a, rec);
    }

    /// Wake at most one waiter at `a`; reports whether one was woken.
    pub fn wake_one(&mut self, a: u64) -> (woke: bool)
        requires
            old(self).wf(),
        ensures
            final(self)@ == wake_one_spec(old(self)@, a),
            woke == woke_spec(old(self)@, a),
            final(self).wf(),
    {
        match self.records.get(a) {
            Some(rec) => {
                if rec.waiters > 0 {
                    self.records.insert(
                        a,
                        FutexRecord { owner_dead: rec.owner_dead, waiters: rec.waiters - 1 },
                    );
                    true
                } else {
                    false
                }
            },
            None => false,
        }
    }

    /// The futex-death action at `a`: mark owner-dead, wake one waiter.
    pub fn futex_death(&mut self, a: u64)
        requires
            old(self).wf(),
        ensures
            final(self)@ == futex_death_spec(old(self)@, a),
            final(self).wf(),
    {
        match self.records.get(a) {
            Some(rec) => {
                let waiters = if rec.waiters > 0 {
                    rec.waiters - 1
                } else {
                    0
                };
                self.records.insert(a, FutexRecord { owner_dead: true, waiters });
            },
            None => {},
        }
    }
}

impl View for FutexTable {
    type V = Map<u64, FutexRecord>;

    open spec fn view(&self) -> Map<u64, FutexRecord> {
        self.records@
    }
}

} // verus!
