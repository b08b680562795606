//! The shared counter and its synchronization strategies.

use crate::sys;
use vstd::prelude::*;

verus! {

/// Which synchronization primitive guards the shared counter.
///
/// `Atomic` uses a hardware fetch-and-add under sequentially consistent
/// ordering; `Mutex` guards a plain integer with a mutual-exclusion lock.
/// Both make the read-modify-write of an increment indivisible, so no
/// concurrent interleaving can lose an update.
#[derive(Clone, Copy, PartialEq, Eq, Structural, Debug)]
pub enum Strategy {
    Atomic,
    Mutex,
}

/// A plain sequential counter holding one unsigned value.
///
/// This is the unsynchronized core that the lock-based strategy guards:
/// on its own it is safe only for a single owner, since its increment is a
/// read-modify-write that concurrent callers could interleave.
#[derive(Clone, Copy, PartialEq, Eq, Structural, Debug)]
pub struct Counter {
    pub val: u64,
}

impl Counter {
    /// A fresh counter holding zero.
    pub fn new() -> (c: Counter)
        ensures
            c.val == 0,
    {
        Counter { val: 0 }
    }

    /// Adds one to the value. The caller must rule out overflow.
    pub fn increment_counter(&mut self)
        requires
            old(self).val < u64::MAX,
        ensures
            final(self).val == old(self).val + 1,
    {
        self.val = self.val + 1;
    }

    /// `k` increments in a row by one owner: the value grows by exactly
    /// `k`, the sequential truth behind the exact-count property that the
    /// harness checks for concurrent workers.
    pub fn increment_many(&mut self, k: u64)
        requires
            old(self).val + k <= u64::MAX,
        ensures
            final(self).val == old(self).val + k,
    {
        let ghost orig = *self;
        let mut i: u64 = 0;
        while i < k
            invariant
                i <= k,
                orig.val + k <= u64::MAX,
                self.val == orig.val + i,
            decreases k - i,
        {
            self.increment_counter();
            i = i + 1;
        }
    }
}

/// The synchronization primitive actually guarding the shared value, chosen
/// by [`Strategy`].
enum CounterCore {
    /// A hardware atomic integer; increments are wait-free fetch-and-adds.
    Atomic(std::sync::atomic::AtomicU64),
    /// A mutual-exclusion lock around a plain [`Counter`]; increments hold
    /// the lock across the whole read-modify-write, and a poisoned lock is
    /// recovered rather than left to deadlock.
    Locked(std::sync::Mutex<Counter>),
}

/// A thread-safe monotonically incrementable counter.
///
/// All handles produced by [`SyncCounter::handle`] refer to one underlying
/// value: the reference-counted core is shared, never copied, so every
/// increment made through any handle lands in the same storage. The value
/// starts at zero and changes only through [`SyncCounter::increment`].
pub struct SyncCounter {
    strategy: Strategy,
    core: std::sync::Arc<CounterCore>,
}

impl SyncCounter {
    /// The strategy this counter was constructed with.
    pub closed spec fn strategy(self) -> Strategy {
        self.strategy
    }

    /// The strategy this counter runs under.
    pub fn strategy_tag(&self) -> (s: Strategy)
        ensures
            s == self.strategy(),
    {
        self.strategy
    }

    /// A fresh shared counter holding zero, guarded as `strategy` says.
    pub fn new(strategy: Strategy) -> (c: SyncCounter)
        ensures
            c.strategy() == strategy,
    {
        let core = match strategy {
            Strategy::Atomic => CounterCore::Atomic(std::sync::atomic::AtomicU64::new(0)),
            Strategy::Mutex => CounterCore::Locked(sys::mutex_new(Counter::new())),
        };
        SyncCounter { strategy, core: std::sync::Arc::new(core) }
    }

    /// Another handle to the same underlying counter. The handle shares the
    /// storage of `self`; it is not an independent copy.
    pub fn handle(&self) -> (c: SyncCounter)
        ensures
            c.strategy() == self.strategy(),
    {
        SyncCounter { strategy: self.strategy, core: sys::arc_share(&self.core) }
    }

    /// Adds one to the shared value as one indivisible operation; safe to
    /// call from any number of threads at once, and no concurrent
    /// interleaving can lose the update.
    ///
    /// Returns `false` only when the value already stood at `u64::MAX`, so
    /// that one more increment could not be represented; the lock-based
    /// strategy then leaves the value unchanged, while the atomic strategy
    /// has already wrapped it to zero. A run whose configured total fits in
    /// 64 bits never reaches that point.
    pub fn increment(&self) -> bool {
        match &*self.core {
            CounterCore::Atomic(cell) => {
                let prev = cell.fetch_add(1, std::sync::atomic::Ordering::SeqCst);
                prev < u64::MAX
            },
            CounterCore::Locked(lock) => {
                let mut guard = sys::mutex_lock(lock);
                let mut held = sys::guard_get(&guard);
                if held.val < u64::MAX {
                    held.increment_counter();
                    sys::guard_set(&mut guard, held);
                    true
                } else {
                    false
                }
            },
        }
    }

    /// The current shared value, read as one indivisible operation: the
    /// result is a value the counter held at some instant during the call,
    /// never a torn read. Once every increment has been joined, it equals
    /// the number of successful increments.
    pub fn get(&self) -> u64 {
        match &*self.core {
            CounterCore::Atomic(cell) => cell.load(std::sync::atomic::Ordering::SeqCst),
            CounterCore::Locked(lock) => {
                let guard = sys::mutex_lock(lock);
                let held = sys::guard_get(&guard);
                held.val
            },
        }
    }
}

} // verus!
