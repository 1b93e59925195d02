//! The handles: a strong `Counter`, which holds its weight in the shared
//! count for as long as it lives, and a `WeakCounter`, which only observes
//! the count and can make new strong handles.

use vstd::prelude::*;
use crate::count::WaitAction;
use crate::shared::{SharedCount, Signal};

verus! {

/// A strong handle. It adds its weight to the shared count when it is made,
/// and takes it away again exactly once, when it is dropped.
///
/// Weights are added with saturation at `usize::MAX`: a lineage whose live
/// weights sum past that loses weight, and its count may reach zero while a
/// handle still lives.
#[derive(Debug)]
pub struct Counter {
    counter: SharedCount,
    size: usize,
}

/// A weak handle: it never changes the count on its own account.
#[derive(Clone, Debug)]
pub struct WeakCounter {
    counter: SharedCount,
}

impl Counter {
    /// The weight that this handle holds in the shared count.
    pub closed spec fn weight(&self) -> int {
        self.size as int
    }

    /// The shared count and signal that this handle is on.
    pub closed spec fn state(&self) -> SharedCount {
        self.counter
    }

    /// A strong handle of weight 1, on a fresh count of 1.
    pub fn new() -> (r: Counter)
        ensures
            r.weight() == 1,
    {
        Counter::new_with_size(1)
    }

    /// A strong handle of weight `size`, on a fresh count of `size`.
    pub fn new_with_size(size: usize) -> (r: Counter)
        ensures
            r.weight() == size,
    {
        Counter { counter: SharedCount::new(size), size }
    }

    /// Gives up this handle, whose weight leaves the count as it is dropped,
    /// and returns a weak handle on the same count.
    pub fn downgrade(self) -> (r: WeakCounter)
        ensures
            r.state().same_state(&self.state()),
    {
        WeakCounter { counter: self.counter.clone() }
    }

    /// The count at one instant. Other handles may change it at any time.
    pub fn count(&self) -> (r: usize) {
        self.counter.get()
    }

    /// One step of waiting for the count to reach zero: `Resume` when the
    /// count just read is zero, `Suspend` (wait on `signal`, then step again)
    /// when it is not.
    pub fn wait_step(&self) -> (r: WaitAction) {
        self.counter.wait_step()
    }

    /// The signal that waiters on this count suspend on.
    pub fn signal(&self) -> (r: &Signal) {
        self.counter.signal()
    }
}

impl Clone for Counter {
    /// A second handle of the same weight on the same count, which grows by
    /// that weight (saturating at `usize::MAX`).
    fn clone(&self) -> (r: Self)
        ensures
            r.weight() == self.weight(),
            r.state().same_state(&self.state()),
    {
        self.counter.fetch_add(self.size);
        Counter { counter: self.counter.clone(), size: self.size }
    }
}

impl Drop for Counter {
    /// Takes this handle's weight out of the count, once.
    fn drop(&mut self)
        opens_invariants none
        no_unwind
    {
        self.counter.fetch_sub(self.size);
    }
}

impl WeakCounter {
    /// The shared count and signal that this handle is on.
    pub closed spec fn state(&self) -> SharedCount {
        self.counter
    }

    /// A weak handle on a fresh count of zero.
    pub fn new() -> (r: WeakCounter) {
        WeakCounter { counter: SharedCount::new(0) }
    }

    /// The count at one instant. Other handles may change it at any time.
    pub fn count(&self) -> (r: usize) {
        self.counter.get()
    }

    /// Gives up this weak handle for a strong one of weight 1.
    pub fn upgrade(self) -> (r: Counter)
        ensures
            r.weight() == 1,
            r.state().same_state(&self.state()),
    {
        self.spawn_upgrade()
    }

    /// A new strong handle of weight 1 on this count.
    pub fn spawn_upgrade(&self) -> (r: Counter)
        ensures
            r.weight() == 1,
            r.state().same_state(&self.state()),
    {
        self.spawn_upgrade_with_size(1)
    }

    /// A new strong handle of weight `size` on this count, which grows by
    /// `size` once (saturating at `usize::MAX`).
    pub fn spawn_upgrade_with_size(&self, size: usize) -> (r: Counter)
        ensures
            r.weight() == size,
            r.state().same_state(&self.state()),
    {
        self.counter.fetch_add(size);
        Counter { counter: self.counter.clone(), size }
    }

    /// One step of waiting for the count to reach zero, as `Counter::wait_step`.
    pub fn wait_step(&self) -> (r: WaitAction) {
        self.counter.wait_step()
    }

    /// The signal that waiters on this count suspend on.
    pub fn signal(&self) -> (r: &Signal) {
        self.counter.signal()
    }
}

} // verus!
