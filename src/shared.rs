//! The state that every handle of one lineage shares: an atomic count and
//! the level-triggered signal that tells waiters when it is zero.

use vstd::prelude::*;
use futures_intrusive::sync::ManualResetEvent;
use std::sync::atomic::{AtomicUsize, Ordering};
use std::sync::Arc;
use crate::count::{
    Change, SignalAction, WaitAction, apply_change, changed, checked, decided, follow_up,
    signal_action, wait_action,
};

verus! {

/// The zero signal: futures_intrusive's `ManualResetEvent`, which wakes every
/// task waiting on it when it is set. Verus is not given its type, whose
/// mutex parameter is bound by a trait of another crate, so it is held here
/// and reached through the methods below. `event` is public so that async
/// code outside the library can await `event.wait()`.
#[verifier::external_body]
#[derive(Debug)]
pub struct Signal {
    pub event: ManualResetEvent,
}

impl Signal {
    /// Relies on `ManualResetEvent::new`: an event in the given state.
    #[verifier::external_body]
    fn new(is_set: bool) -> (r: Signal)
        opens_invariants none
        no_unwind
    {
        Signal { event: ManualResetEvent::new(is_set) }
    }

    /// Relies on `ManualResetEvent::is_set`: reads the state under the event's lock.
    #[verifier::external_body]
    fn is_set(&self) -> (r: bool)
        opens_invariants none
        no_unwind
    {
        self.event.is_set()
    }

    /// Relies on `ManualResetEvent::set`: sets the event and wakes its waiters.
    #[verifier::external_body]
    fn set(&self)
        opens_invariants none
        no_unwind
    {
        self.event.set()
    }

    /// Relies on `ManualResetEvent::reset`: clears the event.
    #[verifier::external_body]
    fn reset(&self)
        opens_invariants none
        no_unwind
    {
        self.event.reset()
    }
}

/// Relies on `AtomicUsize::fetch_update`: applies `change` to the count as one
/// atomic step and returns the value it had before. The closure never declines,
/// so the update always takes place. Other threads may move the count at any
/// time, so nothing is known of the value returned. What is stored is decided
/// by the verified `apply_change`, which saturates instead of wrapping. A
/// compare-and-swap loop written here would have no measure that decreases,
/// since another thread can make each attempt fail.
#[verifier::external_body]
fn update_count(counter: &AtomicUsize, change: Change) -> (prev: usize)
    opens_invariants none
    no_unwind
{
    match counter.fetch_update(Ordering::AcqRel, Ordering::Acquire, |c| Some(apply_change(c, change))) {
        Ok(p) => p,
        Err(p) => p,
    }
}

/// A read of the count made after the signal was changed, and what was done
/// to the signal on the strength of it.
#[derive(Clone, Copy, Debug, PartialEq, Eq, Structural)]
pub struct FollowUp {
    /// The count as read.
    pub read: usize,
    /// The action then taken.
    pub action: SignalAction,
}

/// One move of the shared count, as seen by the handle that made it.
#[derive(Clone, Copy, Debug, PartialEq, Eq, Structural)]
pub struct Transition {
    /// The count just before the change.
    pub before: usize,
    /// The count that the change left.
    pub after: usize,
    /// Whether the signal was set when it was examined.
    pub was_set: bool,
    /// What was decided from `after` and `was_set`, and done to the signal.
    pub action: SignalAction,
    /// The check made after `action`, when it changed the signal.
    pub first: Option<FollowUp>,
    /// The check made after `first`, when that cleared the signal.
    pub second: Option<FollowUp>,
}

impl Transition {
    /// The transition follows the rules: `after` is `before` with `change`
    /// applied; the action is the one decided for `after`; every change of
    /// the signal but a set made by a check is followed by a fresh read of the
    /// count and the action that `checked` gives for it.
    pub open spec fn follows(self, change: Change) -> bool {
        &&& self.after as int == changed(self.before as int, change)
        &&& self.action == decided(self.after, self.was_set)
        &&& match self.first {
            None => self.action == SignalAction::Keep,
            Some(f) => self.action != SignalAction::Keep && f.action == checked(self.action, f.read),
        }
        &&& match self.second {
            None => !(self.first matches Some(f) && f.action == SignalAction::Clear),
            Some(g) => self.first matches Some(f) && f.action == SignalAction::Clear
                && g.action == checked(SignalAction::Clear, g.read),
        }
    }

    /// Each clear of the signal in this transition was followed by a read of
    /// the count, and by a set whenever that read was zero.
    pub open spec fn clears_checked(self) -> bool {
        &&& self.action == SignalAction::Clear ==> (self.first matches Some(f) && (f.read == 0
            ==> f.action == SignalAction::Raise))
        &&& (self.first matches Some(f) && f.action == SignalAction::Clear) ==> (
        self.second matches Some(g) && (g.read == 0 ==> g.action == SignalAction::Raise))
    }
}

/// The count and signal shared by every handle of one lineage. Cloning it
/// gives another reference to the same state.
#[derive(Debug)]
pub struct SharedCount {
    counter: Arc<AtomicUsize>,
    signal: Arc<Signal>,
}

impl Clone for SharedCount {
    /// Another reference to the same count and signal.
    fn clone(&self) -> (r: Self)
        ensures
            r.same_state(self),
    {
        SharedCount { counter: Arc::clone(&self.counter), signal: Arc::clone(&self.signal) }
    }
}

impl SharedCount {
    /// `self` and `other` refer to the same count and the same signal.
    pub closed spec fn same_state(&self, other: &SharedCount) -> bool {
        self.counter == other.counter && self.signal == other.signal
    }

    /// A fresh shared state holding `count`; the signal starts set exactly
    /// when `count` is zero.
    pub fn new(count: usize) -> (r: SharedCount) {
        SharedCount {
            counter: Arc::new(AtomicUsize::new(count)),
            signal: Arc::new(Signal::new(count == 0)),
        }
    }

    fn perform(&self, action: SignalAction)
        opens_invariants none
        no_unwind
    {
        match action {
            SignalAction::Raise => self.signal.set(),
            SignalAction::Clear => self.signal.reset(),
            SignalAction::Keep => {},
        }
    }

    /// Reads the count afresh, with an atomic update that adds nothing, and
    /// acts on the signal as `follow_up` decides after `taken`.
    fn recheck(&self, taken: SignalAction) -> (r: FollowUp)
        ensures
            r.action == checked(taken, r.read),
        opens_invariants none
        no_unwind
    {
        let read = update_count(&self.counter, Change::Add(0));
        let action = follow_up(taken, read);
        self.perform(action);
        FollowUp { read, action }
    }

    /// Applies `change` to the count, then acts on the signal: it is set when
    /// the new count is zero, cleared when it is not and the signal is set.
    ///
    /// The count and the signal are separate, so other handles may act
    /// between the two steps, and the signal may be cleared on a value that
    /// is already stale. Each change of the signal is therefore checked
    /// against a fresh read of the count, and every clear is followed by such
    /// a read and a set if it gives zero. So the last clear made by any handle
    /// is followed by a read; a read of zero sets the signal, and a change
    /// that leaves zero sets it after the change. Once the count rests at zero
    /// the signal ends set, and no waiter is left suspended on it.
    pub fn fetch_change(&self, change: Change) -> (r: Transition)
        ensures
            r.follows(change),
            r.clears_checked(),
        opens_invariants none
        no_unwind
    {
        let before = update_count(&self.counter, change);
        let after = apply_change(before, change);
        let was_set = self.signal.is_set();
        let action = signal_action(after, was_set);
        self.perform(action);
        let first = match action {
            SignalAction::Keep => None,
            _ => Some(self.recheck(action)),
        };
        let second = match first {
            Some(f) => match f.action {
                SignalAction::Clear => Some(self.recheck(SignalAction::Clear)),
                _ => None,
            },
            None => None,
        };
        Transition { before, after, was_set, action, first, second }
    }

    /// Adds `amount` to the count.
    pub fn fetch_add(&self, amount: usize) -> (r: Transition)
        ensures
            r.follows(Change::Add(amount)),
            r.clears_checked(),
        opens_invariants none
        no_unwind
    {
        self.fetch_change(Change::Add(amount))
    }

    /// Takes `amount` from the count, stopping at zero.
    pub fn fetch_sub(&self, amount: usize) -> (r: Transition)
        ensures
            r.follows(Change::Sub(amount)),
            r.clears_checked(),
        opens_invariants none
        no_unwind
    {
        self.fetch_change(Change::Sub(amount))
    }

    /// The count at one instant. Other handles may change it at any time, so
    /// the value may be stale by the time it is used.
    pub fn get(&self) -> (r: usize) {
        self.counter.load(Ordering::Acquire)
    }

    /// One step of waiting for the count to reach zero: read the count and
    /// decide whether to return or to suspend on the signal and read again.
    pub fn wait_step(&self) -> (r: WaitAction) {
        wait_action(self.get())
    }

    /// The signal that waiters suspend on.
    pub fn signal(&self) -> (r: &Signal) {
        &self.signal
    }
}

} // verus!
