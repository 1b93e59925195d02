//! The arithmetic of the shared count and the decisions taken on it: how a
//! change moves the count, what becomes of the zero signal, and whether a
//! waiter may return.

use vstd::prelude::*;

verus! {

/// A change applied to the shared count: the weight of a handle that is
/// created, or of one that is released.
#[derive(Clone, Copy, Debug, PartialEq, Eq, Structural)]
pub enum Change {
    Add(usize),
    Sub(usize),
}

/// What is done to the zero signal after the count has moved.
#[derive(Clone, Copy, Debug, PartialEq, Eq, Structural)]
pub enum SignalAction {
    /// The count is zero: the signal is set, waking every waiter.
    Raise,
    /// The count is not zero and the signal was set: it is cleared.
    Clear,
    /// The count is not zero and the signal is already clear.
    Keep,
}

/// What a waiter does after reading the count.
#[derive(Clone, Copy, Debug, PartialEq, Eq, Structural)]
pub enum WaitAction {
    /// The count was zero: the wait is over.
    Resume,
    /// The count was not zero: suspend until the signal is set, then read again.
    Suspend,
}

/// The count after `amount` is added; it stops at the largest `usize`
/// rather than wrapping round.
pub open spec fn added(count: int, amount: int) -> int {
    if count + amount <= usize::MAX as int {
        count + amount
    } else {
        usize::MAX as int
    }
}

/// The count after `amount` is taken away; it stops at zero rather than
/// wrapping round to a large value.
pub open spec fn subtracted(count: int, amount: int) -> int {
    if amount <= count {
        count - amount
    } else {
        0
    }
}

pub open spec fn changed(count: int, change: Change) -> int {
    match change {
        Change::Add(a) => added(count, a as int),
        Change::Sub(a) => subtracted(count, a as int),
    }
}

/// The action that the rules call for once the count is `new_count` and the
/// signal is `is_set`.
pub open spec fn decided(new_count: usize, is_set: bool) -> SignalAction {
    if new_count == 0 {
        SignalAction::Raise
    } else if is_set {
        SignalAction::Clear
    } else {
        SignalAction::Keep
    }
}

/// The state of the signal after `action`, from the state `was_set`.
pub open spec fn signal_after(action: SignalAction, was_set: bool) -> bool {
    match action {
        SignalAction::Raise => true,
        SignalAction::Clear => false,
        SignalAction::Keep => was_set,
    }
}

/// Adds `amount` to `count`, saturating at `usize::MAX`. Past that point
/// weight is lost: the count no longer equals the total weight of the live
/// handles, and releases may bring it to zero while a handle still lives.
pub fn add_step(count: usize, amount: usize) -> (r: usize)
    ensures
        r == added(count as int, amount as int),
    opens_invariants none
    no_unwind
{
    if amount <= usize::MAX - count {
        count + amount
    } else {
        usize::MAX
    }
}

/// Takes `amount` from `count`, saturating at zero.
pub fn sub_step(count: usize, amount: usize) -> (r: usize)
    ensures
        r == subtracted(count as int, amount as int),
    opens_invariants none
    no_unwind
{
    if amount <= count {
        count - amount
    } else {
        0
    }
}

/// The count that `change` makes of `count`.
pub fn apply_change(count: usize, change: Change) -> (r: usize)
    ensures
        r == changed(count as int, change),
    opens_invariants none
    no_unwind
{
    match change {
        Change::Add(a) => add_step(count, a),
        Change::Sub(a) => sub_step(count, a),
    }
}

/// Decides what becomes of the signal once the count has reached `new_count`,
/// the signal having been `is_set`. The new value is what counts, so adding
/// zero to an empty count leaves the signal set.
pub fn signal_action(new_count: usize, is_set: bool) -> (r: SignalAction)
    ensures
        r == decided(new_count, is_set),
        signal_after(r, is_set) == (new_count == 0),
    opens_invariants none
    no_unwind
{
    if new_count == 0 {
        SignalAction::Raise
    } else if is_set {
        SignalAction::Clear
    } else {
        SignalAction::Keep
    }
}

/// The check that follows a change of the signal, on a fresh read of the
/// count: a set signal with a count that is no longer zero is cleared, and a
/// cleared signal with a count that has meanwhile reached zero is set again.
pub open spec fn checked(taken: SignalAction, fresh: usize) -> SignalAction {
    match taken {
        SignalAction::Raise => if fresh != 0 { SignalAction::Clear } else { SignalAction::Keep },
        SignalAction::Clear => if fresh == 0 { SignalAction::Raise } else { SignalAction::Keep },
        SignalAction::Keep => SignalAction::Keep,
    }
}

/// Decides what to do to the signal after `taken` was done to it and the
/// count was then read as `fresh`. Another handle may have moved the count
/// between the first decision and this one.
pub fn follow_up(taken: SignalAction, fresh: usize) -> (r: SignalAction)
    ensures
        r == checked(taken, fresh),
    opens_invariants none
    no_unwind
{
    match taken {
        SignalAction::Raise => if fresh != 0 { SignalAction::Clear } else { SignalAction::Keep },
        SignalAction::Clear => if fresh == 0 { SignalAction::Raise } else { SignalAction::Keep },
        SignalAction::Keep => SignalAction::Keep,
    }
}

/// Decides, from a fresh read of the count, whether a waiter returns or
/// suspends once more. A wake-up alone proves nothing: the count may have
/// risen again since the signal was set.
pub fn wait_action(observed: usize) -> (r: WaitAction)
    ensures
        r == (if observed == 0 { WaitAction::Resume } else { WaitAction::Suspend }),
    opens_invariants none
    no_unwind
{
    if observed == 0 {
        WaitAction::Resume
    } else {
        WaitAction::Suspend
    }
}

} // verus!
