//! A model of one lineage of handles: the shared count together with the
//! weights of the strong handles alive on it. It is a model on its own: no
//! contract of a handle speaks of it, since the running count lives in an
//! atomic that other threads move. What ties it to the code is the arithmetic:
//! each step moves the count by `changed`, the same function that every
//! `Transition` of `SharedCount::fetch_add` and `SharedCount::fetch_sub` is
//! proved to follow. The laws of the counter are stated and proved over it.

use vstd::prelude::*;
use crate::count::{Change, changed, signal_after};
use crate::shared::Transition;

verus! {

/// The count of a lineage and the weights of its live strong handles.
pub struct Lineage {
    pub count: int,
    pub live: Seq<usize>,
}

/// One operation on a lineage.
pub enum Step {
    /// The live handle at this index is cloned.
    Duplicate(int),
    /// The live handle at this index is dropped, or downgraded, which drops it.
    Release(int),
    /// A weak handle makes a new strong handle of this weight.
    Mint(usize),
}

/// The total weight of the handles in `s`.
pub open spec fn total(s: Seq<usize>) -> int
    decreases s.len(),
{
    if s.len() == 0 {
        0
    } else {
        total(s.drop_last()) + s.last() as int
    }
}

/// The lineage of a fresh strong handle of weight `w`.
pub open spec fn strong_origin(w: usize) -> Lineage {
    Lineage { count: w as int, live: seq![w] }
}

/// The lineage of a fresh weak handle: a count of zero, no strong handle.
pub open spec fn weak_origin() -> Lineage {
    Lineage { count: 0, live: Seq::empty() }
}

/// The lineage after `step`.
pub open spec fn apply(l: Lineage, step: Step) -> Lineage {
    match step {
        Step::Duplicate(i) => Lineage {
            count: changed(l.count, Change::Add(l.live[i])),
            live: l.live.push(l.live[i]),
        },
        Step::Release(i) => Lineage {
            count: changed(l.count, Change::Sub(l.live[i])),
            live: l.live.remove(i),
        },
        Step::Mint(w) => Lineage { count: changed(l.count, Change::Add(w)), live: l.live.push(w) },
    }
}

/// `step` names a live handle, and the handles alive after it weigh no more
/// than a `usize` holds.
pub open spec fn step_ok(l: Lineage, step: Step) -> bool {
    &&& match step {
        Step::Duplicate(i) => 0 <= i < l.live.len(),
        Step::Release(i) => 0 <= i < l.live.len(),
        Step::Mint(_) => true,
    }
    &&& total(apply(l, step).live) <= usize::MAX
}

/// The lineage after `steps`, in order.
pub open spec fn run(l: Lineage, steps: Seq<Step>) -> Lineage
    decreases steps.len(),
{
    if steps.len() == 0 {
        l
    } else {
        apply(run(l, steps.drop_last()), steps.last())
    }
}

/// Every step of `steps` is allowed where it is taken.
pub open spec fn run_ok(l: Lineage, steps: Seq<Step>) -> bool
    decreases steps.len(),
{
    if steps.len() == 0 {
        true
    } else {
        run_ok(l, steps.drop_last()) && step_ok(run(l, steps.drop_last()), steps.last())
    }
}

proof fn lemma_total_push(s: Seq<usize>, x: usize)
    ensures
        total(s.push(x)) == total(s) + x,
{
    assert(s.push(x).drop_last() =~= s);
}

proof fn lemma_total_remove(s: Seq<usize>, i: int)
    requires
        0 <= i < s.len(),
    ensures
        total(s.remove(i)) == total(s) - s[i],
        s[i] <= total(s),
    decreases s.len(),
{
    lemma_total_nonneg(s.drop_last());
    if i == s.len() - 1 {
        assert(s.remove(i) =~= s.drop_last());
    } else {
        lemma_total_remove(s.drop_last(), i);
        assert(s.remove(i) =~= s.drop_last().remove(i).push(s.last()));
        lemma_total_push(s.drop_last().remove(i), s.last());
    }
}

proof fn lemma_total_nonneg(s: Seq<usize>)
    ensures
        total(s) >= 0,
    decreases s.len(),
{
    if s.len() > 0 {
        lemma_total_nonneg(s.drop_last());
    }
}

/// One allowed step keeps the count equal to the total weight of the live
/// handles.
proof fn lemma_step_keeps_total(l: Lineage, step: Step)
    requires
        l.count == total(l.live),
        step_ok(l, step),
    ensures
        apply(l, step).count == total(apply(l, step).live),
{
    match step {
        Step::Duplicate(i) => lemma_total_push(l.live, l.live[i]),
        Step::Release(i) => lemma_total_remove(l.live, i),
        Step::Mint(w) => lemma_total_push(l.live, w),
    }
}

/// At every point of a run of allowed steps from a lineage whose count is the
/// total weight of its live handles (as is true of both origins), the count
/// is still the total weight of the strong handles alive.
pub proof fn lemma_count_is_live_weight(start: Lineage, steps: Seq<Step>)
    requires
        start.count == total(start.live),
        run_ok(start, steps),
    ensures
        run(start, steps).count == total(run(start, steps).live),
    decreases steps.len(),
{
    if steps.len() > 0 {
        lemma_count_is_live_weight(start, steps.drop_last());
        lemma_step_keeps_total(run(start, steps.drop_last()), steps.last());
    }
}

/// Both kinds of fresh handle start with the count equal to the weight of the
/// strong handles alive.
pub proof fn lemma_origins_balanced(w: usize)
    ensures
        strong_origin(w).count == total(strong_origin(w).live),
        weak_origin().count == total(weak_origin().live),
{
    lemma_total_push(Seq::empty(), w);
    assert(seq![w] =~= Seq::<usize>::empty().push(w));
}

/// The action decided in a transition, applied to the signal as it was read,
/// leaves it set exactly when the count that the change left is zero. (Other
/// handles may act on the signal meanwhile: see `SharedCount::fetch_change`.)
pub proof fn lemma_signal_tracks_zero(t: Transition, change: Change)
    requires
        t.follows(change),
    ensures
        signal_after(t.action, t.was_set) == (t.after == 0),
{
}

/// Cloning a handle and then dropping the clone leaves the count as it was.
pub proof fn lemma_duplicate_release_no_op(l: Lineage, i: int)
    requires
        l.count == total(l.live),
        run_ok(l, seq![Step::Duplicate(i), Step::Release(l.live.len() as int)]),
    ensures
        run(l, seq![Step::Duplicate(i), Step::Release(l.live.len() as int)]).count == l.count,
        run(l, seq![Step::Duplicate(i), Step::Release(l.live.len() as int)]).live =~= l.live,
{
    let steps = seq![Step::Duplicate(i), Step::Release(l.live.len() as int)];
    assert(steps.drop_last() =~= seq![Step::Duplicate(i)]);
    assert(seq![Step::Duplicate(i)].drop_last() =~= Seq::<Step>::empty());
    let d = apply(l, Step::Duplicate(i));
    assert(run(l, Seq::<Step>::empty()) == l);
    assert(run(l, seq![Step::Duplicate(i)]) == d);
    assert(run(l, steps) == apply(d, Step::Release(l.live.len() as int)));
    assert(run_ok(l, seq![Step::Duplicate(i)]));
    assert(step_ok(l, Step::Duplicate(i)));
    lemma_total_push(l.live, l.live[i]);
    assert(d.count == l.count + l.live[i]);
    assert(d.live[l.live.len() as int] == l.live[i]);
    lemma_total_nonneg(l.live);
    assert(d.live.remove(l.live.len() as int) =~= l.live);
}

/// Downgrading the only strong handle of a lineage drains it, and a handle of
/// weight `w` then minted from the weak handle brings the count to exactly `w`.
pub proof fn lemma_downgrade_then_mint(w0: usize, w: usize)
    ensures
        run(strong_origin(w0), seq![Step::Release(0), Step::Mint(w)]).count == w,
        run(strong_origin(w0), seq![Step::Release(0), Step::Mint(w)]).live =~= seq![w],
{
    let steps = seq![Step::Release(0), Step::Mint(w)];
    assert(steps.drop_last() =~= seq![Step::Release(0)]);
    assert(seq![Step::Release(0)].drop_last() =~= Seq::<Step>::empty());
    let d = apply(strong_origin(w0), Step::Release(0));
    assert(run(strong_origin(w0), Seq::<Step>::empty()) == strong_origin(w0));
    assert(run(strong_origin(w0), seq![Step::Release(0)]) == d);
    assert(d.live =~= Seq::<usize>::empty());
    assert(d.count == 0);
    assert(run(strong_origin(w0), steps) == apply(d, Step::Mint(w)));
    assert(Seq::<usize>::empty().push(w) =~= seq![w]);
}

} // verus!
