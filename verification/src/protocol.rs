//! The counting protocol, stated once over histories of operations.
//!
//! A control block carries a strong count (live owning handles) and a total
//! count (owning handles plus weak observers; every owning handle contributes
//! one unit to each). Each operation of the two cores linearizes to one
//! [`Event`], and a concurrent execution to a sequence of them. [`step`] gives
//! the transition each event performs, [`enabled`] the condition under which a
//! handle can perform it, and the lemmas below prove the lifetime laws over
//! all valid histories.

use vstd::prelude::*;

verus! {

/// The overflow guard's bound: an increment may proceed only while the
/// pre-increment count is at most this, else the process must be terminated
/// before the count can wrap.
pub const MAX_REFS: usize = usize::MAX / 2;

/// The observable state of one control block.
///
/// `destroyed` counts the runs of the payload's destructor and `freed` the
/// deallocations of the block itself, so that "exactly once" claims are
/// claims about these fields.
pub ghost struct State {
    /// Number of live owning handles.
    pub strong: nat,
    /// Number of live owning handles plus live weak handles.
    pub total: nat,
    /// How many times the payload's destructor has run.
    pub destroyed: nat,
    /// How many times the control block has been deallocated.
    pub freed: nat,
}

/// One linearized operation on a control block.
pub enum Event {
    /// An owning handle is cloned: one strong unit and one total unit appear.
    CloneStrong,
    /// A weak handle appears (a downgrade, or a weak handle cloned).
    CloneWeak,
    /// An owning handle gives up its strong unit; the last one destroys the
    /// payload. Its embedded weak unit is given up by a following `DropWeak`.
    DropStrong,
    /// A weak unit is given up; the last unit of any kind frees the block.
    DropWeak,
    /// A weak handle attempts promotion: it succeeds exactly while an owning
    /// handle survives, and then behaves as a clone.
    Upgrade,
}

/// The state of a freshly created control block: one owning handle.
pub open spec fn init() -> State {
    State { strong: 1, total: 1, destroyed: 0, freed: 0 }
}

/// Whether some live handle can perform `e` in state `s`.
///
/// Clones and upgrades are in addition subject to the overflow guard: past
/// [`MAX_REFS`] the process is terminated instead, so no history carries the
/// event.
pub open spec fn enabled(s: State, e: Event) -> bool {
    match e {
        Event::CloneStrong => s.strong >= 1 && s.total <= MAX_REFS as nat,
        Event::CloneWeak => s.total >= 1 && s.total <= MAX_REFS as nat,
        Event::DropStrong => s.strong >= 1,
        Event::DropWeak => s.total > s.strong,
        Event::Upgrade => s.total > s.strong && s.total <= MAX_REFS as nat,
    }
}

/// The transition performed by `e` in state `s`.
pub open spec fn step(s: State, e: Event) -> State {
    match e {
        Event::CloneStrong => State { strong: s.strong + 1, total: s.total + 1, ..s },
        Event::CloneWeak => State { total: s.total + 1, ..s },
        Event::DropStrong => if s.strong == 0 {
            s
        } else {
            State {
                strong: (s.strong - 1) as nat,
                destroyed: s.destroyed + if s.strong == 1 { 1nat } else { 0nat },
                ..s
            }
        },
        Event::DropWeak => if s.total == 0 {
            s
        } else {
            State {
                total: (s.total - 1) as nat,
                freed: s.freed + if s.total == 1 { 1nat } else { 0nat },
                ..s
            }
        },
        Event::Upgrade => if s.strong == 0 {
            s
        } else {
            State { strong: s.strong + 1, total: s.total + 1, ..s }
        },
    }
}

/// The state after running the history `t` from `s`.
pub open spec fn run(s: State, t: Seq<Event>) -> State
    decreases t.len(),
{
    if t.len() == 0 {
        s
    } else {
        run(step(s, t.first()), t.drop_first())
    }
}

/// Whether every event of `t` is enabled when its turn comes.
pub open spec fn valid(s: State, t: Seq<Event>) -> bool
    decreases t.len(),
{
    t.len() == 0 || (enabled(s, t.first()) && valid(step(s, t.first()), t.drop_first()))
}

/// The invariant every reachable state satisfies: the total count dominates
/// the strong count, the payload has been destroyed exactly when no owning
/// handle remains, and the block has been freed exactly when no unit of any
/// kind remains.
pub open spec fn inv(s: State) -> bool {
    &&& s.total >= s.strong
    &&& s.destroyed == if s.strong == 0 {
        1nat
    } else {
        0nat
    }
    &&& s.freed == if s.total == 0 {
        1nat
    } else {
        0nat
    }
}

/// One enabled step preserves the invariant.
pub proof fn lemma_step_preserves_inv(s: State, e: Event)
    requires
        inv(s),
        enabled(s, e),
    ensures
        inv(step(s, e)),
{
}

/// A valid history preserves the invariant.
pub proof fn lemma_run_preserves_inv(s: State, t: Seq<Event>)
    requires
        inv(s),
        valid(s, t),
    ensures
        inv(run(s, t)),
    decreases t.len(),
{
    if t.len() > 0 {
        lemma_step_preserves_inv(s, t.first());
        lemma_run_preserves_inv(step(s, t.first()), t.drop_first());
    }
}

/// Single destruction: along any valid history from creation, the payload's
/// destructor has run exactly once if no owning handle remains, and not at
/// all while one does — so it runs at most once, whatever the interleaving.
pub proof fn lemma_single_destruction(t: Seq<Event>)
    requires
        valid(init(), t),
    ensures
        run(init(), t).destroyed <= 1,
        run(init(), t).destroyed == 1 <==> run(init(), t).strong == 0,
{
    lemma_run_preserves_inv(init(), t);
}

/// The destructor runs precisely at the step that drops the last owning
/// handle, and at no other.
pub proof fn lemma_destruction_point(s: State, e: Event)
    requires
        inv(s),
        enabled(s, e),
    ensures
        step(s, e).destroyed != s.destroyed <==> (e is DropStrong && s.strong == 1),
{
}

/// Single deallocation, after destruction: along any valid history from
/// creation, the block has been freed exactly once if no unit remains and
/// never while one does, and a freed block's payload has been destroyed —
/// destruction comes at or before deallocation, never after.
pub proof fn lemma_single_deallocation(t: Seq<Event>)
    requires
        valid(init(), t),
    ensures
        run(init(), t).freed <= 1,
        run(init(), t).freed == 1 <==> run(init(), t).total == 0,
        run(init(), t).freed == 1 ==> run(init(), t).destroyed == 1,
{
    lemma_run_preserves_inv(init(), t);
}

/// The block is freed precisely at the step that gives up the last unit of
/// any kind, and at no other.
pub proof fn lemma_deallocation_point(s: State, e: Event)
    requires
        inv(s),
        enabled(s, e),
    ensures
        step(s, e).freed != s.freed <==> (e is DropWeak && s.total == 1),
{
}

/// Upgrade correctness, at one attempt: while an owning handle survives the
/// promotion succeeds and takes one strong and one total unit; once none
/// does, the attempt changes nothing.
pub proof fn lemma_upgrade_point(s: State)
    ensures
        s.strong > 0 ==> step(s, Event::Upgrade) == (State {
            strong: s.strong + 1,
            total: s.total + 1,
            ..s
        }),
        s.strong == 0 ==> step(s, Event::Upgrade) == s,
{
}

/// Upgrade correctness, over time: once the strong count has reached zero it
/// stays zero under every further valid history, so upgrades fail
/// deterministically from then on.
pub proof fn lemma_strong_stays_zero(s: State, t: Seq<Event>)
    requires
        valid(s, t),
        s.strong == 0,
    ensures
        run(s, t).strong == 0,
    decreases t.len(),
{
    if t.len() > 0 {
        lemma_strong_stays_zero(step(s, t.first()), t.drop_first());
    }
}

/// A prefix of a valid history is itself valid.
pub proof fn lemma_valid_prefix(s: State, t: Seq<Event>, i: int)
    requires
        valid(s, t),
        0 <= i <= t.len(),
    ensures
        valid(s, t.take(i)),
    decreases t.len(),
{
    if i > 0 && t.len() > 0 {
        assert(t.take(i).first() == t.first());
        assert(t.take(i).drop_first() =~= t.drop_first().take(i - 1));
        lemma_valid_prefix(step(s, t.first()), t.drop_first(), i - 1);
    } else {
        assert(t.take(0) =~= Seq::<Event>::empty());
    }
}

/// The lifetime laws hold at every observable instant of a valid history,
/// not only at its end: after any prefix, the payload has been destroyed
/// exactly once or not at all — according as the strong count has reached
/// zero — the block likewise freed according as the total count has, and so
/// destruction comes at or before deallocation and neither ever happens
/// while a handle still needs the payload or the block.
pub proof fn lemma_laws_at_every_instant(t: Seq<Event>, i: int)
    requires
        valid(init(), t),
        0 <= i <= t.len(),
    ensures
        inv(run(init(), t.take(i))),
{
    lemma_valid_prefix(init(), t, i);
    lemma_run_preserves_inv(init(), t.take(i));
}

/// How many events of `t` equal `e`.
pub open spec fn count_matching(t: Seq<Event>, e: Event) -> nat
    decreases t.len(),
{
    if t.len() == 0 {
        0
    } else {
        (if t.first() == e {
            1nat
        } else {
            0nat
        }) + count_matching(t.drop_first(), e)
    }
}

/// No lost updates under contention: a valid history of clones, downgrades
/// and drops — however many threads contributed, in whatever interleaving —
/// leaves each count at its starting point plus the mints not yet matched by
/// drops, so the final count equals the number of handles never dropped.
pub proof fn lemma_clone_drop_balance(s: State, t: Seq<Event>)
    requires
        valid(s, t),
        forall|i: int| 0 <= i < t.len() ==> !(#[trigger] t[i] is Upgrade),
    ensures
        run(s, t).strong + count_matching(t, Event::DropStrong) == s.strong + count_matching(
            t,
            Event::CloneStrong,
        ),
        run(s, t).total + count_matching(t, Event::DropWeak) == s.total + count_matching(
            t,
            Event::CloneStrong,
        ) + count_matching(t, Event::CloneWeak),
    decreases t.len(),
{
    if t.len() > 0 {
        assert(t[0] == t.first());
        assert(forall|i: int|
            0 <= i < t.drop_first().len() ==> #[trigger] t.drop_first()[i] == t[i + 1]);
        lemma_clone_drop_balance(step(s, t.first()), t.drop_first());
    }
}

} // verus!
