//! The shared owner with weak observers: two counts, so deallocation can be
//! deferred past payload destruction.
//!
//! The control block carries a strong count (owning handles) and a total
//! count (owning handles plus weak ones: every [`Arc`] embeds a [`Weak`] and
//! so holds one unit of each). The payload sits in a slot that is emptied —
//! exactly once — by the drop that takes the strong count to zero, while the
//! block itself survives until the total count follows; the drop that takes
//! the total count to zero consumes the block, which is deallocation.
//!
//! Handles are linear tokens: cloning, downgrading and upgrading mint them
//! against the counts, dropping surrenders them, and neither kind can be
//! copied or forged. The tokens carry no data; what a handle in hand
//! witnesses about the census stands as each operation's precondition — an
//! owning handle keeps the strong count at one or more, a weak handle keeps
//! the total count strictly above the strong count. Every operation's
//! contract states the [`crate::protocol`] transition it performs, so the lemmas
//! proved there about whole histories apply to any sequence of these calls.
//! In the concurrent protocol each transition is one atomic read-modify-write
//! on a count; the weak-to-strong promotion retries its compare-and-swap
//! until one attempt linearizes, and each attempt is one [`Weak::upgrade`]
//! transition.

use crate::protocol;
use crate::protocol::Event;
use crate::protocol::MAX_REFS;
use crate::protocol::State;
use vstd::prelude::*;

verus! {

/// What a control block holds: both counts and the payload slot, empty once
/// the payload has been destroyed.
pub ghost struct BlockModel<T> {
    pub strong: nat,
    pub total: nat,
    pub payload: Option<T>,
}

/// The control block: one per shared value, holding the two counts and the
/// payload slot. It exists exactly while the total count is positive.
pub struct ControlBlock<T> {
    strong: usize,
    total: usize,
    payload: Option<T>,
}

impl<T> View for ControlBlock<T> {
    type V = BlockModel<T>;

    closed spec fn view(&self) -> BlockModel<T> {
        BlockModel {
            strong: self.strong as nat,
            total: self.total as nat,
            payload: self.payload,
        }
    }
}

/// The protocol state a block stands for: a block in hand has not been freed,
/// and its payload has been destroyed exactly when no owning handle remains.
pub open spec fn abs<T>(m: BlockModel<T>) -> State {
    State {
        strong: m.strong,
        total: m.total,
        destroyed: if m.strong == 0 {
            1nat
        } else {
            0nat
        },
        freed: 0,
    }
}

impl<T> ControlBlock<T> {
    /// The block's invariant: some unit keeps it alive, the total count
    /// dominates the strong count, and the payload slot is full exactly while
    /// an owning handle remains.
    pub open spec fn wf(&self) -> bool {
        &&& self@.total >= 1
        &&& self@.total >= self@.strong
        &&& (self@.payload is Some <==> self@.strong > 0)
    }

    /// The current strong count.
    pub fn strong_count(&self) -> (r: usize)
        ensures
            r == self@.strong,
    {
        self.strong
    }

    /// The current total count.
    pub fn total_count(&self) -> (r: usize)
        ensures
            r == self@.total,
    {
        self.total
    }
}

/// A weak handle: a linear token for one unit of the total count only. It
/// observes the payload's lifetime without keeping it alive, and can attempt
/// to promote itself into an owning handle while the payload survives.
pub struct Weak {
    unit: (),
}

/// An owning handle: it embeds a weak handle, and so stands for one strong
/// unit and one total unit. While it lives, the payload does.
pub struct Arc {
    weak: Weak,
}

/// What one promotion attempt by [`Weak::upgrade`] can come to.
pub enum UpgradeOutcome {
    /// An owning handle survived, so the promotion took effect: a new owning
    /// handle, with both counts raised.
    Promoted(Arc),
    /// The payload was already destroyed. Nothing changed, and — the strong
    /// count never rises from zero — every later attempt ends here too.
    Dead,
    /// The overflow guard tripped: the total count stands beyond
    /// [`MAX_REFS`]. Nothing changed; the caller must terminate the process
    /// rather than risk the counts wrapping.
    Saturated,
}

impl Arc {
    /// Allocates a control block with both counts at 1, the payload in its
    /// slot, and hands back its first owning handle.
    pub fn new<T>(data: T) -> (r: (Arc, ControlBlock<T>))
        ensures
            r.1.wf(),
            r.1@.strong == 1,
            r.1@.total == 1,
            r.1@.payload == Some(data),
            abs(r.1@) == protocol::init(),
    {
        (
            Arc { weak: Weak { unit: () } },
            ControlBlock { strong: 1, total: 1, payload: Some(data) },
        )
    }

    /// Clones this owning handle, raising both counts by one — unless the
    /// total count already exceeds [`MAX_REFS`], in which case nothing
    /// changes and no handle comes back: the guard has tripped and the caller
    /// must terminate the process rather than risk the counts wrapping.
    pub fn clone<T>(&self, block: &mut ControlBlock<T>) -> (r: Option<Arc>)
        requires
            old(block).wf(),
            old(block)@.strong >= 1,
        ensures
            final(block).wf(),
            final(block)@.payload == old(block)@.payload,
            r is Some <==> old(block)@.total <= MAX_REFS as nat,
            r is Some ==> final(block)@.strong == old(block)@.strong + 1 && final(block)@.total
                == old(block)@.total + 1,
            r is Some ==> protocol::enabled(abs(old(block)@), Event::CloneStrong) && abs(
                final(block)@,
            ) == protocol::step(abs(old(block)@), Event::CloneStrong),
            r is None ==> *final(block) == *old(block),
    {
        if block.total <= MAX_REFS {
            block.total = block.total + 1;
            block.strong = block.strong + 1;
            Some(Arc { weak: Weak { unit: () } })
        } else {
            None
        }
    }

    /// Mints a weak handle against this owning one, raising the total count
    /// by one — unless the total count already exceeds [`MAX_REFS`], in which
    /// case nothing changes and no handle comes back: the guard has tripped
    /// and the caller must terminate the process.
    pub fn downgrade<T>(arc: &Arc, block: &mut ControlBlock<T>) -> (r: Option<Weak>)
        requires
            old(block).wf(),
            old(block)@.strong >= 1,
        ensures
            final(block).wf(),
            final(block)@.payload == old(block)@.payload,
            final(block)@.strong == old(block)@.strong,
            r is Some <==> old(block)@.total <= MAX_REFS as nat,
            r is Some ==> final(block)@.total == old(block)@.total + 1,
            r is Some ==> protocol::enabled(abs(old(block)@), Event::CloneWeak) && abs(
                final(block)@,
            ) == protocol::step(abs(old(block)@), Event::CloneWeak),
            r is None ==> *final(block) == *old(block),
    {
        if block.total <= MAX_REFS {
            block.total = block.total + 1;
            Some(Weak { unit: () })
        } else {
            None
        }
    }

    /// Reads the shared payload; valid for as long as this owning handle
    /// lives, since the strong unit it holds keeps the slot full.
    pub fn deref<'a, T>(&self, block: &'a ControlBlock<T>) -> (r: &'a T)
        requires
            block.wf(),
            block@.strong >= 1,
        ensures
            block@.payload == Some(*r),
    {
        block.payload.as_ref().unwrap()
    }

    /// Exclusive access to the payload: granted exactly when this is the only
    /// handle of any kind — total count one — since any other unit, even a
    /// weak one mid-promotion, could reach the payload. Otherwise nothing
    /// changes and nothing is returned.
    pub fn get_mut<'a, T>(arc: &Arc, block: &'a mut ControlBlock<T>) -> (r: Option<&'a mut T>)
        requires
            old(block).wf(),
            old(block)@.strong >= 1,
        ensures
            r is Some <==> old(block)@.total == 1,
            r is None ==> *final(block) == *old(block),
            r is Some ==> old(block)@.payload == Some(*r.unwrap()) && final(block)@ == (BlockModel {
                payload: Some(*final(r.unwrap())),
                ..old(block)@
            }),
    {
        if block.total == 1 {
            block.payload.as_mut()
        } else {
            None
        }
    }

    /// Surrenders this owning handle: the strong count falls by one, and the
    /// drop that takes it to zero empties the payload slot and returns the
    /// payload to this caller — the one place its destructor will run — while
    /// the block stays allocated for the weak handles. The embedded weak
    /// handle is then surrendered in turn, and the drop that takes the total
    /// count to zero consumes the block: that is deallocation.
    pub fn drop<T>(self, block: ControlBlock<T>) -> (r: (Option<T>, Option<ControlBlock<T>>))
        requires
            block.wf(),
            block@.strong >= 1,
        ensures
            protocol::enabled(abs(block@), Event::DropStrong),
            protocol::enabled(
                protocol::step(abs(block@), Event::DropStrong),
                Event::DropWeak,
            ),
            r.0 is Some <==> block@.strong == 1,
            block@.strong == 1 ==> block@.payload == Some(r.0.unwrap()),
            r.1 is None <==> block@.total == 1,
            r.1 is Some ==> r.1.unwrap().wf() && r.1.unwrap()@.strong == block@.strong - 1
                && r.1.unwrap()@.total == block@.total - 1,
            r.1 is Some && block@.strong == 1 ==> r.1.unwrap()@.payload is None,
            r.1 is Some && block@.strong > 1 ==> r.1.unwrap()@.payload == block@.payload,
            r.1 is Some ==> abs(r.1.unwrap()@) == protocol::step(
                protocol::step(abs(block@), Event::DropStrong),
                Event::DropWeak,
            ),
            r.1 is None ==> protocol::step(
                protocol::step(abs(block@), Event::DropStrong),
                Event::DropWeak,
            ) == (State { strong: 0, total: 0, destroyed: 1, freed: 1 }),
    {
        let Arc { weak } = self;
        let mut b = block;
        let destroyed: Option<T>;
        if b.strong == 1 {
            destroyed = b.payload.take();
            b.strong = 0;
        } else {
            destroyed = None;
            b.strong = b.strong - 1;
        }
        let rest = weak.drop(b);
        (destroyed, rest)
    }
}

impl Weak {
    /// Clones this weak handle, raising the total count by one — unless the
    /// total count already exceeds [`MAX_REFS`], in which case nothing
    /// changes and no handle comes back: the guard has tripped and the caller
    /// must terminate the process.
    pub fn clone<T>(&self, block: &mut ControlBlock<T>) -> (r: Option<Weak>)
        requires
            old(block).wf(),
            old(block)@.total > old(block)@.strong,
        ensures
            final(block).wf(),
            final(block)@.payload == old(block)@.payload,
            final(block)@.strong == old(block)@.strong,
            r is Some <==> old(block)@.total <= MAX_REFS as nat,
            r is Some ==> final(block)@.total == old(block)@.total + 1,
            r is Some ==> protocol::enabled(abs(old(block)@), Event::CloneWeak) && abs(
                final(block)@,
            ) == protocol::step(abs(old(block)@), Event::CloneWeak),
            r is None ==> *final(block) == *old(block),
    {
        if block.total <= MAX_REFS {
            block.total = block.total + 1;
            Some(Weak { unit: () })
        } else {
            None
        }
    }

    /// One weak-to-strong promotion attempt. It succeeds — raising both
    /// counts and minting an owning handle — exactly when the strong count is
    /// still positive; a zero strong count is terminal for every attempt, so
    /// a handle to destroyed payload can never be obtained. In the concurrent
    /// protocol this decision is one compare-and-swap on the strong count,
    /// re-checking zero after every spurious failure until one attempt
    /// linearizes; the guard on the total count keeps the strong count, which
    /// it dominates, strictly below the representable maximum, so the
    /// increment cannot wrap.
    pub fn upgrade<T>(&self, block: &mut ControlBlock<T>) -> (r: UpgradeOutcome)
        requires
            old(block).wf(),
            old(block)@.total > old(block)@.strong,
        ensures
            final(block).wf(),
            r is Dead <==> old(block)@.strong == 0,
            r is Saturated <==> old(block)@.strong > 0 && old(block)@.total > MAX_REFS as nat,
            r is Promoted ==> final(block)@.strong == old(block)@.strong + 1
                && final(block)@.total == old(block)@.total + 1
                && final(block)@.payload == old(block)@.payload,
            r is Promoted ==> protocol::enabled(abs(old(block)@), Event::Upgrade) && abs(
                final(block)@,
            ) == protocol::step(abs(old(block)@), Event::Upgrade),
            !(r is Promoted) ==> *final(block) == *old(block),
    {
        if block.strong == 0 {
            UpgradeOutcome::Dead
        } else if block.total > MAX_REFS {
            UpgradeOutcome::Saturated
        } else {
            block.strong = block.strong + 1;
            block.total = block.total + 1;
            UpgradeOutcome::Promoted(Arc { weak: Weak { unit: () } })
        }
    }

    /// Surrenders this weak handle: the total count falls by one, and the
    /// drop that takes it to zero consumes the block — deallocation, exactly
    /// once, and never while any other unit remains. A block consumed here
    /// carries no payload: the total count reaches zero only after the strong
    /// count did, so destruction has already happened.
    pub fn drop<T>(self, block: ControlBlock<T>) -> (r: Option<ControlBlock<T>>)
        requires
            block.wf(),
            block@.total > block@.strong,
        ensures
            protocol::enabled(abs(block@), Event::DropWeak),
            r is None <==> block@.total == 1,
            r is Some ==> r.unwrap().wf() && r.unwrap()@.strong == block@.strong
                && r.unwrap()@.total == block@.total - 1 && r.unwrap()@.payload
                == block@.payload,
            r is Some ==> abs(r.unwrap()@) == protocol::step(abs(block@), Event::DropWeak),
            r is None ==> protocol::step(abs(block@), Event::DropWeak) == (State {
                strong: 0,
                total: 0,
                destroyed: 1,
                freed: 1,
            }),
    {
        let Weak { unit: _ } = self;
        if block.total == 1 {
            None
        } else {
            let mut b = block;
            b.total = b.total - 1;
            Some(b)
        }
    }
}

} // verus!
