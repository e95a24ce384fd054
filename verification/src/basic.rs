//! The strong-only shared owner: one count, destruction and deallocation in
//! one step.
//!
//! The control block is an explicit value here, and each handle a linear
//! token standing for one unit of its count: cloning a handle mints a token
//! and raises the count, dropping one surrenders the token and lowers it —
//! that a handle is in hand, and so the count at least one, stands as each
//! operation's precondition — and
//! the drop that takes the count to zero receives the payload back — the
//! block is gone and the payload is destroyed exactly once, by that caller.
//! Every operation's contract also states the [`crate::protocol`] transition
//! it performs, so the lemmas proved there about whole histories apply to any
//! sequence of these calls.

use crate::protocol;
use crate::protocol::Event;
use crate::protocol::MAX_REFS;
use crate::protocol::State;
use vstd::prelude::*;

verus! {

/// What a control block holds: the number of live owning handles and the
/// payload they share.
pub ghost struct BlockModel<T> {
    pub count: nat,
    pub value: T,
}

/// The control block: one per shared value, holding the count and the
/// payload. It exists exactly while the count is positive, so the payload
/// needs no empty marker.
pub struct ControlBlock<T> {
    ref_count: usize,
    data: T,
}

impl<T> View for ControlBlock<T> {
    type V = BlockModel<T>;

    closed spec fn view(&self) -> BlockModel<T> {
        BlockModel { count: self.ref_count as nat, value: self.data }
    }
}

/// The protocol state a block stands for: with no weak observers the total
/// count equals the strong count, and a block in hand has been neither
/// destroyed nor freed.
pub open spec fn abs<T>(m: BlockModel<T>) -> State {
    State { strong: m.count, total: m.count, destroyed: 0, freed: 0 }
}

impl<T> ControlBlock<T> {
    /// A block in hand answers to at least one handle.
    pub open spec fn wf(&self) -> bool {
        self@.count >= 1
    }

    /// The current count.
    pub fn ref_count(&self) -> (r: usize)
        ensures
            r == self@.count,
    {
        self.ref_count
    }
}

/// An owning handle: a linear token for one unit of the block's count. It
/// cannot be copied, only cloned through [`Arc::clone`] — which raises the
/// count — and is surrendered by [`Arc::drop`].
pub struct Arc {
    unit: (),
}

/// What [`Arc::drop`] leaves behind.
pub enum DropOutcome<T> {
    /// Other owners remain: the block lives on, one unit lighter.
    Remaining(ControlBlock<T>),
    /// This was the last owner: the block is gone and the payload comes back
    /// to this caller, the one place its destructor will run.
    Destroyed(T),
}

impl Arc {
    /// Allocates a control block with count 1 and hands back its first
    /// owning handle.
    pub fn new<T>(data: T) -> (r: (Arc, ControlBlock<T>))
        ensures
            r.1.wf(),
            r.1@.count == 1,
            r.1@.value == data,
            abs(r.1@) == protocol::init(),
    {
        (Arc { unit: () }, ControlBlock { ref_count: 1, data })
    }

    /// Clones this handle, raising the count by one — unless the count
    /// already exceeds [`MAX_REFS`], in which case nothing changes and no
    /// handle comes back: the guard has tripped and the caller must terminate
    /// the process rather than risk the count wrapping.
    pub fn clone<T>(&self, block: &mut ControlBlock<T>) -> (r: Option<Arc>)
        requires
            old(block).wf(),
        ensures
            final(block).wf(),
            final(block)@.value == old(block)@.value,
            r is Some <==> old(block)@.count <= MAX_REFS as nat,
            r is Some ==> final(block)@.count == old(block)@.count + 1,
            r is Some ==> protocol::enabled(abs(old(block)@), Event::CloneStrong) && abs(
                final(block)@,
            ) == protocol::step(abs(old(block)@), Event::CloneStrong),
            r is None ==> *final(block) == *old(block),
    {
        if block.ref_count <= MAX_REFS {
            block.ref_count = block.ref_count + 1;
            Some(Arc { unit: () })
        } else {
            None
        }
    }

    /// Reads the shared payload; valid for as long as this handle lives.
    pub fn deref<'a, T>(&self, block: &'a ControlBlock<T>) -> (r: &'a T)
        requires
            block.wf(),
        ensures
            *r == block@.value,
    {
        &block.data
    }

    /// Surrenders this handle. The drop that takes the count from one to zero
    /// destroys and deallocates in one step: the block is consumed and the
    /// payload returned for destruction; any earlier drop only lowers the
    /// count.
    pub fn drop<T>(self, block: ControlBlock<T>) -> (r: DropOutcome<T>)
        requires
            block.wf(),
        ensures
            protocol::enabled(abs(block@), Event::DropStrong),
            protocol::enabled(
                protocol::step(abs(block@), Event::DropStrong),
                Event::DropWeak,
            ),
            r is Destroyed <==> block@.count == 1,
            r is Destroyed ==> r->Destroyed_0 == block@.value,
            r is Remaining ==> r->Remaining_0.wf() && r->Remaining_0@.count == block@.count - 1
                && r->Remaining_0@.value == block@.value,
            r is Remaining ==> abs(r->Remaining_0@) == protocol::step(
                protocol::step(abs(block@), Event::DropStrong),
                Event::DropWeak,
            ),
            r is Destroyed ==> protocol::step(
                protocol::step(abs(block@), Event::DropStrong),
                Event::DropWeak,
            ) == (State { strong: 0, total: 0, destroyed: 1, freed: 1 }),
    {
        let Arc { unit: _ } = self;
        if block.ref_count == 1 {
            let ControlBlock { ref_count: _, data } = block;
            DropOutcome::Destroyed(data)
        } else {
            let mut b = block;
            b.ref_count = b.ref_count - 1;
            DropOutcome::Remaining(b)
        }
    }
}

} // verus!
