//! Atomic reference counting, modelled and proved.
//!
//! Two shared-ownership cores are specified here: a strong-only owner
//! (`basic`) and an owner with weak observers (`weak`). Each keeps its
//! reference counts and payload slot in an explicit control block, and every
//! operation is an exec function whose contract pins down the transition it
//! performs. The `protocol` module states the counting discipline once, as a
//! state machine over histories of operations, and proves the lifetime laws:
//! the payload is destroyed exactly once, the block is deallocated exactly
//! once and never before destruction, a dead value stays dead, and balanced
//! clone/drop histories restore the counts.
//!
//! The concurrent execution of this protocol decides each operation at one
//! atomic read-modify-write of a count, so every interleaving of handles
//! across threads linearizes to one history of these transitions; the proofs
//! here quantify over all such histories.

pub mod basic;
pub mod protocol;
pub mod weak;
