//! The writer's protocol of a lock-free single-slot cell.
//!
//! A cell holds one value behind an atomic pointer. Writers replace it by
//! compare-and-swap and hand the superseded value to an epoch-based
//! reclamation scheme; readers pin their thread and dereference whatever the
//! slot holds at that moment. The pointer work itself lives with the caller,
//! which owns the slot and the epoch guard; this crate decides what each
//! attempt of an update does and what it comes to.
use vstd::prelude::*;

pub mod update;

verus! {

} // verus!
