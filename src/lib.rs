//! A growable sequence shared between threads: read snapshots, in-place
//! write snapshots that can be escalated to exclusive access, and appends that
//! only wait on snapshots when the storage has to relocate.

use vstd::prelude::*;

pub mod buffer;
pub mod laws;
pub mod rwvec;

pub use buffer::Buffer;
pub use rwvec::{Exclusive, PushError, RWVec, SliceGuard, SliceGuardMut, VecGuardMut};

verus! {

} // verus!
