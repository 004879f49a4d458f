//! The two plain values that the registry relates: who a thread is, and where
//! its runtime lives.
use vstd::prelude::*;

verus! {

/// The identity of a thread: a number that the thread keeps for as long as it
/// lives and that no other live thread has.
///
/// The registry never makes one up. Whoever calls it says which thread is
/// asking.
#[derive(Clone, Copy, Debug, PartialEq, Eq, Hash, Structural)]
pub struct ThreadId(pub u64);

/// The address of a runtime that belongs to one thread.
///
/// The value is only an address. It owns nothing and keeps nothing alive, and
/// any thread may carry or store it. Only the thread that published it may
/// turn it back into a reference to the runtime, and only while that runtime
/// is alive.
#[derive(Clone, Copy, Debug, PartialEq, Eq, Structural)]
pub struct ThreadRuntimeRef(pub usize);

} // verus!
