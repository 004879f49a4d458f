//! A registry through which each thread of a process finds the runtime handle
//! that it published itself.
//!
//! Registration happens once, during startup, through a
//! [`SharedRegistryBuilder`] that many threads may hold at the same time. When
//! every thread has registered and let go of its builder, the last holder
//! seals the accumulated table into a [`SharedRegistry`], which is read only
//! from then on.
pub mod handle;
pub mod laws;
pub mod registry;
mod sync;
pub mod table;

pub use handle::{ThreadId, ThreadRuntimeRef};
pub use registry::{Released, SharedRegistry, SharedRegistryBuilder};
pub use table::RegistryTable;
