//! The lock and the shared ownership under which a builder keeps its table.
//!
//! Everything in this file is taken on trust from the standard library. Each
//! function is a single call into it. None claims anything of what a lock
//! guards, of whether it is poisoned or of how many holders it has: these
//! depend on what other threads did before, not on the arguments of the call.
//! Verified code learns about a table only by working on it once it has it in
//! hand. Two contracts stand here, both of facts that no later call changes:
//! over which table a lock was made, and which lock comes back from an attempt
//! to take it out of its shared ownership.
use crate::handle::{ThreadId, ThreadRuntimeRef};
use crate::table::RegistryTable;
use std::ops::DerefMut;
use std::sync::{Arc, Mutex, MutexGuard, PoisonError};
use vstd::prelude::*;

verus! {

/// `std::sync::Mutex`, carried as an opaque value.
#[verifier::external_type_specification]
#[verifier::external_body]
#[verifier::reject_recursive_types(T)]
pub struct ExMutex<T: ?Sized>(Mutex<T>);

/// `std::sync::MutexGuard`, carried as an opaque value. For as long as it
/// lives, its holder alone has access to what the lock guards; the lock is
/// free again when the guard is dropped.
#[verifier::external_type_specification]
#[verifier::external_body]
#[verifier::reject_recursive_types(T)]
pub struct ExMutexGuard<'a, T: ?Sized + 'a>(MutexGuard<'a, T>);

/// `std::sync::PoisonError`, carried as an opaque value: the wrapping in which
/// a lock hands out its guard or its contents once a holder has failed while
/// it had the lock.
#[verifier::external_type_specification]
#[verifier::external_body]
#[verifier::reject_recursive_types(T)]
pub struct ExPoisonError<T>(PoisonError<T>);

/// The table over which `lock` was made: what it guarded at the moment of its
/// making. This is a fact of the lock's past and stays what it is. It is not
/// what the lock guards now, which changes with every registration.
pub uninterp spec fn made_over(lock: Mutex<RegistryTable>) -> Map<ThreadId, ThreadRuntimeRef>;

/// `Mutex::new`: a fresh lock that guards `table`. The contract claims that
/// the lock was made over this table, and nothing else of the lock.
#[verifier::external_body]
pub(crate) fn guard_table(table: RegistryTable) -> (lock: Mutex<RegistryTable>)
    ensures
        made_over(lock) == table@,
{
    Mutex::new(table)
}

/// `Mutex::lock`: waits until the lock is free and takes it. The guard comes
/// back as an error where the lock is poisoned. Nothing is claimed of which
/// of the two it is, nor of the table behind the guard.
///
/// The standard library may panic or wait for ever where the calling thread
/// holds the lock already. That cannot be here. A lock of this kind is made by
/// a new builder alone and reached through its holders alone: no public
/// function takes or gives a lock or a share of one. The one caller,
/// `SharedRegistryBuilder::register`, drops the guard before it returns, and
/// the recording that it does under the guard calls nothing of the builder.
#[verifier::external_body]
pub(crate) fn lock_table<'a>(lock: &'a Mutex<RegistryTable>) -> Result<
    MutexGuard<'a, RegistryTable>,
    PoisonError<MutexGuard<'a, RegistryTable>>,
> {
    lock.lock()
}

/// `PoisonError::into_inner`: the guard that a poisoned lock handed out inside
/// its error. Nothing is claimed of the table behind the guard.
#[verifier::external_body]
pub(crate) fn guard_despite_poison<'a>(
    poisoned: PoisonError<MutexGuard<'a, RegistryTable>>,
) -> MutexGuard<'a, RegistryTable> {
    poisoned.into_inner()
}

/// `DerefMut::deref_mut` of a guard: the table behind the lock, for as long as
/// the guard is borrowed. Nothing is claimed of what the table holds when it
/// is handed out; what the caller does to it stays behind the lock.
#[verifier::external_body]
pub(crate) fn table_behind<'a, 'b>(
    guard: &'a mut MutexGuard<'b, RegistryTable>,
) -> &'a mut RegistryTable {
    guard.deref_mut()
}

/// `Arc::try_unwrap`: the lock itself where `shared` is the only holder left;
/// otherwise `shared` comes back as the error. The contract claims that what
/// comes back is the lock that went in: the lock that `shared` held in the
/// first case, the very same share in the second. Nothing is claimed of which
/// of the two it is.
#[verifier::external_body]
pub(crate) fn take_if_sole(shared: Arc<Mutex<RegistryTable>>) -> (taken: Result<
    Mutex<RegistryTable>,
    Arc<Mutex<RegistryTable>>,
>)
    ensures
        match taken {
            Ok(lock) => lock == *shared,
            Err(same) => same == shared,
        },
{
    Arc::try_unwrap(shared)
}

/// `Mutex::into_inner`: the table that the lock guarded; wrapped in an error
/// where a holder that failed left the lock poisoned. Nothing is claimed of
/// which of the two it is, nor of what the table holds.
#[verifier::external_body]
pub(crate) fn release_table(lock: Mutex<RegistryTable>) -> Result<
    RegistryTable,
    PoisonError<RegistryTable>,
> {
    lock.into_inner()
}

} // verus!
