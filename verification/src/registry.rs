//! The builder that threads register with during startup, and the sealed
//! registry in which they look themselves up afterwards.
//!
//! A builder is a holder of a table behind a lock. Cloning it makes one more
//! holder of the same table, so that each thread can take its own. What the
//! table holds when a call reaches the lock depends on what the other holders
//! did before, which no contract of a single call can know. The contracts of
//! the builder therefore say little, and the exact statements are those of the
//! steps that work on what they have in hand: [`RegistryTable::record`] for a
//! registration under the lock, `Released::from_taken` and
//! [`Released::from_unlocked`] for what an answer of the lock means, and
//! [`SharedRegistry::seal`] for what becomes of the table at the end. What
//! follows from them for whole runs of registrations is proved in
//! [`crate::laws`].
//!
//! A holder comes from [`SharedRegistryBuilder::new`], from a clone, or back
//! from [`SharedRegistryBuilder::release`], and from nowhere else. So the lock
//! of a holder is reached only through the holder's own calls, each of which
//! lets the lock go before it returns.
use crate::handle::{ThreadId, ThreadRuntimeRef};
use crate::sync::{
    guard_despite_poison, guard_table, lock_table, made_over, release_table, table_behind,
    take_if_sole,
};
use crate::table::{lookup, RegistryTable};
use std::sync::{Arc, Mutex, PoisonError};
use vstd::prelude::*;

verus! {

/// A read-only registry, shared by all threads once startup is over.
///
/// Its view is the map from each registered thread to the handle that the
/// thread published. Nothing changes it after it was made.
pub struct SharedRegistry {
    registry: RegistryTable,
}

impl View for SharedRegistry {
    type V = Map<ThreadId, ThreadRuntimeRef>;

    closed spec fn view(&self) -> Map<ThreadId, ThreadRuntimeRef> {
        self.registry@
    }
}

/// How a holder's attempt to take the table out of its lock ended.
pub enum Released {
    /// The holder was the last one and the lock was sound: this is the table
    /// as the registrations left it.
    Table(RegistryTable),
    /// Another holder still exists, so the table stays where it is. The
    /// holder that asked comes back, to be dropped or to try again later.
    StillShared(SharedRegistryBuilder),
    /// The holder was the last one, but a holder that failed under the lock
    /// left it poisoned.
    Poisoned,
}

impl Released {
    /// What the end of a lock means for the table that it guarded: the table
    /// comes free where the lock was sound, and is given up where the lock
    /// was poisoned.
    pub fn from_unlocked(inner: Result<RegistryTable, PoisonError<RegistryTable>>) -> (released:
        Released)
        ensures
            match inner {
                Ok(table) => released == Released::Table(table),
                Err(_) => released is Poisoned,
            },
    {
        match inner {
            Ok(table) => Released::Table(table),
            Err(_) => Released::Poisoned,
        }
    }

    /// What an attempt to take the lock out of its shared ownership means for
    /// the holder that made it. Where the share came back, another holder
    /// exists, and the holder of that share is handed back. Where the lock
    /// came free, it is taken apart, and the outcome is that of
    /// [`Released::from_unlocked`]: never that the table is still shared.
    ///
    /// This step stays inside the library: a holder is made only from a share
    /// that came out of a holder, never from a lock that a caller could hold.
    pub(crate) fn from_taken(
        taken: Result<Mutex<RegistryTable>, Arc<Mutex<RegistryTable>>>,
    ) -> (released: Released)
        ensures
            taken matches Err(shared) ==> released == Released::StillShared(
                SharedRegistryBuilder::holder_of(shared),
            ),
            taken is Ok ==> !(released is StillShared),
    {
        match taken {
            Ok(lock) => Released::from_unlocked(release_table(lock)),
            Err(shared) => Released::StillShared(SharedRegistryBuilder { registry: shared }),
        }
    }
}

impl SharedRegistry {
    /// A registry always holds finitely many entries.
    pub proof fn lemma_finite(&self)
        ensures
            self@.dom().finite(),
    {
        self.registry.lemma_finite();
    }

    /// Seals `table`: the registry holds exactly the entries of the table.
    pub fn from_table(table: RegistryTable) -> (sealed: Self)
        ensures
            sealed@ == table@,
    {
        SharedRegistry { registry: table }
    }

    /// What the end of the startup phase yields for each way in which the
    /// release of the table can end: a registry with exactly the entries of
    /// the table where the table came free, and nothing in the two other
    /// cases.
    pub fn seal(released: Released) -> (sealed: Option<Self>)
        ensures
            match released {
                Released::Table(table) => sealed matches Some(registry) && registry@ == table@,
                Released::StillShared(_) => sealed is None,
                Released::Poisoned => sealed is None,
            },
    {
        match released {
            Released::Table(table) => Some(SharedRegistry::from_table(table)),
            Released::StillShared(_) => None,
            Released::Poisoned => None,
        }
    }

    /// The handle that the thread `current` registered, or nothing where that
    /// thread never registered. To find nothing is an ordinary answer for a
    /// thread from outside the registered set.
    ///
    /// `current` must be the identity of the calling thread: the handle that
    /// comes back may be used on the thread that published it and on no other.
    /// A caller that keeps to this never sees a handle of another thread.
    ///
    /// The call takes one share of the registry with it. It waits for nothing
    /// and changes nothing.
    pub fn get_current(self: Arc<Self>, current: ThreadId) -> (found: Option<ThreadRuntimeRef>)
        ensures
            found == lookup(self@, current),
    {
        self.registry.lookup(current)
    }

    /// The number of threads that registered. There are always finitely many.
    pub fn len(&self) -> (count: usize)
        ensures
            self@.dom().finite(),
            count == self@.len(),
    {
        self.registry.len()
    }
}

/// The accumulator of the startup phase: one holder of a table that all its
/// clones share and fill under a lock.
pub struct SharedRegistryBuilder {
    registry: Arc<Mutex<RegistryTable>>,
}

impl Clone for SharedRegistryBuilder {
    /// One more holder of the same table. The clone is the same builder as
    /// `self`, not a copy of what was registered so far.
    fn clone(&self) -> (other: Self)
        ensures
            other == *self,
    {
        SharedRegistryBuilder { registry: self.registry.clone() }
    }
}

impl SharedRegistryBuilder {
    /// The holder that has `shared` as its share of the lock.
    pub(crate) closed spec fn holder_of(shared: Arc<Mutex<RegistryTable>>) -> SharedRegistryBuilder {
        SharedRegistryBuilder { registry: shared }
    }

    /// The table over which the lock of this builder was made: what all its
    /// holders started from. No registration changes it; it is not what the
    /// lock guards now.
    pub closed spec fn started_from(self) -> Map<ThreadId, ThreadRuntimeRef> {
        made_over(*self.registry)
    }

    /// A builder over a new, empty table, with the returned value as the only
    /// holder.
    ///
    /// The contract states the empty start. That the holder is the only one
    /// and that the lock is sound are states of the lock, of which no contract
    /// speaks. The empty start is a fact of the lock's making: what the lock
    /// guards later, and so what [`SharedRegistryBuilder::build`] hands out,
    /// does not follow from it.
    pub fn new() -> (builder: Self)
        ensures
            builder.started_from() == Map::<ThreadId, ThreadRuntimeRef>::empty(),
    {
        SharedRegistryBuilder { registry: Arc::new(guard_table(RegistryTable::new())) }
    }

    /// Registers `runtime` as the handle of the thread `current`.
    ///
    /// The call takes the lock, waiting while another holder has it, and does
    /// one [`RegistryTable::record`] on the shared table: an earlier entry of
    /// the same thread is overwritten, all other entries stay. `current` must
    /// be the identity of the calling thread.
    ///
    /// A lock that a failed holder left poisoned is entered all the same. The
    /// entry is recorded, and it is [`SharedRegistryBuilder::build`] that then
    /// yields nothing.
    ///
    /// The holder itself stays what it was: it is attached to the same table
    /// before and after. Of the table the contract says nothing, since other
    /// holders may register at any time.
    pub fn register(&mut self, current: ThreadId, runtime: ThreadRuntimeRef)
        ensures
            *final(self) == *old(self),
    {
        let mut guard = match lock_table(&self.registry) {
            Ok(guard) => guard,
            Err(poisoned) => guard_despite_poison(poisoned),
        };
        table_behind(&mut guard).record(current, runtime);
    }

    /// Gives up this holder where it is the last one, and takes the table out
    /// of its lock. Where another holder exists, nothing is given up: the
    /// holder comes back as it was, attached to the same table.
    ///
    /// The call does not wait for the other holders: it looks once whether
    /// any is left. Which of the three outcomes it is, and what the table
    /// holds, depends on the other holders alone, so the contract promises
    /// none of the outcomes and says nothing of the table.
    pub fn release(self) -> (released: Released)
        ensures
            released matches Released::StillShared(holder) ==> holder == self,
    {
        Released::from_taken(take_if_sole(self.registry))
    }

    /// Ends the startup phase: gives up this holder and, where it was the
    /// last one, seals the table into a registry with exactly the entries
    /// accumulated so far.
    ///
    /// Nothing comes back where another holder still exists, or where a failed
    /// holder left the lock poisoned. Whoever calls this sees to it before
    /// that all threads have registered and dropped their builders. The result
    /// is [`SharedRegistry::seal`] of what [`SharedRegistryBuilder::release`]
    /// gives; which outcome that is, no contract can say. Whatever comes back,
    /// a registry that is handed out holds finitely many entries.
    pub fn build(self) -> (built: Option<SharedRegistry>)
        ensures
            built matches Some(registry) ==> registry@.dom().finite(),
    {
        let built = SharedRegistry::seal(self.release());
        proof {
            match &built {
                Some(registry) => registry.lemma_finite(),
                None => {},
            }
        }
        built
    }
}

} // verus!
