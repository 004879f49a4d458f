//! The table of registrations: which runtime each thread published.
use crate::handle::{ThreadId, ThreadRuntimeRef};
use std::collections::HashMap;
use vstd::prelude::*;
use vstd::relations::injective_on;
use vstd::set_lib::lemma_map_size;

verus! {

broadcast use vstd::std_specs::hash::group_hash_axioms;

/// What a lookup in `table` gives for the thread `id`: the handle recorded for
/// that thread, or nothing where the thread has no entry.
pub open spec fn lookup(table: Map<ThreadId, ThreadRuntimeRef>, id: ThreadId) -> Option<
    ThreadRuntimeRef,
> {
    if table.contains_key(id) {
        Some(table[id])
    } else {
        None
    }
}

/// A table from thread identities to runtime handles, with at most one entry
/// for each thread.
///
/// Its view is the mathematical map that it stands for.
pub struct RegistryTable {
    entries: HashMap<u64, ThreadRuntimeRef>,
}

impl View for RegistryTable {
    type V = Map<ThreadId, ThreadRuntimeRef>;

    closed spec fn view(&self) -> Map<ThreadId, ThreadRuntimeRef> {
        Map::new(
            |id: ThreadId| self.entries@.contains_key(id.0),
            |id: ThreadId| self.entries@[id.0],
        )
    }
}

impl RegistryTable {
    /// A table always holds finitely many entries.
    pub proof fn lemma_finite(&self)
        ensures
            self@.dom().finite(),
    {
        self.lemma_same_size();
    }

    /// The view has as many entries as the stored map, and finitely many.
    proof fn lemma_same_size(&self)
        ensures
            self@.dom().finite(),
            self@.dom().len() == self.entries@.dom().len(),
    {
        let wrap = |raw: u64| ThreadId(raw);
        assert(injective_on(wrap, self.entries@.dom()));
        assert(self.entries@.dom().map(wrap) =~= self@.dom()) by {
            assert forall|id: ThreadId| self@.dom().contains(id) implies self.entries@.dom().map(
                wrap,
            ).contains(id) by {
                assert(self.entries@.dom().contains(id.0) && wrap(id.0) == id);
            }
        }
        lemma_map_size(self.entries@.dom(), self@.dom(), wrap);
    }

    /// The empty table.
    pub fn new() -> (table: Self)
        ensures
            table@ == Map::<ThreadId, ThreadRuntimeRef>::empty(),
    {
        let table = RegistryTable { entries: HashMap::new() };
        assert(table@ =~= Map::<ThreadId, ThreadRuntimeRef>::empty());
        table
    }

    /// Records `runtime` as the handle of the thread `id`. An entry that the
    /// thread had before is replaced; the entries of all other threads stay as
    /// they were.
    pub fn record(&mut self, id: ThreadId, runtime: ThreadRuntimeRef)
        ensures
            final(self)@ == old(self)@.insert(id, runtime),
    {
        self.entries.insert(id.0, runtime);
        assert(self@ =~= old(self)@.insert(id, runtime));
    }

    /// The handle recorded for the thread `id`, if there is one.
    pub fn lookup(&self, id: ThreadId) -> (found: Option<ThreadRuntimeRef>)
        ensures
            found == lookup(self@, id),
    {
        match self.entries.get(&id.0) {
            Some(runtime) => Some(*runtime),
            None => None,
        }
    }

    /// The number of threads that have an entry. There are always finitely
    /// many.
    pub fn len(&self) -> (count: usize)
        ensures
            self@.dom().finite(),
            count == self@.len(),
    {
        proof {
            self.lemma_same_size();
        }
        self.entries.len()
    }
}

} // verus!
