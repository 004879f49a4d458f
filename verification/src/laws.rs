//! What holds of every run of registrations, whatever the threads and
//! whatever the order in which they reach the lock.
//!
//! The lock lets one registration through at a time, so a run is a sequence
//! of calls, each a thread's identity with the handle it publishes. The laws
//! below are stated of such sequences and of the table that they leave.
use crate::handle::{ThreadId, ThreadRuntimeRef};
use crate::table::lookup;
use vstd::prelude::*;

verus! {

/// The table that stands after `calls` were recorded one after another, in
/// this order, starting from the empty table. Each step does to the table what
/// `RegistryTable::record` does.
pub open spec fn recorded(calls: Seq<(ThreadId, ThreadRuntimeRef)>) -> Map<
    ThreadId,
    ThreadRuntimeRef,
>
    decreases calls.len(),
{
    if calls.len() == 0 {
        Map::empty()
    } else {
        recorded(calls.drop_last()).insert(calls.last().0, calls.last().1)
    }
}

/// No two of `calls` come from the same thread.
pub open spec fn distinct_threads(calls: Seq<(ThreadId, ThreadRuntimeRef)>) -> bool {
    forall|i: int, j: int|
        #![trigger calls[i], calls[j]]
        0 <= i < j < calls.len() ==> calls[i].0 != calls[j].0
}

/// The thread `id` makes one of `calls`.
pub open spec fn registers(calls: Seq<(ThreadId, ThreadRuntimeRef)>, id: ThreadId) -> bool {
    exists|i: int| 0 <= i < calls.len() && (#[trigger] calls[i]).0 == id
}

/// One more registration changes the table as one `record` does.
pub proof fn lemma_recorded_step(
    calls: Seq<(ThreadId, ThreadRuntimeRef)>,
    id: ThreadId,
    runtime: ThreadRuntimeRef,
)
    ensures
        recorded(calls.push((id, runtime))) == recorded(calls).insert(id, runtime),
{
    assert(calls.push((id, runtime)).drop_last() =~= calls);
}

/// The table has an entry for exactly the threads that registered, and so for
/// finitely many.
pub proof fn lemma_entries_are_the_registered_threads(calls: Seq<(ThreadId, ThreadRuntimeRef)>)
    ensures
        recorded(calls).dom().finite(),
        forall|id: ThreadId| #[trigger] recorded(calls).contains_key(id) <==> registers(calls, id),
    decreases calls.len(),
{
    if calls.len() > 0 {
        let earlier = calls.drop_last();
        lemma_entries_are_the_registered_threads(earlier);
        assert forall|id: ThreadId| #[trigger]
            recorded(calls).contains_key(id) <==> registers(calls, id) by {
            if registers(calls, id) {
                let i = choose|i: int| 0 <= i < calls.len() && (#[trigger] calls[i]).0 == id;
                if i < earlier.len() {
                    assert(earlier[i].0 == id);
                }
            }
            if recorded(calls).contains_key(id) && id != calls.last().0 {
                let i = choose|i: int| 0 <= i < earlier.len() && (#[trigger] earlier[i]).0 == id;
                assert(calls[i].0 == id);
            }
            if id == calls.last().0 {
                assert(calls[calls.len() - 1].0 == id);
            }
        }
    }
}

/// A lookup never hands a thread the handle of another: what it finds for a
/// thread was registered under the identity of that very thread.
pub proof fn lemma_found_handle_is_the_threads_own(
    calls: Seq<(ThreadId, ThreadRuntimeRef)>,
    id: ThreadId,
    found: ThreadRuntimeRef,
)
    requires
        lookup(recorded(calls), id) == Some(found),
    ensures
        calls.contains((id, found)),
    decreases calls.len(),
{
    if calls.len() > 0 {
        if id == calls.last().0 {
            assert(calls[calls.len() - 1] == (id, found));
        } else {
            let earlier = calls.drop_last();
            lemma_found_handle_is_the_threads_own(earlier, id, found);
            let i = choose|i: int| 0 <= i < earlier.len() && earlier[i] == (id, found);
            assert(calls[i] == (id, found));
        }
    }
}

/// Registering again overwrites: of two registrations of one thread in a row
/// only the second is left, and a lookup finds its handle.
pub proof fn lemma_reregistration_overwrites(
    table: Map<ThreadId, ThreadRuntimeRef>,
    id: ThreadId,
    first: ThreadRuntimeRef,
    second: ThreadRuntimeRef,
)
    ensures
        table.insert(id, first).insert(id, second) == table.insert(id, second),
        lookup(table.insert(id, first).insert(id, second), id) == Some(second),
{
    assert(table.insert(id, first).insert(id, second) =~= table.insert(id, second));
}

/// The last registration of a thread wins: where the call at `last` is not
/// followed by another call of the same thread, a lookup for that thread finds
/// the handle of that call, whatever was registered before or in between.
pub proof fn lemma_last_registration_wins(calls: Seq<(ThreadId, ThreadRuntimeRef)>, last: int)
    requires
        0 <= last < calls.len(),
        forall|later: int| last < later < calls.len() ==> (#[trigger] calls[later]).0 != calls[last].0,
    ensures
        lookup(recorded(calls), calls[last].0) == Some(calls[last].1),
    decreases calls.len(),
{
    if last < calls.len() - 1 {
        let earlier = calls.drop_last();
        assert(calls[calls.len() - 1].0 != calls[last].0);
        assert forall|later: int| last < later < earlier.len() implies (#[trigger] earlier[later]).0
            != earlier[last].0 by {
            assert(calls[later].0 != calls[last].0);
        }
        lemma_last_registration_wins(earlier, last);
    }
}

/// Where every thread registers once, nothing is lost and nothing is mixed
/// up: the table has as many entries as there were calls, and a lookup for
/// each thread finds the handle that this thread registered.
pub proof fn lemma_each_thread_finds_its_own(calls: Seq<(ThreadId, ThreadRuntimeRef)>)
    requires
        distinct_threads(calls),
    ensures
        recorded(calls).dom().finite(),
        recorded(calls).len() == calls.len(),
        forall|i: int|
            0 <= i < calls.len() ==> lookup(recorded(calls), (#[trigger] calls[i]).0) == Some(
                calls[i].1,
            ),
    decreases calls.len(),
{
    lemma_entries_are_the_registered_threads(calls);
    assert forall|i: int| 0 <= i < calls.len() implies lookup(
        recorded(calls),
        (#[trigger] calls[i]).0,
    ) == Some(calls[i].1) by {
        assert forall|later: int| i < later < calls.len() implies (#[trigger] calls[later]).0
            != calls[i].0 by {
            assert(calls[i].0 != calls[later].0);
        }
        lemma_last_registration_wins(calls, i);
    }
    if calls.len() > 0 {
        let earlier = calls.drop_last();
        assert(distinct_threads(earlier)) by {
            assert forall|i: int, j: int|
                #![trigger earlier[i], earlier[j]]
                0 <= i < j < earlier.len() implies earlier[i].0 != earlier[j].0 by {
                assert(calls[i].0 != calls[j].0);
            }
        }
        lemma_each_thread_finds_its_own(earlier);
        lemma_entries_are_the_registered_threads(earlier);
        assert(!recorded(earlier).contains_key(calls.last().0)) by {
            if registers(earlier, calls.last().0) {
                let i = choose|i: int|
                    0 <= i < earlier.len() && (#[trigger] earlier[i]).0 == calls.last().0;
                assert(calls[i].0 != calls[calls.len() - 1].0);
            }
        }
    }
}

/// A thread that never registered finds nothing.
pub proof fn lemma_unregistered_thread_finds_nothing(
    calls: Seq<(ThreadId, ThreadRuntimeRef)>,
    id: ThreadId,
)
    requires
        !registers(calls, id),
    ensures
        lookup(recorded(calls), id) == None::<ThreadRuntimeRef>,
{
    lemma_entries_are_the_registered_threads(calls);
}

/// The order in which threads reach the lock does not matter: where every
/// thread registers once, any two orders of the same calls leave the same
/// table, and that table holds every one of the calls.
pub proof fn lemma_order_of_arrival_is_irrelevant(
    calls: Seq<(ThreadId, ThreadRuntimeRef)>,
    reordered: Seq<(ThreadId, ThreadRuntimeRef)>,
)
    requires
        distinct_threads(calls),
        calls.to_multiset() == reordered.to_multiset(),
    ensures
        recorded(reordered) == recorded(calls),
        recorded(reordered).len() == calls.len(),
        forall|i: int|
            0 <= i < calls.len() ==> lookup(recorded(reordered), (#[trigger] calls[i]).0) == Some(
                calls[i].1,
            ),
{
    calls.to_multiset_ensures();
    reordered.to_multiset_ensures();
    lemma_each_thread_finds_its_own(calls);
    lemma_entries_are_the_registered_threads(calls);
    lemma_entries_are_the_registered_threads(reordered);
    assert forall|id: ThreadId| #[trigger]
        recorded(reordered).dom().contains(id) implies recorded(calls).dom().contains(id)
        && recorded(calls)[id] == recorded(reordered)[id] by {
        let call = (id, recorded(reordered)[id]);
        lemma_found_handle_is_the_threads_own(reordered, id, call.1);
        assert(reordered.to_multiset().count(call) > 0);
        assert(calls.to_multiset().count(call) > 0);
        let i = choose|i: int| 0 <= i < calls.len() && calls[i] == call;
        assert(calls[i].0 == id);
    }
    assert forall|id: ThreadId| #[trigger]
        recorded(calls).dom().contains(id) implies recorded(reordered).dom().contains(id) by {
        let i = choose|i: int| 0 <= i < calls.len() && (#[trigger] calls[i]).0 == id;
        assert(calls.contains(calls[i]));
        assert(calls.to_multiset().count(calls[i]) > 0);
        assert(reordered.to_multiset().count(calls[i]) > 0);
        let j = choose|j: int| 0 <= j < reordered.len() && reordered[j] == calls[i];
        assert(reordered[j].0 == id);
    }
    assert(recorded(reordered) =~= recorded(calls));
}

} // verus!
