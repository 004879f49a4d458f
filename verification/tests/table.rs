use runtime_registry::{RegistryTable, SharedRegistry, ThreadId, ThreadRuntimeRef};
use std::sync::Arc;

#[test]
fn a_new_table_is_empty() {
    let table = RegistryTable::new();
    assert_eq!(table.len(), 0);
    assert_eq!(table.lookup(ThreadId(0)), None);
    assert_eq!(table.lookup(ThreadId(42)), None);
}

#[test]
fn record_adds_an_entry_and_keeps_the_others() {
    let mut table = RegistryTable::new();
    table.record(ThreadId(1), ThreadRuntimeRef(0xA000));
    assert_eq!(table.len(), 1);
    assert_eq!(table.lookup(ThreadId(1)), Some(ThreadRuntimeRef(0xA000)));
    table.record(ThreadId(2), ThreadRuntimeRef(0xB000));
    assert_eq!(table.len(), 2);
    assert_eq!(table.lookup(ThreadId(1)), Some(ThreadRuntimeRef(0xA000)));
    assert_eq!(table.lookup(ThreadId(2)), Some(ThreadRuntimeRef(0xB000)));
    assert_eq!(table.lookup(ThreadId(3)), None);
}

#[test]
fn record_overwrites_the_entry_of_the_same_thread() {
    let mut table = RegistryTable::new();
    table.record(ThreadId(1), ThreadRuntimeRef(0xA000));
    table.record(ThreadId(2), ThreadRuntimeRef(0xB000));
    table.record(ThreadId(1), ThreadRuntimeRef(0xC000));
    assert_eq!(table.len(), 2);
    assert_eq!(table.lookup(ThreadId(1)), Some(ThreadRuntimeRef(0xC000)));
    assert_eq!(table.lookup(ThreadId(2)), Some(ThreadRuntimeRef(0xB000)));
}

#[test]
fn recording_the_same_entry_twice_changes_nothing() {
    let mut table = RegistryTable::new();
    table.record(ThreadId(1), ThreadRuntimeRef(0xA000));
    table.record(ThreadId(1), ThreadRuntimeRef(0xA000));
    assert_eq!(table.len(), 1);
    assert_eq!(table.lookup(ThreadId(1)), Some(ThreadRuntimeRef(0xA000)));
}

#[test]
fn len_counts_threads_not_calls() {
    let mut table = RegistryTable::new();
    for round in 0..3usize {
        for k in 0..10u64 {
            table.record(ThreadId(k), ThreadRuntimeRef(0x1000 * round + k as usize));
        }
    }
    assert_eq!(table.len(), 10);
    for k in 0..10u64 {
        assert_eq!(table.lookup(ThreadId(k)), Some(ThreadRuntimeRef(0x2000 + k as usize)));
    }
}

#[test]
fn sealing_keeps_exactly_the_entries_of_the_table() {
    let mut table = RegistryTable::new();
    table.record(ThreadId(1), ThreadRuntimeRef(0xA000));
    table.record(ThreadId(2), ThreadRuntimeRef(0xB000));
    let registry = Arc::new(SharedRegistry::from_table(table));
    assert_eq!(registry.len(), 2);
    assert_eq!(registry.clone().get_current(ThreadId(1)), Some(ThreadRuntimeRef(0xA000)));
    assert_eq!(registry.clone().get_current(ThreadId(2)), Some(ThreadRuntimeRef(0xB000)));
    assert_eq!(registry.clone().get_current(ThreadId(3)), None);
}

#[test]
fn sealing_an_empty_table_gives_an_empty_registry() {
    let registry = Arc::new(SharedRegistry::from_table(RegistryTable::new()));
    assert_eq!(registry.len(), 0);
    assert_eq!(registry.clone().get_current(ThreadId(0)), None);
}

#[test]
fn identities_and_handles_compare_by_their_number() {
    assert_eq!(ThreadId(3), ThreadId(3));
    assert_ne!(ThreadId(3), ThreadId(4));
    assert_eq!(ThreadRuntimeRef(0xA000), ThreadRuntimeRef(0xA000));
    assert_ne!(ThreadRuntimeRef(0xA000), ThreadRuntimeRef(0xA008));
    assert_eq!(ThreadId(3).0, 3);
    assert_eq!(ThreadRuntimeRef(0xA000).0, 0xA000);
    let copy = ThreadRuntimeRef(0xA000);
    let same = copy;
    assert_eq!(copy, same);
}
