use eventfold::counter::CounterState;
use eventfold::snapshot::{InMemorySnapshotStore, Snapshot, SnapshotStore};

#[test]
fn snapshot_roundtrip() {
    let mut store: InMemorySnapshotStore<CounterState> = InMemorySnapshotStore::new();
    let state = CounterState {
        total: 55,
        version: 10,
    };
    assert!(store.save_snapshot(1, state).is_ok());
    let found = store.get_snapshot(1).unwrap().unwrap();
    assert_eq!(found.total, 55);
    assert_eq!(Snapshot::version(&found), 10);
}

#[test]
fn snapshot_overwrite_last_wins() {
    let mut store: InMemorySnapshotStore<CounterState> = InMemorySnapshotStore::new();
    store
        .save_snapshot(
            1,
            CounterState {
                total: 10,
                version: 10,
            },
        )
        .unwrap();
    store
        .save_snapshot(
            1,
            CounterState {
                total: 20,
                version: 20,
            },
        )
        .unwrap();
    let found = store.get_snapshot(1).unwrap().unwrap();
    assert_eq!(found.total, 20);
    assert_eq!(found.version, 20);
}

#[test]
fn missing_snapshot_is_none() {
    let store: InMemorySnapshotStore<CounterState> = InMemorySnapshotStore::new();
    assert_eq!(store.get_snapshot(9).unwrap(), None);
}
