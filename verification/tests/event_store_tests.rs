use eventfold::counter::CounterEvent;
use eventfold::event_metadata::{EventEnvelope, EventMetadata};
use eventfold::event_store::{batch_versions, EventStore, InMemoryEventStore, StoreError};

fn raise(aggregate_id: u64, amount: u64) -> EventEnvelope<CounterEvent> {
    EventEnvelope {
        event: CounterEvent {
            aggregate_id,
            amount,
        },
        metadata: EventMetadata::new(7, None),
    }
}

#[test]
fn append_batch_is_atomic_and_ordered() {
    let mut store: InMemoryEventStore<CounterEvent> = InMemoryEventStore::new();
    let batch = vec![raise(1, 10), raise(1, 20), raise(1, 30)];
    assert!(store.save_events(1, batch, 0).is_ok());

    let read = store.get_events(1).unwrap();
    assert_eq!(read.len(), 3);
    assert_eq!(read[0].event.amount, 10);
    assert_eq!(read[1].event.amount, 20);
    assert_eq!(read[2].event.amount, 30);
}

#[test]
fn conflicting_append_is_rejected_whole() {
    let mut store: InMemoryEventStore<CounterEvent> = InMemoryEventStore::new();
    assert!(store.save_events(1, vec![raise(1, 1), raise(1, 2)], 0).is_ok());

    // A second writer that also saw version 0 must lose, and nothing of its
    // batch may appear in the log.
    let outcome = store.save_events(1, vec![raise(1, 99), raise(1, 100)], 0);
    assert_eq!(outcome, Err(StoreError::ConcurrencyConflict));

    let read = store.get_events(1).unwrap();
    assert_eq!(read.len(), 2);
    assert_eq!(read[0].event.amount, 1);
    assert_eq!(read[1].event.amount, 2);
}

#[test]
fn exactly_one_of_two_racing_appends_succeeds() {
    let mut store: InMemoryEventStore<CounterEvent> = InMemoryEventStore::new();
    let first = store.save_events(5, vec![raise(5, 1)], 0);
    let second = store.save_events(5, vec![raise(5, 2)], 0);
    assert!(first.is_ok());
    assert_eq!(second, Err(StoreError::ConcurrencyConflict));
    let read = store.get_events(5).unwrap();
    assert_eq!(read.len(), 1);
    assert_eq!(read[0].event.amount, 1);
}

#[test]
fn zero_event_append_succeeds_without_version_check() {
    let mut store: InMemoryEventStore<CounterEvent> = InMemoryEventStore::new();
    assert!(store.save_events(1, vec![raise(1, 4)], 0).is_ok());

    // An empty batch succeeds even against a stale expected version, and
    // changes nothing.
    assert!(store.save_events(1, Vec::new(), 99).is_ok());
    assert_eq!(store.get_events(1).unwrap().len(), 1);
}

#[test]
fn unknown_identity_reads_empty() {
    let store: InMemoryEventStore<CounterEvent> = InMemoryEventStore::new();
    assert_eq!(store.get_events(42).unwrap().len(), 0);
    assert_eq!(store.get_events_from_version(42, 0).unwrap().len(), 0);
}

#[test]
fn read_from_version_is_strictly_greater() {
    let mut store: InMemoryEventStore<CounterEvent> = InMemoryEventStore::new();
    let batch = vec![raise(1, 10), raise(1, 20), raise(1, 30)];
    store.save_events(1, batch, 0).unwrap();

    let tail = store.get_events_from_version(1, 1).unwrap();
    assert_eq!(tail.len(), 2);
    assert_eq!(tail[0].event.amount, 20);
    assert_eq!(tail[1].event.amount, 30);

    assert_eq!(store.get_events_from_version(1, 3).unwrap().len(), 0);
    assert_eq!(store.get_events_from_version(1, 50).unwrap().len(), 0);
}

#[test]
fn appends_to_one_identity_leave_others_alone() {
    let mut store: InMemoryEventStore<CounterEvent> = InMemoryEventStore::new();
    store.save_events(1, vec![raise(1, 10)], 0).unwrap();
    store.save_events(2, vec![raise(2, 20)], 0).unwrap();
    assert_eq!(store.get_events(1).unwrap().len(), 1);
    assert_eq!(store.get_events(2).unwrap().len(), 1);
    assert_eq!(store.get_events(1).unwrap()[0].event.amount, 10);
}

#[test]
fn batch_version_numbers_are_consecutive() {
    assert_eq!(batch_versions(5, 3), vec![6, 7, 8]);
    assert_eq!(batch_versions(0, 1), vec![1]);
    assert_eq!(batch_versions(9, 0), Vec::<u64>::new());
}
