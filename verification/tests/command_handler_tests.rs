use eventfold::aggregate::Aggregate;
use eventfold::command_handler::{
    AggregateCommandHandler, CommandHandler, CommandHandlerError, HandlerError,
};
use eventfold::counter::{CounterError, CounterEvent, CounterState, RaiseCounter};
use eventfold::event_store::{EventStore, InMemoryEventStore, StoreError};
use eventfold::snapshot::{InMemorySnapshotStore, SnapshotStore};

type CounterHandler = AggregateCommandHandler<
    RaiseCounter,
    InMemoryEventStore<CounterEvent>,
    InMemorySnapshotStore<CounterState>,
>;

fn fresh_handler() -> CounterHandler {
    AggregateCommandHandler::new(InMemoryEventStore::new(), InMemorySnapshotStore::new())
}

fn raise(handler: &mut CounterHandler, id: u64, amount: u64) -> Result<(), HandlerError<CounterError>> {
    handler.handle(RaiseCounter {
        aggregate_id: id,
        amount,
    })
}

#[test]
fn raise_appends_one_event() {
    let mut handler = fresh_handler();
    assert!(raise(&mut handler, 1, 5).is_ok());
    let log = handler.event_store().get_events(1).unwrap();
    assert_eq!(log.len(), 1);
    assert_eq!(log[0].event.amount, 5);
    assert_eq!(log[0].event.aggregate_id, 1);
    assert_eq!(log[0].metadata.causation_id, None);
}

#[test]
fn zero_event_decision_is_a_noop() {
    let mut handler = fresh_handler();
    assert!(raise(&mut handler, 1, 0).is_ok());
    assert_eq!(handler.event_store().get_events(1).unwrap().len(), 0);
    assert_eq!(handler.snapshot_store().get_snapshot(1).unwrap(), None);
}

#[test]
fn domain_rejection_is_surfaced_and_touches_nothing() {
    let mut handler = fresh_handler();
    assert!(raise(&mut handler, 1, u64::MAX).is_ok());
    let outcome = raise(&mut handler, 1, 1);
    assert_eq!(outcome, Err(HandlerError::Domain(CounterError::Overflow)));
    assert_eq!(handler.event_store().get_events(1).unwrap().len(), 1);
}

#[test]
fn snapshot_written_exactly_at_interval() {
    let mut handler = fresh_handler();
    for step in 0..9u64 {
        assert!(raise(&mut handler, 1, step + 1).is_ok());
        assert_eq!(
            handler.snapshot_store().get_snapshot(1).unwrap(),
            None,
            "no snapshot before the interval",
        );
    }

    // The tenth append brings the aggregate to version 10: snapshot time.
    assert!(raise(&mut handler, 1, 10).is_ok());
    let snapshot = handler.snapshot_store().get_snapshot(1).unwrap().unwrap();
    assert_eq!(snapshot.version, 10);
    assert_eq!(snapshot.total, (1..=10u64).sum::<u64>());

    // Version 10 to 11 crosses no multiple of 10: the snapshot stays as it was.
    assert!(raise(&mut handler, 1, 11).is_ok());
    let unchanged = handler.snapshot_store().get_snapshot(1).unwrap().unwrap();
    assert_eq!(unchanged.version, 10);
}

#[test]
fn configured_interval_is_respected() {
    let mut handler: CounterHandler = AggregateCommandHandler::with_interval(
        InMemoryEventStore::new(),
        InMemorySnapshotStore::new(),
        3,
    );
    assert!(raise(&mut handler, 1, 1).is_ok());
    assert!(raise(&mut handler, 1, 1).is_ok());
    assert_eq!(handler.snapshot_store().get_snapshot(1).unwrap(), None);
    assert!(raise(&mut handler, 1, 1).is_ok());
    let snapshot = handler.snapshot_store().get_snapshot(1).unwrap().unwrap();
    assert_eq!(snapshot.version, 3);
}

#[test]
fn replay_with_snapshot_equals_full_replay() {
    // Handler A runs long enough to have written a snapshot.
    let mut with_snapshot = fresh_handler();
    for step in 0..12u64 {
        assert!(raise(&mut with_snapshot, 1, step + 1).is_ok());
    }
    assert!(with_snapshot.snapshot_store().get_snapshot(1).unwrap().is_some());

    // Handler B holds the identical event log but no snapshot at all.
    let mut log_copy: InMemoryEventStore<CounterEvent> = InMemoryEventStore::new();
    let history = with_snapshot.event_store().get_events(1).unwrap();
    log_copy.save_events(1, history, 0).unwrap();
    let mut without_snapshot: CounterHandler =
        AggregateCommandHandler::new(log_copy, InMemorySnapshotStore::new());

    // The same command must produce the same outcome on both.
    assert!(raise(&mut with_snapshot, 1, 100).is_ok());
    assert!(raise(&mut without_snapshot, 1, 100).is_ok());

    let log_a = with_snapshot.event_store().get_events(1).unwrap();
    let log_b = without_snapshot.event_store().get_events(1).unwrap();
    assert_eq!(log_a.len(), log_b.len());
    for position in 0..log_a.len() {
        assert_eq!(log_a[position].event, log_b[position].event);
    }

    // And a full replay of either log folds to the identical state.
    let mut replay_a = CounterState::initial();
    for envelope in &log_a {
        replay_a.apply(&envelope.event);
    }
    let mut replay_b = CounterState::initial();
    for envelope in &log_b {
        replay_b.apply(&envelope.event);
    }
    assert_eq!(replay_a, replay_b);
    assert_eq!(replay_a.version, log_a.len() as u64);
}

#[test]
fn events_of_one_command_share_a_correlation_id() {
    let mut handler = fresh_handler();
    assert!(raise(&mut handler, 1, 5).is_ok());
    assert!(raise(&mut handler, 1, 6).is_ok());
    let log = handler.event_store().get_events(1).unwrap();
    assert_eq!(log.len(), 2);
    // Each command execution draws its own correlation id.
    assert_ne!(log[0].metadata.correlation_id, log[1].metadata.correlation_id);
}

#[test]
fn handler_error_kinds_are_distinct() {
    let store: HandlerError<CounterError> =
        HandlerError::from_event_store_error(StoreError::Unavailable);
    let domain: HandlerError<CounterError> =
        HandlerError::from_command_error(CounterError::Overflow);
    assert_eq!(store, HandlerError::Store(StoreError::Unavailable));
    assert_eq!(domain, HandlerError::Domain(CounterError::Overflow));
    assert_ne!(
        HandlerError::<CounterError>::from_event_store_error(StoreError::Serialization),
        domain,
    );
}
