use eventfold::aggregate::Aggregate;
use eventfold::command_handler::snapshot_due;
use eventfold::counter::{CounterEvent, CounterState};
use eventfold::event::Event;
use eventfold::event_metadata::EventMetadata;

#[test]
fn metadata_carries_correlation_and_causation_unchanged() {
    let metadata = EventMetadata::new(77, Some(99));
    assert_eq!(metadata.correlation_id, 77);
    assert_eq!(metadata.causation_id, Some(99));
    let bare = EventMetadata::new(11, None);
    assert_eq!(bare.correlation_id, 11);
    assert_eq!(bare.causation_id, None);
}

#[test]
fn fresh_event_ids_differ() {
    let first = EventMetadata::new(1, None);
    let second = EventMetadata::new(1, None);
    assert_ne!(first.event_id, second.event_id);
}

#[test]
fn snapshot_cadence_rule() {
    assert!(snapshot_due(10, 10));
    assert!(snapshot_due(20, 10));
    assert!(!snapshot_due(9, 10));
    assert!(!snapshot_due(11, 10));
    assert!(snapshot_due(0, 10));
}

#[test]
fn replay_version_equals_event_count() {
    let events: Vec<CounterEvent> = (1..=5u64)
        .map(|amount| CounterEvent {
            aggregate_id: 1,
            amount,
        })
        .collect();
    let mut state = CounterState::initial();
    for event in &events {
        state.apply(event);
    }
    assert_eq!(state.version, 5);
    assert_eq!(state.total, 15);
}

#[test]
fn staged_replay_equals_full_replay() {
    let events: Vec<CounterEvent> = (1..=6u64)
        .map(|amount| CounterEvent {
            aggregate_id: 1,
            amount,
        })
        .collect();

    let mut full = CounterState::initial();
    for event in &events {
        full.apply(event);
    }

    // Fold the first three, pretend that state was a snapshot, fold the rest.
    let mut staged = CounterState::initial();
    for event in &events[..3] {
        staged.apply(event);
    }
    let snapshot = staged;
    let mut resumed = snapshot;
    for event in &events[3..] {
        resumed.apply(event);
    }

    assert_eq!(resumed, full);
    assert_eq!(resumed.version, events.len() as u64);
}

#[test]
fn saturating_counter_never_wraps() {
    let mut state = CounterState::initial();
    state.apply(&CounterEvent {
        aggregate_id: 1,
        amount: u64::MAX,
    });
    state.apply(&CounterEvent {
        aggregate_id: 1,
        amount: 5,
    });
    assert_eq!(state.total, u64::MAX);
    assert_eq!(state.version, 2);
}

#[test]
fn increment_version_bumps_only_the_counter() {
    let mut state = CounterState {
        total: 9,
        version: 4,
    };
    state.increment_version();
    assert_eq!(state.version, 5);
    assert_eq!(state.total, 9);
}

#[test]
fn counter_event_type_tag() {
    let event = CounterEvent {
        aggregate_id: 1,
        amount: 2,
    };
    assert_eq!(event.event_type(), "counter_raised");
    assert_eq!(event.aggregate_id(), 1);
}
