use eventfold::counter::{CounterError, CounterEvent, CounterReadModel};
use eventfold::event_bus::{EventBus, InMemoryEventBus};
use eventfold::event_handler::{EventHandler, ProjectionEventHandler};
use eventfold::event_metadata::{EventEnvelope, EventMetadata};

fn raise(aggregate_id: u64, amount: u64) -> EventEnvelope<CounterEvent> {
    EventEnvelope {
        event: CounterEvent {
            aggregate_id,
            amount,
        },
        metadata: EventMetadata::new(3, None),
    }
}

type Subscriber = ProjectionEventHandler<CounterReadModel>;

#[test]
fn publish_delivers_every_envelope_to_every_subscriber_in_order() {
    let mut bus: InMemoryEventBus<CounterEvent, Subscriber> = InMemoryEventBus::new();
    bus.subscribe(ProjectionEventHandler::new(CounterReadModel::new()));
    bus.subscribe(ProjectionEventHandler::new(CounterReadModel::new()));

    let envelopes = vec![raise(1, 10), raise(1, 20)];
    assert!(bus.publish(&envelopes).is_ok());

    assert_eq!(bus.subscriber_count(), 2);
    for position in 0..2 {
        let seen = &bus.subscriber(position).projection;
        assert_eq!(seen.events_seen_count(), 2);
        assert_eq!(seen.event_seen(0).amount, 10);
        assert_eq!(seen.event_seen(1).amount, 20);
        assert_eq!(seen.total_of(1), 30);
    }
}

#[test]
fn failed_subscriber_stops_the_fanout_at_that_point() {
    let mut bus: InMemoryEventBus<CounterEvent, Subscriber> = InMemoryEventBus::new();
    bus.subscribe(ProjectionEventHandler::new(CounterReadModel::new()));
    // The second subscriber folds only one event, then refuses.
    bus.subscribe(ProjectionEventHandler::new(CounterReadModel::with_capacity(1)));

    let envelopes = vec![raise(1, 10), raise(1, 20)];
    let outcome = bus.publish(&envelopes);
    assert_eq!(outcome, Err(CounterError::LogFull));

    // Delivery order was e1 to both, then e2 to the first, then the second
    // refused e2: the first subscriber holds both events, the second one.
    let first = &bus.subscriber(0).projection;
    assert_eq!(first.events_seen_count(), 2);
    assert_eq!(first.event_seen(1).amount, 20);

    let second = &bus.subscriber(1).projection;
    assert_eq!(second.events_seen_count(), 1);
    assert_eq!(second.event_seen(0).amount, 10);
}

#[test]
fn publishing_nothing_succeeds() {
    let mut bus: InMemoryEventBus<CounterEvent, Subscriber> = InMemoryEventBus::new();
    bus.subscribe(ProjectionEventHandler::new(CounterReadModel::new()));
    assert!(bus.publish(&Vec::new()).is_ok());
    assert_eq!(bus.subscriber(0).projection.events_seen_count(), 0);
}

#[test]
fn projection_handler_forwards_the_projections_error() {
    let mut handler = ProjectionEventHandler::new(CounterReadModel::with_capacity(0));
    let outcome = handler.handle(&raise(1, 10));
    assert_eq!(outcome, Err(CounterError::LogFull));
}
