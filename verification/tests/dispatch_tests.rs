use eventfold::command_bus::{
    CommandBus, DispatchError, ErasedCommandHandler, InMemoryCommandBus, TypedCommandHandler,
};
use eventfold::command_handler::{AggregateCommandHandler, CommandHandler};
use eventfold::counter::{
    CounterEvent, CounterReadModel, CounterState, CounterTotalQuery, RaiseCounter,
    COUNTER_TOTAL_QUERY_TAG, RAISE_COUNTER_TAG,
};
use eventfold::event_store::{EventStore, InMemoryEventStore};
use eventfold::projections::Projection;
use eventfold::query_bus::{ErasedQueryHandler, InMemoryQueryBus, QueryBus, TypedQueryHandler};
use eventfold::snapshot::InMemorySnapshotStore;

type CounterHandler = AggregateCommandHandler<
    RaiseCounter,
    InMemoryEventStore<CounterEvent>,
    InMemorySnapshotStore<CounterState>,
>;

fn fresh_handler() -> CounterHandler {
    AggregateCommandHandler::new(InMemoryEventStore::new(), InMemorySnapshotStore::new())
}

#[test]
fn dispatch_reaches_exactly_the_registered_handler() {
    let typed = TypedCommandHandler::new(RAISE_COUNTER_TAG, fresh_handler());
    let mut bus = InMemoryCommandBus::new();
    bus.register_handler(typed);

    let outcome = bus.send(RaiseCounter {
        aggregate_id: 7,
        amount: 3,
    });
    assert!(outcome.is_ok());

    let registered = bus.registered(RAISE_COUNTER_TAG).unwrap();
    let log = registered.handler().event_store().get_events(7).unwrap();
    assert_eq!(log.len(), 1);
    assert_eq!(log[0].event.amount, 3);
}

#[test]
fn dispatch_without_registration_fails() {
    let mut bus: InMemoryCommandBus<RaiseCounter, TypedCommandHandler<RaiseCounter, CounterHandler>> =
        InMemoryCommandBus::new();
    let outcome = bus.send(RaiseCounter {
        aggregate_id: 7,
        amount: 3,
    });
    assert_eq!(outcome, Err(DispatchError::NoHandlerRegistered));
}

#[test]
fn handler_failure_is_surfaced_as_dispatch_error() {
    let mut handler = fresh_handler();
    // Drive the counter to its ceiling so the next raise is refused.
    handler
        .handle(RaiseCounter {
            aggregate_id: 7,
            amount: u64::MAX,
        })
        .unwrap();

    let typed = TypedCommandHandler::new(RAISE_COUNTER_TAG, handler);
    let mut bus = InMemoryCommandBus::new();
    bus.register_handler(typed);
    let outcome = bus.send(RaiseCounter {
        aggregate_id: 7,
        amount: 1,
    });
    assert_eq!(outcome, Err(DispatchError::HandlerFailed));
}

#[test]
fn mismatched_tag_is_reported_as_type_mismatch() {
    let mut typed = TypedCommandHandler::new(RAISE_COUNTER_TAG + 1, fresh_handler());
    let outcome = typed.handle(RaiseCounter {
        aggregate_id: 7,
        amount: 3,
    });
    assert_eq!(outcome, Err(DispatchError::TypeMismatch));
}

#[test]
fn reregistration_overwrites_previous_binding() {
    let mut bus = InMemoryCommandBus::new();
    bus.register_handler(TypedCommandHandler::new(RAISE_COUNTER_TAG, fresh_handler()));
    bus.register_handler(TypedCommandHandler::new(RAISE_COUNTER_TAG, fresh_handler()));

    assert!(bus
        .send(RaiseCounter {
            aggregate_id: 1,
            amount: 2,
        })
        .is_ok());
    let registered = bus.registered(RAISE_COUNTER_TAG).unwrap();
    let log = registered.handler().event_store().get_events(1).unwrap();
    assert_eq!(log.len(), 1);
}

#[test]
fn query_dispatch_returns_the_handlers_answer() {
    let mut model = CounterReadModel::new();
    model
        .apply(&CounterEvent {
            aggregate_id: 1,
            amount: 5,
        })
        .unwrap();

    let mut bus = InMemoryQueryBus::new();
    bus.register_handler(TypedQueryHandler::new(COUNTER_TOTAL_QUERY_TAG, model));

    assert_eq!(bus.send(CounterTotalQuery { aggregate_id: 1 }), Ok(5));
    assert_eq!(bus.send(CounterTotalQuery { aggregate_id: 2 }), Ok(0));
}

#[test]
fn query_dispatch_without_registration_fails() {
    let bus: InMemoryQueryBus<
        CounterTotalQuery,
        TypedQueryHandler<CounterTotalQuery, CounterReadModel>,
    > = InMemoryQueryBus::new();
    assert_eq!(
        bus.send(CounterTotalQuery { aggregate_id: 1 }),
        Err(DispatchError::NoHandlerRegistered),
    );
}

#[test]
fn query_with_mismatched_tag_is_type_mismatch() {
    let typed = TypedQueryHandler::new(COUNTER_TOTAL_QUERY_TAG + 9, CounterReadModel::new());
    assert_eq!(
        typed.handle(CounterTotalQuery { aggregate_id: 1 }),
        Err(DispatchError::TypeMismatch),
    );
}
