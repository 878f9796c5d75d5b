//! An event-sourcing persistence core: an entity's state is an append-only,
//! ordered sequence of domain events, reconstructed on demand by a pure fold
//! and extended under concurrent writers by an optimistic compare-and-append
//! guard. Around that sit a best-effort snapshot cache, a command handler
//! orchestrating load, fast-forward, decide, persist and snapshot, two
//! type-indexed routers for commands and queries, and an in-order event bus
//! feeding projections. Every component carries its contract; the laws of
//! the design — atomic appends, exactly one winner per version, replay
//! determinism, snapshot transparency, delivery ordering — are stated and
//! proved alongside the code.

pub mod aggregate;
pub mod command;
pub mod command_bus;
pub mod command_handler;
pub mod counter;
pub mod event;
pub mod event_bus;
pub mod event_handler;
pub mod event_metadata;
pub mod event_store;
pub mod projections;
pub mod query;
pub mod query_bus;
pub mod query_handler;
pub mod snapshot;

pub use aggregate::{fold_events, lemma_fold_append, lemma_fold_snoc, lemma_fold_version, lemma_replay_version, lemma_snapshot_transparent, Aggregate};
pub use command::Command;
pub use command_bus::{CommandBus, DispatchError, ErasedCommandHandler, InMemoryCommandBus, TypedCommandHandler};
pub use command_handler::{AggregateCommandHandler, CommandHandler, CommandHandlerError, HandlerError};
pub use event::Event;
pub use event_bus::{EventBus, InMemoryEventBus};
pub use event_handler::{EventHandler, ProjectionEventHandler};
pub use projections::Projection;
pub use query::Query;
pub use query_bus::{ErasedQueryHandler, InMemoryQueryBus, QueryBus, TypedQueryHandler};
pub use query_handler::QueryHandler;
pub use event_metadata::{EventEnvelope, EventMetadata};
pub use event_store::{EventStore, InMemoryEventStore, StoreError};
pub use snapshot::{InMemorySnapshotStore, Snapshot, SnapshotStore};
