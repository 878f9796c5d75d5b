use vstd::prelude::*;

use crate::aggregate::{fold_events, lemma_fold_snoc, Aggregate};
use crate::command::Command;
use crate::event::Event;
use crate::event_metadata::{envelope_events, random_id, EventEnvelope, EventMetadata};
use crate::event_store::{log_suffix, EventStore, StoreError};
use crate::snapshot::SnapshotStore;

verus! {

/// An error type a command handler reports, able to carry both kinds of
/// failure: the store broke, or the business rule refused the command.
/// Keeping the two apart lets a caller tell infrastructure failure from
/// domain rejection.
pub trait CommandHandlerError<D>: Sized {
    /// The value wrapping a store failure.
    spec fn spec_from_event_store_error(error: StoreError) -> Self;

    /// The value wrapping a domain rejection.
    spec fn spec_from_command_error(error: D) -> Self;

    /// Wrap a store failure.
    fn from_event_store_error(error: StoreError) -> (wrapped: Self)
        ensures
            wrapped == Self::spec_from_event_store_error(error),
    ;

    /// Wrap a domain rejection.
    fn from_command_error(error: D) -> (wrapped: Self)
        ensures
            wrapped == Self::spec_from_command_error(error),
    ;
}

/// The ready-made handler error: a store failure or a domain rejection.
#[derive(PartialEq, Eq, Debug)]
pub enum HandlerError<D> {
    /// The event store refused or failed the read or append.
    Store(StoreError),
    /// The business rule rejected the command.
    Domain(D),
}

impl<D> CommandHandlerError<D> for HandlerError<D> {
    open spec fn spec_from_event_store_error(error: StoreError) -> Self {
        HandlerError::Store(error)
    }

    open spec fn spec_from_command_error(error: D) -> Self {
        HandlerError::Domain(error)
    }

    fn from_event_store_error(error: StoreError) -> (wrapped: Self) {
        HandlerError::Store(error)
    }

    fn from_command_error(error: D) -> (wrapped: Self) {
        HandlerError::Domain(error)
    }
}

/// Every snapshot the store holds agrees with the event log: it is the fold
/// of the first `version` events of its identity's history, captured at a
/// version no later than the log's end. The command handler maintains this,
/// and it is what makes a snapshot a pure optimization.
pub open spec fn snapshots_consistent<A, ES, SS>(event_store: &ES, snapshot_store: &SS) -> bool
    where A: Aggregate, ES: EventStore<A::Event>, SS: SnapshotStore<A>
{
    forall|id: u64| #[trigger] snapshot_store.stored(id) matches Some(state) ==> {
        &&& 0 <= Aggregate::spec_version(&state) <= event_store.log(id).len()
        &&& state == fold_events(
            A::spec_initial(),
            envelope_events(event_store.log(id)).take(Aggregate::spec_version(&state)),
        )
    }
}

/// The snapshot cadence rule: a snapshot is (re)written exactly when the
/// post-append version is a multiple of the interval.
pub fn snapshot_due(version: u64, interval: u64) -> (due: bool)
    requires
        interval > 0,
    ensures
        due <==> version as int % interval as int == 0,
{
    version % interval == 0
}

/// A handler capable of executing one type of command.
///
/// `observed` is the handler's call history: every command it was given, in
/// the order received, whatever each one's outcome. A dispatcher's contract
/// speaks of it to show a command reached exactly the addressed handler.
pub trait CommandHandler<C: Command>: Sized {
    type Error;

    /// Well-formedness the handler needs on entry and maintains.
    spec fn inv(&self) -> bool;

    /// Every command this handler has been given, in order.
    spec fn observed(&self) -> Seq<C>;

    /// Execute one command to completion.
    fn handle(&mut self, command: C) -> (result: Result<(), Self::Error>)
        requires
            old(self).inv(),
        ensures
            final(self).inv(),
            final(self).observed() == old(self).observed().push(command),
    ;
}

/// The event-sourced command orchestrator.
///
/// One invocation runs load, fast-forward, decide, persist, snapshot: fetch
/// the snapshot (absent or unreadable means the zero state), fold the events
/// past its version, let the command decide, append the new events under the
/// optimistic version guard, and rewrite the snapshot when the new version
/// crosses the interval. It owns no state across invocations beyond the two
/// stores it orchestrates.
pub struct AggregateCommandHandler<C: Command, ES, SS> where
    ES: EventStore<<C::Aggregate as Aggregate>::Event>,
    SS: SnapshotStore<C::Aggregate>,
{
    /// The durable event log.
    pub event_store: ES,
    /// The best-effort snapshot cache.
    pub snapshot_store: SS,
    /// A snapshot is rewritten when the post-append version is a multiple of
    /// this.
    pub snapshot_interval: u64,
    /// Ghost call history: every command handled, in order.
    pub received: Ghost<Seq<C>>,
}

impl<C: Command, ES, SS> AggregateCommandHandler<C, ES, SS> where
    ES: EventStore<<C::Aggregate as Aggregate>::Event>,
    SS: SnapshotStore<C::Aggregate>,
{
    /// Well-formedness: a positive interval, and every held snapshot agreeing
    /// with the log.
    pub open spec fn handler_inv(&self) -> bool {
        &&& self.snapshot_interval > 0
        &&& snapshots_consistent::<C::Aggregate, ES, SS>(&self.event_store, &self.snapshot_store)
    }

    /// A handler over the two given stores, snapshotting every 10 versions.
    pub fn new(event_store: ES, snapshot_store: SS) -> (handler: Self)
        requires
            snapshots_consistent::<C::Aggregate, ES, SS>(&event_store, &snapshot_store),
        ensures
            handler.handler_inv(),
            handler.event_store == event_store,
            handler.snapshot_store == snapshot_store,
            handler.snapshot_interval == 10,
            handler.observed() == Seq::<C>::empty(),
    {
        AggregateCommandHandler {
            event_store,
            snapshot_store,
            snapshot_interval: 10,
            received: Ghost(Seq::empty()),
        }
    }

    /// A handler with a configured snapshot interval.
    pub fn with_interval(event_store: ES, snapshot_store: SS, snapshot_interval: u64) -> (handler:
        Self)
        requires
            snapshot_interval > 0,
            snapshots_consistent::<C::Aggregate, ES, SS>(&event_store, &snapshot_store),
        ensures
            handler.handler_inv(),
            handler.event_store == event_store,
            handler.snapshot_store == snapshot_store,
            handler.snapshot_interval == snapshot_interval,
            handler.observed() == Seq::<C>::empty(),
    {
        AggregateCommandHandler {
            event_store,
            snapshot_store,
            snapshot_interval,
            received: Ghost(Seq::empty()),
        }
    }

    /// The durable event log.
    pub fn event_store(&self) -> (store: &ES)
        ensures
            store == &self.event_store,
    {
        &self.event_store
    }

    /// The best-effort snapshot cache.
    pub fn snapshot_store(&self) -> (store: &SS)
        ensures
            store == &self.snapshot_store,
    {
        &self.snapshot_store
    }
}

impl<C: Command, ES, SS> CommandHandler<C> for AggregateCommandHandler<C, ES, SS> where
    ES: EventStore<<C::Aggregate as Aggregate>::Event>,
    SS: SnapshotStore<C::Aggregate>,
{
    type Error = HandlerError<C::Error>;

    open spec fn inv(&self) -> bool {
        self.handler_inv()
    }

    open spec fn observed(&self) -> Seq<C> {
        self.received@
    }

    /// Execute one command: load, fast-forward, decide, persist, snapshot.
    ///
    /// The outcome is decided by the fold of the identity's full history, so
    /// it does not depend on what the snapshot store held — snapshot
    /// transparency. A decision yielding no events is a success that touches
    /// nothing. A decision yielding events appends exactly those events, in
    /// order, wrapped in fresh envelopes sharing one correlation id, and
    /// rewrites the snapshot (best-effort) exactly when the new version is a
    /// multiple of the interval. A domain rejection is surfaced distinctly
    /// and touches nothing. Other identities are never touched. A version
    /// conflict from the store is surfaced unchanged, never retried here:
    /// reload, re-decide and re-attempt are the caller's policy.
    fn handle(&mut self, command: C) -> (result: Result<(), HandlerError<C::Error>>)
        ensures
            final(self).snapshot_interval == old(self).snapshot_interval,
            forall|other: u64| other != command.spec_aggregate_id() ==> {
                &&& #[trigger] final(self).event_store.log(other) == old(self).event_store.log(
                    other,
                )
                &&& final(self).snapshot_store.stored(other) == old(self).snapshot_store.stored(
                    other,
                )
            },
            ({
                let id = command.spec_aggregate_id();
                let pre_log = old(self).event_store.log(id);
                let history = envelope_events(pre_log);
                let folded = fold_events(<C::Aggregate as Aggregate>::spec_initial(), history);
                match command.decide(folded) {
                    Result::Err(error) => {
                        &&& result matches Err(wrapped) && wrapped == HandlerError::<
                            C::Error,
                        >::Domain(error)
                        &&& final(self).event_store.log(id) == pre_log
                        &&& final(self).snapshot_store.stored(id) == old(
                            self,
                        ).snapshot_store.stored(id)
                    },
                    Result::Ok(new_events) => {
                        &&& result matches Ok(())
                        &&& if new_events.len() == 0 {
                            // a zero-event decision: no append, no snapshot check
                            &&& final(self).event_store.log(id) == pre_log
                            &&& final(self).snapshot_store.stored(id) == old(
                                self,
                            ).snapshot_store.stored(id)
                        } else {
                            let post_log = final(self).event_store.log(id);
                            let full_fold = fold_events(
                                <C::Aggregate as Aggregate>::spec_initial(),
                                history + new_events,
                            );
                            &&& post_log.len() == pre_log.len() + new_events.len()
                            &&& post_log.take(pre_log.len() as int) == pre_log
                            &&& envelope_events(post_log) == history + new_events
                            &&& forall|k: int| pre_log.len() <= k < post_log.len() ==> {
                                &&& (#[trigger] post_log[k]).metadata.causation_id is None
                                &&& post_log[k].metadata.correlation_id == post_log[pre_log.len() as int].metadata.correlation_id
                            }
                            &&& if post_log.len() as int % old(self).snapshot_interval as int
                                == 0 {
                                final(self).snapshot_store.stored(id) == old(
                                    self,
                                ).snapshot_store.stored(id) || final(self).snapshot_store.stored(
                                    id,
                                ) == Some(full_fold)
                            } else {
                                final(self).snapshot_store.stored(id) == old(
                                    self,
                                ).snapshot_store.stored(id)
                            }
                        }
                    },
                }
            }),
    {
        let ghost id_spec = command.spec_aggregate_id();
        let ghost pre_log = old(self).event_store.log(id_spec);
        let ghost history = envelope_events(pre_log);

        let id = command.aggregate_id();

        // Load: a missing or unreadable snapshot means the zero state.
        let found = match self.snapshot_store.get_snapshot(id) {
            Ok(found) => found,
            Err(_) => None,
        };
        let mut aggregate = match found {
            Some(state) => state,
            None => <C::Aggregate as Aggregate>::initial(),
        };

        proof {
            <C::Aggregate as Aggregate>::lemma_initial_version();
            if found is Some {
                assert(self.snapshot_store.stored(id) matches Some(state)
                    && state == found->0);
            } else {
                assert(history.take(0) =~= Seq::<<C::Aggregate as Aggregate>::Event>::empty());
            }
            self.event_store.lemma_log_fits(id);
        }

        let from_version = aggregate.version();

        // Fast-forward: fold in every event past the snapshot's version.
        let tail = match self.event_store.get_events_from_version(id, from_version) {
            Ok(events) => events,
            Err(error) => {
                proof {
                    self.received@ = self.received@.push(command);
                }
                return Err(HandlerError::from_event_store_error(error));
            },
        };

        let ghost v0 = from_version as int;
        proof {
            assert(aggregate == fold_events(
                <C::Aggregate as Aggregate>::spec_initial(),
                history.take(v0),
            ));
            assert(0 <= v0 <= pre_log.len());
            assert(tail@ == log_suffix(pre_log, from_version));
            if v0 < pre_log.len() {
                assert(tail@.len() == pre_log.len() - v0);
            } else {
                assert(tail@.len() == 0);
            }
        }

        let mut i: usize = 0;
        while i < tail.len()
            invariant
                old(self).handler_inv(),
                *self == *old(self),
                pre_log == self.event_store.log(id_spec),
                history == envelope_events(pre_log),
                pre_log.len() <= usize::MAX,
                id == id_spec,
                0 <= v0,
                v0 + tail@.len() == pre_log.len(),
                tail@ == log_suffix(pre_log, from_version),
                v0 == from_version,
                i <= tail@.len(),
                Aggregate::spec_version(&aggregate) == v0 + i,
                aggregate == fold_events(
                    <C::Aggregate as Aggregate>::spec_initial(),
                    history.take(v0 + i),
                ),
            decreases tail@.len() - i,
        {
            proof {
                assert(v0 + i < pre_log.len());
                assert(tail@[i as int] == pre_log[v0 + i]);
                assert(history[v0 + i] == pre_log[v0 + i].event);
                assert(history.take(v0 + i + 1) =~= history.take(v0 + i).push(history[v0 + i]));
                lemma_fold_snoc(
                    <C::Aggregate as Aggregate>::spec_initial(),
                    history.take(v0 + i),
                    history[v0 + i],
                );
                aggregate.lemma_apply_bumps_version(history[v0 + i]);
            }
            aggregate.apply(&tail[i].event);
            i += 1;
        }

        proof {
            assert(v0 + tail@.len() == pre_log.len());
            assert(history.take(pre_log.len() as int) =~= history);
        }
        let ghost folded = fold_events(<C::Aggregate as Aggregate>::spec_initial(), history);
        proof {
            assert(aggregate == folded);
        }

        // Decide: pure business logic against the fully folded state.
        let new_events = match command.execute(&aggregate) {
            Ok(events) => events,
            Err(error) => {
                proof {
                    self.received@ = self.received@.push(command);
                }
                return Err(HandlerError::from_command_error(error));
            },
        };

        // A zero-event decision is a valid terminal outcome: nothing to
        // append, no snapshot check, success.
        if new_events.len() == 0 {
            proof {
                self.received@ = self.received@.push(command);
            }
            return Ok(());
        }

        // Persist: wrap each new event in a fresh envelope, all sharing one
        // correlation id, and append under the optimistic version guard.
        let correlation_id = random_id();
        let expected_version = aggregate.version();
        let mut envelopes: Vec<EventEnvelope<<C::Aggregate as Aggregate>::Event>> = Vec::new();
        let mut j: usize = 0;
        while j < new_events.len()
            invariant
                j <= new_events@.len(),
                envelopes@.len() == j,
                forall|k: int| 0 <= k < j ==> {
                    &&& (#[trigger] envelopes@[k]).event == new_events@[k]
                    &&& envelopes@[k].metadata.correlation_id == correlation_id
                    &&& envelopes@[k].metadata.causation_id is None
                },
            decreases new_events@.len() - j,
        {
            let event_copy = new_events[j].dup();
            let metadata = EventMetadata::new(correlation_id, None);
            envelopes.push(EventEnvelope { event: event_copy, metadata });
            j += 1;
        }

        let ghost batch = envelopes@;
        proof {
            assert(envelope_events(batch) =~= new_events@);
        }

        match self.event_store.save_events(id, envelopes, expected_version) {
            Ok(()) => {},
            Err(error) => {
                proof {
                    self.received@ = self.received@.push(command);
                }
                return Err(HandlerError::from_event_store_error(error));
            },
        }

        let ghost post_log = self.event_store.log(id_spec);
        proof {
            assert(post_log == pre_log + batch);
            assert(post_log.take(pre_log.len() as int) =~= pre_log);
            assert(envelope_events(post_log) =~= history + new_events@);
            self.event_store.lemma_log_fits(id);
        }

        // Fold the freshly appended events in as well: the snapshot, if one
        // is due, captures the post-append state.
        let ghost full_history = history + new_events@;
        proof {
            assert(full_history.take(pre_log.len() as int) =~= history);
        }
        let mut k: usize = 0;
        while k < new_events.len()
            invariant
                self.event_store.log(id_spec) == post_log,
                post_log.len() == pre_log.len() + new_events@.len(),
                pre_log.len() + new_events@.len() <= usize::MAX,
                full_history == envelope_events(post_log),
                full_history.len() == post_log.len(),
                full_history.take(pre_log.len() as int) == history,
                forall|m: int| 0 <= m < new_events@.len() ==>
                    full_history[pre_log.len() + m] == new_events@[m],
                k <= new_events@.len(),
                Aggregate::spec_version(&aggregate) == pre_log.len() + k,
                aggregate == fold_events(
                    <C::Aggregate as Aggregate>::spec_initial(),
                    full_history.take(pre_log.len() + k),
                ),
            decreases new_events@.len() - k,
        {
            proof {
                let pos = pre_log.len() + k;
                assert(full_history[pos as int] == new_events@[k as int]);
                assert(full_history.take(pos + 1) =~= full_history.take(pos as int).push(
                    full_history[pos as int],
                ));
                lemma_fold_snoc(
                    <C::Aggregate as Aggregate>::spec_initial(),
                    full_history.take(pos as int),
                    full_history[pos as int],
                );
                aggregate.lemma_apply_bumps_version(full_history[pos as int]);
            }
            aggregate.apply(&new_events[k]);
            k += 1;
        }

        proof {
            assert(full_history.take(post_log.len() as int) =~= full_history);
        }
        let ghost full_fold = fold_events(
            <C::Aggregate as Aggregate>::spec_initial(),
            full_history,
        );
        proof {
            assert(aggregate == full_fold);
            assert(Aggregate::spec_version(&aggregate) == post_log.len());
        }

        // Snapshot trigger: best-effort, a failure here is swallowed.
        let new_version = aggregate.version();
        if snapshot_due(new_version, self.snapshot_interval) {
            match self.snapshot_store.save_snapshot(id, aggregate) {
                Ok(()) => {},
                Err(_) => {},
            }
        }

        proof {
            assert forall|any: u64| #[trigger] self.snapshot_store.stored(any) is Some implies {
                let state = self.snapshot_store.stored(any)->0;
                &&& 0 <= Aggregate::spec_version(&state) <= self.event_store.log(any).len()
                &&& state == fold_events(
                    <C::Aggregate as Aggregate>::spec_initial(),
                    envelope_events(self.event_store.log(any)).take(Aggregate::spec_version(
                        &state,
                    )),
                )
            } by {
                let state = self.snapshot_store.stored(any)->0;
                if any != id_spec {
                    assert(self.snapshot_store.stored(any) == old(self).snapshot_store.stored(
                        any,
                    ));
                    assert(self.event_store.log(any) == old(self).event_store.log(any));
                } else {
                    if self.snapshot_store.stored(any) == old(self).snapshot_store.stored(any) {
                        assert(old(self).snapshot_store.stored(any) matches Some(prior)
                            && prior == state);
                        assert(0 <= Aggregate::spec_version(&state) <= pre_log.len());
                        assert(envelope_events(post_log).take(Aggregate::spec_version(&state))
                            =~= history.take(Aggregate::spec_version(&state)));
                    } else {
                        assert(state == full_fold);
                        assert(full_history.take(post_log.len() as int) =~= full_history);
                    }
                }
            }
            self.received@ = self.received@.push(command);
        }
        Ok(())
    }
}

} // verus!
