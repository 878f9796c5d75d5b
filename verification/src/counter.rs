use vstd::prelude::*;

use std::collections::HashMap;

use crate::aggregate::Aggregate;
use crate::command::Command;
use crate::event::Event;
use crate::projections::Projection;
use crate::query::Query;
use crate::query_handler::QueryHandler;

verus! {

broadcast use vstd::std_specs::hash::group_hash_axioms;

/// Type tag of `RaiseCounter` in the command router.
pub const RAISE_COUNTER_TAG: u64 = 1;

/// Type tag of `CounterTotalQuery` in the query router.
pub const COUNTER_TOTAL_QUERY_TAG: u64 = 2;

/// The counter was raised by `amount`. The library's reference domain: a
/// saturating counter per identity.
#[derive(Clone, Copy, PartialEq, Eq, Debug)]
pub struct CounterEvent {
    pub aggregate_id: u64,
    pub amount: u64,
}

impl Event for CounterEvent {
    fn event_type(&self) -> &'static str {
        "counter_raised"
    }

    fn aggregate_id(&self) -> u64 {
        self.aggregate_id
    }

    fn dup(&self) -> (copy: Self) {
        CounterEvent { aggregate_id: self.aggregate_id, amount: self.amount }
    }
}

/// The folded state of one counter: its running total and its version.
#[derive(Clone, Copy, PartialEq, Eq, Debug)]
pub struct CounterState {
    pub total: u64,
    pub version: u64,
}

impl Aggregate for CounterState {
    type Event = CounterEvent;

    open spec fn spec_apply(self, event: CounterEvent) -> Self {
        CounterState {
            total: if self.total + event.amount > u64::MAX {
                u64::MAX
            } else {
                (self.total + event.amount) as u64
            },
            version: (self.version + 1) as u64,
        }
    }

    open spec fn spec_version(&self) -> int {
        self.version as int
    }

    open spec fn spec_initial() -> Self {
        CounterState { total: 0, version: 0 }
    }

    proof fn lemma_apply_bumps_version(self, event: CounterEvent) {
    }

    proof fn lemma_initial_version() {
    }

    fn initial() -> (state: Self) {
        CounterState { total: 0, version: 0 }
    }

    fn apply(&mut self, event: &CounterEvent) {
        self.total = self.total.saturating_add(event.amount);
        self.version = self.version + 1;
    }

    fn version(&self) -> (v: u64) {
        self.version
    }

    fn increment_version(&mut self) {
        self.version = self.version + 1;
    }

    fn dup(&self) -> (copy: Self) {
        CounterState { total: self.total, version: self.version }
    }
}

/// Why a counter command was refused.
#[derive(Clone, Copy, PartialEq, Eq, Debug)]
pub enum CounterError {
    /// Raising by this amount would push the total past its ceiling.
    Overflow,
    /// A bounded read model has no room left.
    LogFull,
}

/// Raise one counter by an amount.
///
/// The decision: raising by zero is a no-op yielding no events; a raise that
/// would push the total past its ceiling is refused with `Overflow`; any
/// other raise yields exactly one `CounterEvent`.
#[derive(Clone, Copy, PartialEq, Eq, Debug)]
pub struct RaiseCounter {
    pub aggregate_id: u64,
    pub amount: u64,
}

impl Command for RaiseCounter {
    type Aggregate = CounterState;

    type Error = CounterError;

    open spec fn decide(&self, state: CounterState) -> Result<Seq<CounterEvent>, CounterError> {
        if self.amount == 0 {
            Ok(Seq::empty())
        } else if state.total + self.amount > u64::MAX {
            Err(CounterError::Overflow)
        } else {
            Ok(seq![CounterEvent { aggregate_id: self.aggregate_id, amount: self.amount }])
        }
    }

    open spec fn spec_type_tag(&self) -> u64 {
        RAISE_COUNTER_TAG
    }

    open spec fn spec_aggregate_id(&self) -> u64 {
        self.aggregate_id
    }

    fn type_tag(&self) -> (tag: u64) {
        RAISE_COUNTER_TAG
    }

    fn aggregate_id(&self) -> (id: u64) {
        self.aggregate_id
    }

    fn execute(&self, aggregate: &CounterState) -> (result: Result<Vec<CounterEvent>, CounterError>) {
        if self.amount == 0 {
            Ok(Vec::new())
        } else if self.amount > u64::MAX - aggregate.total {
            Err(CounterError::Overflow)
        } else {
            let mut events: Vec<CounterEvent> = Vec::new();
            events.push(CounterEvent { aggregate_id: self.aggregate_id, amount: self.amount });
            proof {
                assert(events@ =~= seq![
                    CounterEvent { aggregate_id: self.aggregate_id, amount: self.amount },
                ]);
            }
            Ok(events)
        }
    }
}

/// The mathematical content of `CounterReadModel`: the totals per identity,
/// the events folded in so far in arrival order, and the cap.
pub struct CounterReadModelContent {
    pub totals: Map<u64, u64>,
    pub events_seen: Seq<CounterEvent>,
    pub capacity: int,
}

/// A read model of counter totals, folded from published counter events. It
/// can be capped: folding an event past the cap is refused, which also makes
/// it a handy subscriber for observing how a failed delivery stops a
/// publish.
pub struct CounterReadModel {
    totals: HashMap<u64, u64>,
    events_seen: Vec<CounterEvent>,
    capacity: usize,
}

impl CounterReadModel {
    /// The running total per identity.
    pub closed spec fn spec_totals(&self) -> Map<u64, u64> {
        self.totals@
    }

    /// Every event folded in, in arrival order.
    pub closed spec fn spec_events_seen(&self) -> Seq<CounterEvent> {
        self.events_seen@
    }

    /// How many events it will fold before refusing.
    pub closed spec fn spec_capacity(&self) -> int {
        self.capacity as int
    }

    /// An empty read model folding at most `capacity` events.
    pub fn with_capacity(capacity: usize) -> (model: Self)
        ensures
            model.spec_totals() == Map::<u64, u64>::empty(),
            model.spec_events_seen() == Seq::<CounterEvent>::empty(),
            model.spec_capacity() == capacity,
    {
        CounterReadModel { totals: HashMap::new(), events_seen: Vec::new(), capacity }
    }

    /// An empty read model that never refuses for room.
    pub fn new() -> (model: Self)
        ensures
            model.spec_totals() == Map::<u64, u64>::empty(),
            model.spec_events_seen() == Seq::<CounterEvent>::empty(),
            model.spec_capacity() == usize::MAX,
    {
        CounterReadModel {
            totals: HashMap::new(),
            events_seen: Vec::new(),
            capacity: usize::MAX,
        }
    }

    /// The running total of one identity; zero when none was folded yet.
    pub fn total_of(&self, aggregate_id: u64) -> (total: u64)
        ensures
            total == if self.spec_totals().contains_key(aggregate_id) {
                self.spec_totals()[aggregate_id]
            } else {
                0u64
            },
    {
        match self.totals.get(&aggregate_id) {
            Some(total) => *total,
            None => 0,
        }
    }

    /// How many events were folded in.
    pub fn events_seen_count(&self) -> (count: usize)
        ensures
            count == self.spec_events_seen().len(),
    {
        self.events_seen.len()
    }

    /// The event folded in at a position.
    pub fn event_seen(&self, index: usize) -> (event: CounterEvent)
        requires
            index < self.spec_events_seen().len(),
        ensures
            event == self.spec_events_seen()[index as int],
    {
        let event = &self.events_seen[index];
        event.dup()
    }
}

impl Projection for CounterReadModel {
    type Event = CounterEvent;

    type Error = CounterError;

    type Model = CounterReadModelContent;

    open spec fn model(&self) -> CounterReadModelContent {
        CounterReadModelContent {
            totals: self.spec_totals(),
            events_seen: self.spec_events_seen(),
            capacity: self.spec_capacity(),
        }
    }

    open spec fn spec_apply(model: CounterReadModelContent, event: &CounterEvent) -> Result<
        CounterReadModelContent,
        CounterError,
    > {
        if model.events_seen.len() >= model.capacity {
            Err(CounterError::LogFull)
        } else {
            let prior = if model.totals.contains_key(event.aggregate_id) {
                model.totals[event.aggregate_id]
            } else {
                0u64
            };
            let raised = if prior + event.amount > u64::MAX {
                u64::MAX
            } else {
                (prior + event.amount) as u64
            };
            Ok(
                CounterReadModelContent {
                    totals: model.totals.insert(event.aggregate_id, raised),
                    events_seen: model.events_seen.push(*event),
                    capacity: model.capacity,
                },
            )
        }
    }

    fn apply(&mut self, event: &CounterEvent) -> (result: Result<(), CounterError>) {
        if self.events_seen.len() >= self.capacity {
            return Err(CounterError::LogFull);
        }
        let prior = match self.totals.get(&event.aggregate_id) {
            Some(total) => *total,
            None => 0,
        };
        self.totals.insert(event.aggregate_id, prior.saturating_add(event.amount));
        self.events_seen.push(event.dup());
        Ok(())
    }
}

/// Ask for the running total of one counter.
#[derive(Clone, Copy, PartialEq, Eq, Debug)]
pub struct CounterTotalQuery {
    pub aggregate_id: u64,
}

impl Query for CounterTotalQuery {
    type Output = u64;

    open spec fn spec_type_tag(&self) -> u64 {
        COUNTER_TOTAL_QUERY_TAG
    }

    fn type_tag(&self) -> (tag: u64) {
        COUNTER_TOTAL_QUERY_TAG
    }
}

impl QueryHandler<CounterTotalQuery> for CounterReadModel {
    type Error = CounterError;

    open spec fn spec_answer(&self, query: CounterTotalQuery) -> Result<u64, CounterError> {
        if self.spec_totals().contains_key(query.aggregate_id) {
            Ok(self.spec_totals()[query.aggregate_id])
        } else {
            Ok(0u64)
        }
    }

    fn handle(&self, query: CounterTotalQuery) -> (result: Result<u64, CounterError>) {
        Ok(self.total_of(query.aggregate_id))
    }
}

} // verus!
