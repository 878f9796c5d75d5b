use vstd::prelude::*;

use std::collections::HashMap;

use crate::event::Event;
use crate::event_metadata::EventEnvelope;

verus! {

broadcast use vstd::std_specs::hash::group_hash_axioms;

/// Errors reported by an event or snapshot store.
#[derive(Clone, Copy, PartialEq, Eq, Debug)]
pub enum StoreError {
    /// The log's current version did not match the caller's expected version.
    ConcurrencyConflict,
    /// The backend could not be reached.
    Unavailable,
    /// A record could not be encoded or decoded.
    Serialization,
}

/// One compare-and-append step of a log.
///
/// The log's current version is its length: the `n`-th stored entry carries
/// version `n` (counted from one). The step appends the whole batch iff the
/// current version equals the caller's expected version, and otherwise leaves
/// the log untouched; the boolean says whether it succeeded. An empty batch
/// is a no-op that succeeds without the version check.
pub open spec fn append_step<T>(log: Seq<T>, batch: Seq<T>, expected_version: u64) -> (Seq<T>, bool) {
    if batch.len() == 0 {
        (log, true)
    } else if log.len() == expected_version {
        (log + batch, true)
    } else {
        (log, false)
    }
}

/// The suffix of a log after version `from_version`: the entries with
/// versions strictly greater than it, in order. A version at or past the end
/// leaves nothing.
pub open spec fn log_suffix<T>(log: Seq<T>, from_version: u64) -> Seq<T> {
    if from_version < log.len() {
        log.skip(from_version as int)
    } else {
        Seq::empty()
    }
}

/// Append atomicity: one compare-and-append either adds the whole batch to
/// the end of the log, in order and with consecutive positions, or leaves the
/// log exactly as it was. No partial batch is ever observable.
pub proof fn lemma_append_atomic<T>(log: Seq<T>, batch: Seq<T>, expected_version: u64)
    ensures
        ({
            let (post, ok) = append_step(log, batch, expected_version);
            &&& ok ==> post =~= log + batch
            &&& !ok ==> post == log
        }),
{
    if batch.len() == 0 {
        assert(log + batch =~= log);
    }
}

/// Optimistic concurrency: of two non-empty appends racing with the same
/// expected version on the same log, the one serialized first wins; the
/// second then fails the version check and changes nothing, so the log holds
/// the first batch whole and no interleaving of the two.
pub proof fn lemma_optimistic_concurrency<T>(
    log: Seq<T>,
    first: Seq<T>,
    second: Seq<T>,
    expected_version: u64,
)
    requires
        first.len() > 0,
        second.len() > 0,
        append_step(log, first, expected_version).1,
    ensures
        ({
            let after_first = append_step(log, first, expected_version).0;
            let (after_second, second_ok) = append_step(after_first, second, expected_version);
            &&& after_first == log + first
            &&& !second_ok
            &&& after_second == after_first
        }),
{
}

/// The versions carried by a batch appended after `expected_version`:
/// `expected_version + 1` up to `expected_version + count`, in order.
pub fn batch_versions(expected_version: u64, count: usize) -> (versions: Vec<u64>)
    requires
        expected_version + count <= u64::MAX,
    ensures
        versions@.len() == count,
        forall|i: int| 0 <= i < count ==> versions@[i] == expected_version + i + 1,
{
    let mut versions: Vec<u64> = Vec::new();
    let mut i: usize = 0;
    while i < count
        invariant
            i <= count,
            expected_version + count <= u64::MAX,
            versions@.len() == i,
            forall|j: int| 0 <= j < i ==> versions@[j] == expected_version + j + 1,
        decreases count - i,
    {
        versions.push(expected_version + (i as u64) + 1);
        i += 1;
    }
    versions
}

/// A durable, ordered, per-identity append log with an optimistic-concurrency
/// guard.
///
/// The log of an identity is the sequence of envelopes appended to it, in
/// order; an unknown identity has the empty log. The entry at position `n`
/// (from zero) carries version `n + 1`, so the log's current version is its
/// length.
pub trait EventStore<E: Event>: Sized {
    /// The durable, ordered log of one identity.
    spec fn log(&self, aggregate_id: u64) -> Seq<EventEnvelope<E>>;

    /// Every log fits in memory.
    proof fn lemma_log_fits(&self, aggregate_id: u64)
        ensures
            self.log(aggregate_id).len() <= usize::MAX,
    ;

    /// Compare-and-append: appends the whole batch iff the identity's current
    /// version equals `expected_version`, and otherwise reports a
    /// `ConcurrencyConflict` and appends nothing. An empty batch is a no-op
    /// that succeeds without the version check. Other identities' logs are
    /// never touched.
    fn save_events(
        &mut self,
        aggregate_id: u64,
        events: Vec<EventEnvelope<E>>,
        expected_version: u64,
    ) -> (result: Result<(), StoreError>)
        ensures
            ({
                let (post, ok) = append_step(old(self).log(aggregate_id), events@, expected_version);
                &&& final(self).log(aggregate_id) == post
                &&& (result matches Ok(()) <==> ok)
                &&& (result matches Err(e) ==> e == StoreError::ConcurrencyConflict)
            }),
            forall|other: u64|
                other != aggregate_id ==> final(self).log(other) == old(self).log(other),
    ;

    /// Every envelope of the identity, in ascending version order; the empty
    /// sequence for an unknown identity.
    fn get_events(&self, aggregate_id: u64) -> (result: Result<
        Vec<EventEnvelope<E>>,
        StoreError,
    >)
        ensures
            result matches Ok(events) && events@ == self.log(aggregate_id),
    ;

    /// Only the envelopes with versions strictly greater than `from_version`,
    /// in ascending order; used to fast-forward from a snapshot.
    fn get_events_from_version(&self, aggregate_id: u64, from_version: u64) -> (result: Result<
        Vec<EventEnvelope<E>>,
        StoreError,
    >)
        ensures
            result matches Ok(events) && events@ == log_suffix(
                self.log(aggregate_id),
                from_version,
            ),
    ;
}

/// An event store backed by a map from identity to its log, held in memory.
pub struct InMemoryEventStore<E> {
    logs: HashMap<u64, Vec<EventEnvelope<E>>>,
}

impl<E: Event> InMemoryEventStore<E> {
    /// An empty store: every identity has the empty log.
    pub fn new() -> (store: Self)
        ensures
            forall|id: u64| store.log(id) == Seq::<EventEnvelope<E>>::empty(),
    {
        InMemoryEventStore { logs: HashMap::new() }
    }
}

impl<E: Event> EventStore<E> for InMemoryEventStore<E> {
    closed spec fn log(&self, aggregate_id: u64) -> Seq<EventEnvelope<E>> {
        if self.logs@.contains_key(aggregate_id) {
            self.logs@[aggregate_id]@
        } else {
            Seq::empty()
        }
    }

    proof fn lemma_log_fits(&self, aggregate_id: u64) {
        if self.logs@.contains_key(aggregate_id) {
            let stored = self.logs@[aggregate_id];
            vstd::std_specs::vec::axiom_spec_len(&stored);
        }
    }

    fn save_events(
        &mut self,
        aggregate_id: u64,
        events: Vec<EventEnvelope<E>>,
        expected_version: u64,
    ) -> (result: Result<(), StoreError>) {
        if events.len() == 0 {
            return Ok(());
        }
        let mut log: Vec<EventEnvelope<E>> = match self.logs.remove(&aggregate_id) {
            Some(existing) => existing,
            None => Vec::new(),
        };
        let current_version: u64 = log.len() as u64;
        if current_version != expected_version {
            self.logs.insert(aggregate_id, log);
            return Err(StoreError::ConcurrencyConflict);
        }
        let mut batch = events;
        log.append(&mut batch);
        self.logs.insert(aggregate_id, log);
        Ok(())
    }

    fn get_events(&self, aggregate_id: u64) -> (result: Result<Vec<EventEnvelope<E>>, StoreError>) {
        let mut out: Vec<EventEnvelope<E>> = Vec::new();
        match self.logs.get(&aggregate_id) {
            None => Ok(out),
            Some(log) => {
                let mut i: usize = 0;
                while i < log.len()
                    invariant
                        i <= log@.len(),
                        out@ == log@.take(i as int),
                    decreases log@.len() - i,
                {
                    out.push(log[i].dup());
                    assert(out@ =~= log@.take(i + 1));
                    i += 1;
                }
                assert(out@ =~= log@);
                Ok(out)
            },
        }
    }

    fn get_events_from_version(&self, aggregate_id: u64, from_version: u64) -> (result: Result<
        Vec<EventEnvelope<E>>,
        StoreError,
    >) {
        let mut out: Vec<EventEnvelope<E>> = Vec::new();
        match self.logs.get(&aggregate_id) {
            None => Ok(out),
            Some(log) => {
                if from_version >= log.len() as u64 {
                    return Ok(out);
                }
                let mut i: usize = from_version as usize;
                while i < log.len()
                    invariant
                        from_version < log@.len(),
                        from_version <= i <= log@.len(),
                        out@ == log@.subrange(from_version as int, i as int),
                    decreases log@.len() - i,
                {
                    out.push(log[i].dup());
                    assert(out@ =~= log@.subrange(from_version as int, i + 1));
                    i += 1;
                }
                assert(out@ =~= log@.skip(from_version as int));
                Ok(out)
            },
        }
    }
}

} // verus!
