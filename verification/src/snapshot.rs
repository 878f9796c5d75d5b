use vstd::prelude::*;

use std::collections::HashMap;

use crate::aggregate::Aggregate;
use crate::event_store::StoreError;

verus! {

broadcast use vstd::std_specs::hash::group_hash_axioms;

/// A cached aggregate state at a known version.
///
/// A snapshot is strictly an optimization: replay must give the identical
/// state whether or not one is used as the starting point.
pub trait Snapshot: Sized {
    /// The version the state was captured at.
    spec fn spec_version(&self) -> int;

    /// Read the captured version.
    fn version(&self) -> (v: u64)
        ensures
            v as int == self.spec_version(),
    ;

    /// An exact copy of the snapshot.
    fn dup(&self) -> (copy: Self)
        ensures
            copy == *self,
    ;
}

impl<A: Aggregate> Snapshot for A {
    open spec fn spec_version(&self) -> int {
        Aggregate::spec_version(self)
    }

    fn version(&self) -> (v: u64) {
        Aggregate::version(self)
    }

    fn dup(&self) -> (copy: Self) {
        Aggregate::dup(self)
    }
}

/// A key-value cache of one snapshot per identity, overwrite semantics.
///
/// Saving is best-effort: a failed save must never fail the command that
/// triggered it, so a failure may leave either the old or the new snapshot
/// behind, and reading may fail transiently; neither hurts correctness,
/// only latency.
pub trait SnapshotStore<S: Snapshot>: Sized {
    /// The snapshot held for one identity, if any.
    spec fn stored(&self, aggregate_id: u64) -> Option<S>;

    /// Best-effort persistence of a snapshot; on success the identity holds
    /// exactly the given state, on failure it holds either the old or the new
    /// one. Other identities are never touched.
    fn save_snapshot(&mut self, aggregate_id: u64, snapshot: S) -> (result: Result<
        (),
        StoreError,
    >)
        ensures
            result matches Ok(()) ==> final(self).stored(aggregate_id) == Some(snapshot),
            result matches Err(_) ==> final(self).stored(aggregate_id) == old(self).stored(
                aggregate_id,
            ) || final(self).stored(aggregate_id) == Some(snapshot),
            forall|other: u64|
                other != aggregate_id ==> final(self).stored(other) == old(self).stored(other),
    ;

    /// The most recent snapshot, or nothing if none exists; reading may also
    /// fail transiently, which a caller must treat as no snapshot.
    fn get_snapshot(&self, aggregate_id: u64) -> (result: Result<Option<S>, StoreError>)
        ensures
            result matches Ok(found) ==> found == self.stored(aggregate_id),
    ;
}

/// A snapshot store backed by a map from identity to its latest snapshot,
/// held in memory. It never fails.
pub struct InMemorySnapshotStore<S> {
    snapshots: HashMap<u64, S>,
}

impl<S: Snapshot> InMemorySnapshotStore<S> {
    /// An empty store: no identity has a snapshot.
    pub fn new() -> (store: Self)
        ensures
            forall|id: u64| store.stored(id) is None,
    {
        InMemorySnapshotStore { snapshots: HashMap::new() }
    }
}

impl<S: Snapshot> SnapshotStore<S> for InMemorySnapshotStore<S> {
    closed spec fn stored(&self, aggregate_id: u64) -> Option<S> {
        if self.snapshots@.contains_key(aggregate_id) {
            Some(self.snapshots@[aggregate_id])
        } else {
            None
        }
    }

    fn save_snapshot(&mut self, aggregate_id: u64, snapshot: S) -> (result: Result<
        (),
        StoreError,
    >)
        ensures
            result matches Ok(()),
    {
        self.snapshots.insert(aggregate_id, snapshot);
        Ok(())
    }

    fn get_snapshot(&self, aggregate_id: u64) -> (result: Result<Option<S>, StoreError>)
        ensures
            result matches Ok(found) && found == self.stored(aggregate_id),
    {
        match self.snapshots.get(&aggregate_id) {
            Some(snapshot) => Ok(Some(snapshot.dup())),
            None => Ok(None),
        }
    }
}

} // verus!
