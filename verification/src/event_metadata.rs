use vstd::prelude::*;

use crate::event::Event;

verus! {

/// Provenance metadata stamped onto an event at append time.
///
/// The event id is a freshly drawn 128-bit identifier, the timestamp is the
/// wall clock at creation, and the correlation id is shared by every event a
/// single command execution produced. Metadata is assigned once and read back
/// unchanged.
#[derive(Clone, Copy, PartialEq, Eq, Debug)]
pub struct EventMetadata {
    /// Globally unique id of this event.
    pub event_id: u128,
    /// Creation time, in microseconds since the Unix epoch.
    pub timestamp_micros: i64,
    /// Shared by all events produced by one command execution.
    pub correlation_id: u128,
    /// Id of the event or command that triggered this one, if any.
    pub causation_id: Option<u128>,
}

/// Relies on uuid::Uuid::new_v4 (via as_u128): a freshly drawn random
/// version-4 identifier. Nothing is promised of the value: it depends on the
/// process's entropy source, so two calls may differ.
#[verifier::external_body]
pub(crate) fn random_id() -> u128 {
    uuid::Uuid::new_v4().as_u128()
}

/// Relies on chrono::Utc::now (via timestamp_micros): the current wall-clock
/// time in microseconds since the Unix epoch. Nothing is promised of the
/// value: it depends on the machine's clock.
#[verifier::external_body]
pub(crate) fn now_micros() -> i64 {
    chrono::Utc::now().timestamp_micros()
}

impl EventMetadata {
    /// Stamps fresh metadata: a new random event id, the current time, and
    /// the caller's correlation and causation ids carried through unchanged.
    pub fn new(correlation_id: u128, causation_id: Option<u128>) -> (m: Self)
        ensures
            m.correlation_id == correlation_id,
            m.causation_id == causation_id,
    {
        EventMetadata {
            event_id: random_id(),
            timestamp_micros: now_micros(),
            correlation_id,
            causation_id,
        }
    }
}

/// An event together with the metadata assigned when it was appended.
pub struct EventEnvelope<E> {
    pub event: E,
    pub metadata: EventMetadata,
}

impl<E: Event> EventEnvelope<E> {
    /// An exact copy of the envelope.
    pub fn dup(&self) -> (copy: Self)
        ensures
            copy == *self,
    {
        EventEnvelope { event: self.event.dup(), metadata: self.metadata }
    }
}

/// The bare events of a sequence of envelopes, in the same order.
pub open spec fn envelope_events<E>(envelopes: Seq<EventEnvelope<E>>) -> Seq<E> {
    envelopes.map_values(|envelope: EventEnvelope<E>| envelope.event)
}

} // verus!
