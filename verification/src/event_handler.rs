use vstd::prelude::*;

use crate::event::Event;
use crate::event_metadata::EventEnvelope;
use crate::projections::Projection;

verus! {

/// A subscriber receiving published envelopes.
///
/// `Model` is the mathematical content of the subscriber's state. Handling
/// is a deterministic step: the executable `handle` must land exactly on
/// `spec_handle`, either moving the model one step or reporting an error and
/// leaving it alone. The event bus's ordering contract is stated over these
/// steps.
pub trait EventHandler<E: Event>: Sized {
    type Error;

    /// The mathematical content of the subscriber's state.
    type Model;

    /// The abstraction of the current state.
    spec fn model(&self) -> Self::Model;

    /// The mathematical handling step.
    spec fn spec_handle(model: Self::Model, envelope: &EventEnvelope<E>) -> Result<
        Self::Model,
        Self::Error,
    >;

    /// Handle one envelope.
    fn handle(&mut self, envelope: &EventEnvelope<E>) -> (result: Result<(), Self::Error>)
        ensures
            match Self::spec_handle(old(self).model(), envelope) {
                Ok(next) => result matches Ok(()) && final(self).model() == next,
                Err(error) => (result matches Err(reported) && reported == error) && (final(
                    self).model() == old(self).model()),
            },
    ;
}

/// An event handler that folds each event into a projection via the
/// aggregate-style `apply`, surfacing the projection's error as its own.
pub struct ProjectionEventHandler<P> {
    /// The wrapped read model.
    pub projection: P,
}

impl<P> ProjectionEventHandler<P> {
    /// Wrap a projection as a subscriber.
    pub fn new(projection: P) -> (handler: Self)
        ensures
            handler.projection == projection,
    {
        ProjectionEventHandler { projection }
    }
}

impl<E: Event, P: Projection<Event = E>> EventHandler<E> for ProjectionEventHandler<P> {
    type Error = P::Error;

    type Model = P::Model;

    open spec fn model(&self) -> P::Model {
        self.projection.model()
    }

    open spec fn spec_handle(model: P::Model, envelope: &EventEnvelope<E>) -> Result<
        P::Model,
        P::Error,
    > {
        P::spec_apply(model, &envelope.event)
    }

    fn handle(&mut self, envelope: &EventEnvelope<E>) -> (result: Result<(), P::Error>) {
        self.projection.apply(&envelope.event)
    }
}

} // verus!
