use vstd::prelude::*;

verus! {

/// A read model built by folding published events, independent of the event
/// store.
///
/// `Model` is the mathematical content of the read model, and `model` the
/// abstraction of the current state. Applying an event is a deterministic
/// step: the executable `apply` must land exactly on `spec_apply`, either
/// moving the model one step or reporting an error and leaving it alone.
pub trait Projection: Sized {
    type Event;

    type Error;

    /// The mathematical content of the read model.
    type Model;

    /// The abstraction of the current state.
    spec fn model(&self) -> Self::Model;

    /// The mathematical fold step of the read model.
    spec fn spec_apply(model: Self::Model, event: &Self::Event) -> Result<Self::Model, Self::Error>;

    /// Fold one event into the read model.
    fn apply(&mut self, event: &Self::Event) -> (result: Result<(), Self::Error>)
        ensures
            match Self::spec_apply(old(self).model(), event) {
                Ok(next) => result matches Ok(()) && final(self).model() == next,
                Err(error) => (result matches Err(reported) && reported == error) && (final(
                    self).model() == old(self).model()),
            },
    ;
}

} // verus!
