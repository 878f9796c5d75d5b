use vstd::prelude::*;

verus! {

/// An immutable fact about one identity.
///
/// Events are produced by command execution, appended to the identity's log,
/// and never mutated or deleted afterwards.
pub trait Event: Sized {
    /// A short tag naming the kind of event, e.g. for routing.
    fn event_type(&self) -> &'static str;

    /// The identity whose history this event belongs to.
    fn aggregate_id(&self) -> u64;

    /// An exact copy of the event, as the store needs one to hand events out
    /// while keeping the log.
    fn dup(&self) -> (copy: Self)
        ensures
            copy == *self,
    ;
}

} // verus!
