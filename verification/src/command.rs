use vstd::prelude::*;

use crate::aggregate::Aggregate;

verus! {

/// An intent submitted by a caller, referencing one aggregate.
///
/// Executing a command is a pure decision: against the fully folded current
/// state it yields either a batch of new events or a domain error, and never
/// touches storage itself. The executable `execute` must land exactly on the
/// mathematical `decide`.
pub trait Command: Sized {
    type Aggregate: Aggregate;

    type Error;

    /// The mathematical decision this command makes against a state.
    spec fn decide(&self, state: Self::Aggregate) -> Result<
        Seq<<Self::Aggregate as Aggregate>::Event>,
        Self::Error,
    >;

    /// A stable identifier of this command's type, keying dispatch.
    spec fn spec_type_tag(&self) -> u64;

    /// The identity this command refers to.
    spec fn spec_aggregate_id(&self) -> u64;

    /// Read the type identifier.
    fn type_tag(&self) -> (tag: u64)
        ensures
            tag == self.spec_type_tag(),
    ;

    /// Read the identity this command refers to.
    fn aggregate_id(&self) -> (id: u64)
        ensures
            id == self.spec_aggregate_id(),
    ;

    /// Decide: either the new events, in order, or the domain error.
    fn execute(&self, aggregate: &Self::Aggregate) -> (result: Result<
        Vec<<Self::Aggregate as Aggregate>::Event>,
        Self::Error,
    >)
        ensures
            result matches Ok(events) ==> self.decide(*aggregate) matches Ok(decided)
                && events@ == decided,
            result matches Err(error) ==> self.decide(*aggregate) matches Err(decided)
                && error == decided,
    ;
}

} // verus!
