use vstd::prelude::*;

use crate::query::Query;

verus! {

/// A handler capable of answering one type of query.
///
/// Answering is read-only and deterministic: the executable `handle` must
/// land exactly on the mathematical `spec_answer` over the handler's current
/// read-model state.
pub trait QueryHandler<Q: Query>: Sized {
    type Error;

    /// The mathematical answer this handler gives against its state.
    spec fn spec_answer(&self, query: Q) -> Result<Q::Output, Self::Error>;

    /// Answer one query.
    fn handle(&self, query: Q) -> (result: Result<Q::Output, Self::Error>)
        ensures
            result == self.spec_answer(query),
    ;
}

} // verus!
