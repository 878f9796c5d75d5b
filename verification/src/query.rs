use vstd::prelude::*;

verus! {

/// A read intent with a declared result type, answered independently of the
/// event store: it operates over whatever read-model the surrounding system
/// maintains.
pub trait Query: Sized {
    /// The declared result type.
    type Output;

    /// A stable identifier of this query's type, keying dispatch.
    spec fn spec_type_tag(&self) -> u64;

    /// Read the type identifier.
    fn type_tag(&self) -> (tag: u64)
        ensures
            tag == self.spec_type_tag(),
    ;
}

} // verus!
