use vstd::prelude::*;

use std::collections::HashMap;

use crate::command_bus::DispatchError;
use crate::query::Query;
use crate::query_handler::QueryHandler;

verus! {

broadcast use vstd::std_specs::hash::group_hash_axioms;

/// A query handler behind the router's uniform interface.
///
/// It accepts exactly one type tag and recovers the concrete query type
/// behind a checked, fallible test of that tag.
pub trait ErasedQueryHandler<Q: Query>: Sized {
    /// The one type tag this handler accepts.
    spec fn accepts(&self) -> u64;

    /// The answer this handler gives: the underlying handler's answer for an
    /// accepted tag, its own error erased; `TypeMismatch` for any other tag.
    spec fn spec_answer(&self, query: Q) -> Result<Q::Output, DispatchError>;

    /// Read the accepted type tag.
    fn accepted_tag(&self) -> (tag: u64)
        ensures
            tag == self.accepts(),
    ;

    /// Answer the query if its tag is the accepted one; report
    /// `TypeMismatch` if it is not.
    fn handle(&self, query: Q) -> (result: Result<Q::Output, DispatchError>)
        ensures
            result == self.spec_answer(query),
            query.spec_type_tag() != self.accepts() ==> (result matches Err(e) && e
                == DispatchError::TypeMismatch),
            result matches Err(e) ==> e != DispatchError::NoHandlerRegistered,
            result matches Err(e) ==> (e == DispatchError::TypeMismatch <==> query.spec_type_tag()
                != self.accepts()),
    ;
}

/// One concrete query handler adapted to the router's uniform interface,
/// bound to the type tag it was registered under.
pub struct TypedQueryHandler<Q: Query, H: QueryHandler<Q>> {
    tag: u64,
    handler: H,
    _phantom: core::marker::PhantomData<Q>,
}

impl<Q: Query, H: QueryHandler<Q>> TypedQueryHandler<Q, H> {
    /// Bind a handler to the type tag it will accept.
    pub fn new(tag: u64, handler: H) -> (typed: Self)
        ensures
            typed.accepts() == tag,
            forall|query: Q| #[trigger] typed.spec_answer(query) == (if query.spec_type_tag()
                != tag {
                Err(DispatchError::TypeMismatch)
            } else {
                match handler.spec_answer(query) {
                    Ok(answer) => Ok(answer),
                    Err(_) => Err(DispatchError::HandlerFailed),
                }
            }),
    {
        TypedQueryHandler { tag, handler, _phantom: core::marker::PhantomData }
    }
}

impl<Q: Query, H: QueryHandler<Q>> ErasedQueryHandler<Q> for TypedQueryHandler<Q, H> {
    closed spec fn accepts(&self) -> u64 {
        self.tag
    }

    closed spec fn spec_answer(&self, query: Q) -> Result<Q::Output, DispatchError> {
        if query.spec_type_tag() != self.tag {
            Err(DispatchError::TypeMismatch)
        } else {
            match self.handler.spec_answer(query) {
                Ok(answer) => Ok(answer),
                Err(_) => Err(DispatchError::HandlerFailed),
            }
        }
    }

    fn accepted_tag(&self) -> (tag: u64) {
        self.tag
    }

    fn handle(&self, query: Q) -> (result: Result<Q::Output, DispatchError>) {
        // The checked, fallible recovery of the concrete type: the tag must
        // be the one this handler was registered under.
        if query.type_tag() != self.tag {
            return Err(DispatchError::TypeMismatch);
        }
        match self.handler.handle(query) {
            Ok(answer) => Ok(answer),
            Err(_) => Err(DispatchError::HandlerFailed),
        }
    }
}

/// A type-indexed query router.
pub trait QueryBus<Q: Query>: Sized {
    type Error;

    /// Well-formedness of the registry.
    spec fn bus_wf(&self) -> bool;

    /// Route the query to the handler registered for its type tag.
    fn send(&self, query: Q) -> (result: Result<Q::Output, Self::Error>)
        requires
            self.bus_wf(),
    ;
}

/// An in-memory router from a query's type tag to its registered handler.
pub struct InMemoryQueryBus<Q: Query, H: ErasedQueryHandler<Q>> {
    handlers: HashMap<u64, H>,
    _phantom: core::marker::PhantomData<Q>,
}

impl<Q: Query, H: ErasedQueryHandler<Q>> InMemoryQueryBus<Q, H> {
    /// The registry: which handler each type tag is bound to.
    pub closed spec fn registry(&self) -> Map<u64, H> {
        self.handlers@
    }

    /// Every registered handler is keyed by the tag it accepts.
    pub open spec fn bus_inv(&self) -> bool {
        forall|tag: u64| #[trigger] self.registry().contains_key(tag)
            ==> self.registry()[tag].accepts() == tag
    }

    /// An empty router.
    pub fn new() -> (bus: Self)
        ensures
            bus.registry() == Map::<u64, H>::empty(),
            bus.bus_inv(),
    {
        InMemoryQueryBus { handlers: HashMap::new(), _phantom: core::marker::PhantomData }
    }

    /// Bind a handler under the tag it accepts. Re-registration for the same
    /// tag overwrites: the last registration wins.
    pub fn register_handler(&mut self, handler: H)
        requires
            old(self).bus_inv(),
        ensures
            final(self).registry() == old(self).registry().insert(handler.accepts(), handler),
            final(self).bus_inv(),
    {
        let tag = handler.accepted_tag();
        let ghost bound = handler;
        self.handlers.insert(tag, handler);
        proof {
            assert(self.registry() == old(self).registry().insert(bound.accepts(), bound));
            assert forall|t: u64| #[trigger] self.registry().contains_key(t) implies self.registry()[
                t
            ].accepts() == t by {
                if t != tag {
                    assert(old(self).registry().contains_key(t));
                }
            }
        }
    }
}

impl<Q: Query, H: ErasedQueryHandler<Q>> Default for InMemoryQueryBus<Q, H> {
    /// The empty router.
    fn default() -> (bus: Self)
        ensures
            bus.registry() == Map::<u64, H>::empty(),
            bus.bus_inv(),
    {
        Self::new()
    }
}

impl<Q: Query, H: ErasedQueryHandler<Q>> QueryBus<Q> for InMemoryQueryBus<Q, H> {
    type Error = DispatchError;

    open spec fn bus_wf(&self) -> bool {
        self.bus_inv()
    }

    /// Dispatch correctness, read side: the send fails with
    /// `NoHandlerRegistered` exactly when no handler is bound to the query's
    /// type tag, and otherwise returns exactly the bound handler's answer.
    /// `TypeMismatch` cannot arise from a well-formed registry.
    fn send(&self, query: Q) -> (result: Result<Q::Output, DispatchError>)
        ensures
            ({
                let tag = query.spec_type_tag();
                if !self.registry().contains_key(tag) {
                    result matches Err(e) && e == DispatchError::NoHandlerRegistered
                } else {
                    &&& result == self.registry()[tag].spec_answer(query)
                    &&& result matches Err(e) ==> e == DispatchError::HandlerFailed
                }
            }),
    {
        let tag = query.type_tag();
        match self.handlers.get(&tag) {
            None => Err(DispatchError::NoHandlerRegistered),
            Some(handler) => {
                proof {
                    assert(self.registry().contains_key(tag));
                    assert(self.registry()[tag] == *handler);
                }
                handler.handle(query)
            },
        }
    }
}

} // verus!
