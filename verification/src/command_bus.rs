use vstd::prelude::*;

use std::collections::HashMap;

use crate::command::Command;
use crate::command_handler::CommandHandler;

verus! {

broadcast use vstd::std_specs::hash::group_hash_axioms;

/// Errors of the type-indexed routers.
#[derive(Clone, Copy, PartialEq, Eq, Debug)]
pub enum DispatchError {
    /// No handler is registered for the value's type tag.
    NoHandlerRegistered,
    /// The addressed handler does not accept the value's type tag. With a
    /// well-formed registry this is structurally unreachable; it is reported,
    /// never allowed to miscast.
    TypeMismatch,
    /// The handler ran and failed; its own error is erased here.
    HandlerFailed,
}

/// A handler behind the router's uniform interface.
///
/// It accepts exactly one type tag and recovers the concrete command type
/// behind a checked, fallible test of that tag.
pub trait ErasedCommandHandler<M: Command>: Sized {
    /// The one type tag this handler accepts.
    spec fn accepts(&self) -> u64;

    /// Well-formedness the handler needs on entry and maintains.
    spec fn inv(&self) -> bool;

    /// Every command that reached the underlying handler, in order.
    spec fn observed(&self) -> Seq<M>;

    /// Read the accepted type tag.
    fn accepted_tag(&self) -> (tag: u64)
        ensures
            tag == self.accepts(),
    ;

    /// Execute the command if its tag is the accepted one; report
    /// `TypeMismatch`, touching nothing, if it is not.
    fn handle(&mut self, command: M) -> (result: Result<(), DispatchError>)
        requires
            old(self).inv(),
        ensures
            final(self).inv(),
            final(self).accepts() == old(self).accepts(),
            command.spec_type_tag() == old(self).accepts() ==> final(self).observed() == old(
                self,
            ).observed().push(command),
            command.spec_type_tag() != old(self).accepts() ==> (*final(self) == *old(self) && (
            result matches Err(e) && e == DispatchError::TypeMismatch)),
            result matches Err(e) ==> e != DispatchError::NoHandlerRegistered,
            result matches Err(e) ==> (e == DispatchError::TypeMismatch <==> command.spec_type_tag()
                != old(self).accepts()),
    ;
}

/// One concrete command handler adapted to the router's uniform interface,
/// bound to the type tag it was registered under.
pub struct TypedCommandHandler<C: Command, H: CommandHandler<C>> {
    tag: u64,
    handler: H,
    _phantom: core::marker::PhantomData<C>,
}

impl<C: Command, H: CommandHandler<C>> TypedCommandHandler<C, H> {
    /// The wrapped handler.
    pub closed spec fn spec_handler(&self) -> H {
        self.handler
    }

    /// Read the wrapped handler.
    pub fn handler(&self) -> (wrapped: &H)
        ensures
            *wrapped == self.spec_handler(),
    {
        &self.handler
    }

    /// Bind a handler to the type tag it will accept.
    pub fn new(tag: u64, handler: H) -> (typed: Self)
        ensures
            typed.accepts() == tag,
            typed.observed() == handler.observed(),
            typed.inv() == handler.inv(),
    {
        TypedCommandHandler { tag, handler, _phantom: core::marker::PhantomData }
    }
}

impl<C: Command, H: CommandHandler<C>> ErasedCommandHandler<C> for TypedCommandHandler<C, H> {
    closed spec fn accepts(&self) -> u64 {
        self.tag
    }

    closed spec fn inv(&self) -> bool {
        self.handler.inv()
    }

    closed spec fn observed(&self) -> Seq<C> {
        self.handler.observed()
    }

    fn accepted_tag(&self) -> (tag: u64) {
        self.tag
    }

    fn handle(&mut self, command: C) -> (result: Result<(), DispatchError>) {
        // The checked, fallible recovery of the concrete type: the tag must
        // be the one this handler was registered under.
        if command.type_tag() != self.tag {
            return Err(DispatchError::TypeMismatch);
        }
        match self.handler.handle(command) {
            Ok(()) => Ok(()),
            Err(_) => Err(DispatchError::HandlerFailed),
        }
    }
}

/// A type-indexed command router.
pub trait CommandBus<M: Command>: Sized {
    type Error;

    /// Well-formedness of the registry.
    spec fn bus_wf(&self) -> bool;

    /// Route the command to the handler registered for its type tag.
    fn send(&mut self, command: M) -> (result: Result<(), Self::Error>)
        requires
            old(self).bus_wf(),
        ensures
            final(self).bus_wf(),
    ;
}

/// An in-memory router from a command's type tag to its registered handler.
pub struct InMemoryCommandBus<M: Command, H: ErasedCommandHandler<M>> {
    handlers: HashMap<u64, H>,
    _phantom: core::marker::PhantomData<M>,
}

impl<M: Command, H: ErasedCommandHandler<M>> InMemoryCommandBus<M, H> {
    /// The registry: which handler each type tag is bound to.
    pub closed spec fn registry(&self) -> Map<u64, H> {
        self.handlers@
    }

    /// Every registered handler is well-formed and keyed by the tag it
    /// accepts.
    pub open spec fn bus_inv(&self) -> bool {
        forall|tag: u64| #[trigger] self.registry().contains_key(tag) ==> {
            &&& self.registry()[tag].inv()
            &&& self.registry()[tag].accepts() == tag
        }
    }

    /// An empty router.
    pub fn new() -> (bus: Self)
        ensures
            bus.registry() == Map::<u64, H>::empty(),
            bus.bus_inv(),
    {
        InMemoryCommandBus { handlers: HashMap::new(), _phantom: core::marker::PhantomData }
    }

    /// The handler registered for a tag, if any.
    pub fn registered(&self, tag: u64) -> (found: Option<&H>)
        ensures
            match found {
                Some(handler) => self.registry().contains_key(tag) && *handler == self.registry()[
                    tag
                ],
                None => !self.registry().contains_key(tag),
            },
    {
        self.handlers.get(&tag)
    }

    /// Bind a handler under the tag it accepts. Re-registration for the same
    /// tag overwrites: the last registration wins.
    pub fn register_handler(&mut self, handler: H)
        requires
            handler.inv(),
            old(self).bus_inv(),
        ensures
            final(self).registry() == old(self).registry().insert(handler.accepts(), handler),
            final(self).bus_inv(),
    {
        let tag = handler.accepted_tag();
        let ghost bound = handler;
        self.handlers.insert(tag, handler);
        proof {
            assert(self.handlers@ == old(self).handlers@.insert(tag, bound));
            assert(self.registry() == old(self).registry().insert(bound.accepts(), bound));
            assert forall|t: u64| #[trigger] self.registry().contains_key(t) implies {
                &&& self.registry()[t].inv()
                &&& self.registry()[t].accepts() == t
            } by {
                if t != tag {
                    assert(old(self).registry().contains_key(t));
                }
            }
        }
    }
}

impl<M: Command, H: ErasedCommandHandler<M>> Default for InMemoryCommandBus<M, H> {
    /// The empty router.
    fn default() -> (bus: Self)
        ensures
            bus.registry() == Map::<u64, H>::empty(),
            bus.bus_inv(),
    {
        Self::new()
    }
}

impl<M: Command, H: ErasedCommandHandler<M>> CommandBus<M> for InMemoryCommandBus<M, H> {
    type Error = DispatchError;

    open spec fn bus_wf(&self) -> bool {
        self.bus_inv()
    }

    /// Dispatch correctness: the send fails with `NoHandlerRegistered`
    /// exactly when no handler is bound to the command's type tag, and
    /// otherwise the command reaches exactly the bound handler — that
    /// handler's call history grows by this command, every other binding is
    /// untouched, and the handler's own failure is surfaced as
    /// `HandlerFailed`. `TypeMismatch` cannot arise from a well-formed
    /// registry.
    fn send(&mut self, command: M) -> (result: Result<(), DispatchError>)
        ensures
            ({
                let tag = command.spec_type_tag();
                if !old(self).registry().contains_key(tag) {
                    &&& result matches Err(e) && e == DispatchError::NoHandlerRegistered
                    &&& final(self).registry() == old(self).registry()
                } else {
                    &&& final(self).registry().dom() == old(self).registry().dom()
                    &&& forall|other: u64|
                        other != tag && #[trigger] old(self).registry().contains_key(other)
                            ==> final(self).registry()[other] == old(self).registry()[other]
                    &&& final(self).registry()[tag].observed() == old(self).registry()[
                        tag
                    ].observed().push(command)
                    &&& result matches Err(e) ==> e == DispatchError::HandlerFailed
                }
            }),
    {
        let tag = command.type_tag();
        let mut handler = match self.handlers.remove(&tag) {
            None => {
                proof {
                    assert(self.handlers@ =~= old(self).handlers@);
                    assert(self.registry() == old(self).registry());
                    assert forall|t: u64| #[trigger] self.registry().contains_key(t) implies {
                        &&& self.registry()[t].inv()
                        &&& self.registry()[t].accepts() == t
                    } by {
                        assert(old(self).registry().contains_key(t));
                    }
                }
                return Err(DispatchError::NoHandlerRegistered);
            },
            Some(handler) => handler,
        };
        proof {
            assert(old(self).registry().contains_key(tag));
            assert(old(self).registry()[tag] == handler);
        }
        let result = handler.handle(command);
        let ghost updated = handler;
        self.handlers.insert(tag, handler);
        proof {
            assert(self.handlers@ =~= old(self).handlers@.insert(tag, updated));
            assert(self.handlers@.dom() =~= old(self).handlers@.dom());
            assert forall|t: u64| #[trigger] self.registry().contains_key(t) implies {
                &&& self.registry()[t].inv()
                &&& self.registry()[t].accepts() == t
            } by {
                if t != tag {
                    assert(old(self).registry().contains_key(t));
                }
            }
        }
        result
    }
}

} // verus!
