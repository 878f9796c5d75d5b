use vstd::prelude::*;

use crate::event::Event;
use crate::event_handler::EventHandler;
use crate::event_metadata::EventEnvelope;

verus! {

/// Whether a subscriber model accepts every envelope of a sequence, in
/// order, one deterministic step after the other.
pub open spec fn handler_delivers_all<E: Event, H: EventHandler<E>>(
    model: H::Model,
    envelopes: Seq<EventEnvelope<E>>,
) -> bool
    decreases envelopes.len(),
{
    envelopes.len() == 0 || (H::spec_handle(model, &envelopes[0]) matches Ok(next)
        && handler_delivers_all::<E, H>(next, envelopes.skip(1)))
}

/// The subscriber model after the envelopes of a sequence were offered to it
/// in order; a rejected envelope leaves the model where it was.
pub open spec fn handler_fold<E: Event, H: EventHandler<E>>(
    model: H::Model,
    envelopes: Seq<EventEnvelope<E>>,
) -> H::Model
    decreases envelopes.len(),
{
    if envelopes.len() == 0 {
        model
    } else {
        match H::spec_handle(model, &envelopes[0]) {
            Ok(next) => handler_fold::<E, H>(next, envelopes.skip(1)),
            Err(_) => model,
        }
    }
}

/// One more envelope at the end of an accepted run is one more handling step.
pub proof fn lemma_delivery_snoc<E: Event, H: EventHandler<E>>(
    model: H::Model,
    envelopes: Seq<EventEnvelope<E>>,
    envelope: EventEnvelope<E>,
)
    requires
        handler_delivers_all::<E, H>(model, envelopes),
    ensures
        ({
            let folded = handler_fold::<E, H>(model, envelopes);
            let extended = envelopes.push(envelope);
            &&& (handler_delivers_all::<E, H>(model, extended) <==> H::spec_handle(
                folded,
                &envelope,
            ) is Ok)
            &&& (H::spec_handle(folded, &envelope) matches Ok(next) ==> handler_fold::<E, H>(
                model,
                extended,
            ) == next)
            &&& (H::spec_handle(folded, &envelope) is Err ==> handler_fold::<E, H>(model, extended)
                == folded)
        }),
    decreases envelopes.len(),
{
    let extended = envelopes.push(envelope);
    if envelopes.len() == 0 {
        assert(extended[0] == envelope);
        assert(extended.skip(1) =~= Seq::<EventEnvelope<E>>::empty());
        assert(handler_fold::<E, H>(model, envelopes) == model);
        if H::spec_handle(model, &envelope) is Ok {
            let next = H::spec_handle(model, &envelope)->Ok_0;
            assert(handler_delivers_all::<E, H>(next, extended.skip(1)));
            assert(handler_fold::<E, H>(next, extended.skip(1)) == next);
            assert(handler_delivers_all::<E, H>(model, extended));
            assert(handler_fold::<E, H>(model, extended) == next);
        } else {
            assert(!handler_delivers_all::<E, H>(model, extended));
            assert(handler_fold::<E, H>(model, extended) == model);
        }
    } else {
        assert(extended[0] == envelopes[0]);
        assert(extended.skip(1) =~= envelopes.skip(1).push(envelope));
        assert(H::spec_handle(model, &envelopes[0]) is Ok);
        let next = H::spec_handle(model, &envelopes[0])->Ok_0;
        assert(handler_delivers_all::<E, H>(next, envelopes.skip(1)));
        assert(handler_fold::<E, H>(model, envelopes) == handler_fold::<E, H>(
            next,
            envelopes.skip(1),
        ));
        assert(handler_fold::<E, H>(model, extended) == handler_fold::<E, H>(
            next,
            extended.skip(1),
        ));
        assert(handler_delivers_all::<E, H>(model, extended) <==> handler_delivers_all::<E, H>(
            next,
            extended.skip(1),
        ));
        lemma_delivery_snoc::<E, H>(next, envelopes.skip(1), envelope);
    }
}

/// Where a publish stopped: while delivering envelope `i`, the subscriber at
/// position `j` rejected it. Every subscriber before `j` has taken envelopes
/// up to and including `i`; the subscriber at `j` and all later ones stop
/// just before it, so no subscriber ever sees an envelope out of order.
pub open spec fn delivery_stopped<E: Event, H: EventHandler<E>>(
    before: Seq<H>,
    after: Seq<H>,
    envelopes: Seq<EventEnvelope<E>>,
    i: int,
    j: int,
    error: H::Error,
) -> bool {
    &&& 0 <= i < envelopes.len()
    &&& 0 <= j < before.len()
    &&& after.len() == before.len()
    &&& forall|m: int|
        0 <= m < j ==> handler_delivers_all::<E, H>(
            (#[trigger] before[m]).model(),
            envelopes.take(i + 1),
        )
    &&& forall|m: int| 0 <= m < j ==> (#[trigger] after[m]).model() == handler_fold::<E, H>(
        before[m].model(),
        envelopes.take(i + 1),
    )
    &&& forall|m: int|
        j <= m < before.len() ==> handler_delivers_all::<E, H>(
            (#[trigger] before[m]).model(),
            envelopes.take(i),
        )
    &&& forall|m: int| j <= m < before.len() ==> (#[trigger] after[m]).model() == handler_fold::<
        E,
        H,
    >(before[m].model(), envelopes.take(i))
    &&& H::spec_handle(handler_fold::<E, H>(before[j].model(), envelopes.take(i)), &envelopes[i])
        matches Err(reported) && reported == error
}

/// At-least-once, in-order fan-out of persisted envelopes to subscribers.
pub trait EventBus<E: Event, H: EventHandler<E>>: Sized {
    type Error;

    /// Deliver the envelopes to every subscriber: for each envelope in
    /// order, to each subscriber in registration order.
    fn publish(&mut self, events: &[EventEnvelope<E>]) -> (result: Result<(), Self::Error>);

    /// Register a handler to receive all subsequently published envelopes.
    fn subscribe(&mut self, handler: H);
}

/// An in-process event bus holding its subscribers in registration order.
pub struct InMemoryEventBus<E: Event, H: EventHandler<E>> {
    handlers: Vec<H>,
    _phantom: core::marker::PhantomData<E>,
}

impl<E: Event, H: EventHandler<E>> InMemoryEventBus<E, H> {
    /// The subscribers, in registration order.
    pub closed spec fn subscribers(&self) -> Seq<H> {
        self.handlers@
    }

    /// A bus with no subscribers.
    pub fn new() -> (bus: Self)
        ensures
            bus.subscribers() == Seq::<H>::empty(),
    {
        InMemoryEventBus { handlers: Vec::new(), _phantom: core::marker::PhantomData }
    }

    /// How many subscribers are registered.
    pub fn subscriber_count(&self) -> (count: usize)
        ensures
            count == self.subscribers().len(),
    {
        self.handlers.len()
    }

    /// The subscriber at a position in registration order.
    pub fn subscriber(&self, index: usize) -> (handler: &H)
        requires
            index < self.subscribers().len(),
        ensures
            *handler == self.subscribers()[index as int],
    {
        &self.handlers[index]
    }
}

impl<E: Event, H: EventHandler<E>> Default for InMemoryEventBus<E, H> {
    /// The bus with no subscribers.
    fn default() -> (bus: Self)
        ensures
            bus.subscribers() == Seq::<H>::empty(),
    {
        Self::new()
    }
}

impl<E: Event, H: EventHandler<E>> EventBus<E, H> for InMemoryEventBus<E, H> {
    type Error = H::Error;

    /// Delivery ordering: on success every subscriber has accepted every
    /// envelope, envelopes in publish order; delivery of one envelope visits
    /// subscribers in registration order, so a failure stops the fan-out at
    /// an exact point, `delivery_stopped`, and the failing handler's error is
    /// surfaced.
    fn publish(&mut self, events: &[EventEnvelope<E>]) -> (result: Result<(), H::Error>)
        ensures
            final(self).subscribers().len() == old(self).subscribers().len(),
            result matches Ok(()) ==> forall|m: int|
                0 <= m < old(self).subscribers().len() ==> {
                    &&& handler_delivers_all::<E, H>(
                        (#[trigger] old(self).subscribers()[m]).model(),
                        events@,
                    )
                    &&& final(self).subscribers()[m].model() == handler_fold::<E, H>(
                        old(self).subscribers()[m].model(),
                        events@,
                    )
                },
            result matches Err(error) ==> exists|i: int, j: int|
                #[trigger] delivery_stopped(
                    old(self).subscribers(),
                    final(self).subscribers(),
                    events@,
                    i,
                    j,
                    error,
                ),
    {
        let ghost before = self.handlers@;
        proof {
            vstd::std_specs::vec::axiom_spec_len(&self.handlers);
        }
        let mut i: usize = 0;
        while i < events.len()
            invariant
                i <= events@.len(),
                before == old(self).subscribers(),
                before.len() <= usize::MAX,
                self.handlers@.len() == before.len(),
                forall|m: int|
                    0 <= m < before.len() ==> handler_delivers_all::<E, H>(
                        (#[trigger] before[m]).model(),
                        events@.take(i as int),
                    ),
                forall|m: int| 0 <= m < before.len() ==> (#[trigger] self.handlers@[m]).model()
                    == handler_fold::<E, H>(before[m].model(), events@.take(i as int)),
            decreases events@.len() - i,
        {
            let mut pending = self.handlers.split_off(0);
            let ghost round_start = pending@;
            let mut j: usize = 0;
            while pending.len() > 0
                invariant
                    i < events@.len(),
                    before == old(self).subscribers(),
                    before.len() <= usize::MAX,
                    j + pending@.len() == before.len(),
                    round_start.len() == before.len(),
                    self.handlers@.len() == j,
                    pending@ == round_start.skip(j as int),
                    forall|m: int|
                        0 <= m < before.len() ==> handler_delivers_all::<E, H>(
                            (#[trigger] before[m]).model(),
                            events@.take(i as int),
                        ),
                    forall|m: int| 0 <= m < before.len() ==> (#[trigger] round_start[m]).model()
                        == handler_fold::<E, H>(before[m].model(), events@.take(i as int)),
                    forall|m: int|
                        0 <= m < j ==> handler_delivers_all::<E, H>(
                            (#[trigger] before[m]).model(),
                            events@.take(i as int + 1),
                        ),
                    forall|m: int| 0 <= m < j ==> (#[trigger] self.handlers@[m]).model()
                        == handler_fold::<E, H>(before[m].model(), events@.take(i as int + 1)),
                decreases pending@.len(),
            {
                let mut handler = pending.remove(0);
                proof {
                    assert(handler == round_start[j as int]);
                    assert(pending@ =~= round_start.skip(j as int + 1));
                    lemma_delivery_snoc::<E, H>(
                        before[j as int].model(),
                        events@.take(i as int),
                        events@[i as int],
                    );
                    assert(events@.take(i as int).push(events@[i as int]) =~= events@.take(
                        i as int + 1,
                    ));
                }
                let ghost pre_handler = handler;
                let outcome = handler.handle(&events[i]);
                match outcome {
                    Ok(()) => {
                        self.handlers.push(handler);
                        proof {
                            assert(j < before.len());
                        }
                        j += 1;
                    },
                    Err(error) => {
                        self.handlers.push(handler);
                        self.handlers.append(&mut pending);
                        proof {
                            assert(self.handlers@.len() == before.len());
                            assert forall|m: int| j <= m < before.len() implies (#[trigger] self
                                .handlers@[m]).model() == handler_fold::<E, H>(
                                before[m].model(),
                                events@.take(i as int),
                            ) by {
                                if m == j {
                                    assert(self.handlers@[m].model() == pre_handler.model());
                                } else {
                                    assert(self.handlers@[m] == round_start[m]);
                                }
                            }
                            assert(delivery_stopped(
                                before,
                                self.handlers@,
                                events@,
                                i as int,
                                j as int,
                                error,
                            ));
                        }
                        return Err(error);
                    },
                }
            }
            i += 1;
        }
        proof {
            assert(events@.take(events@.len() as int) =~= events@);
        }
        Ok(())
    }

    /// Append the handler to the registration order.
    fn subscribe(&mut self, handler: H)
        ensures
            final(self).subscribers() == old(self).subscribers().push(handler),
    {
        self.handlers.push(handler);
    }
}

} // verus!
