use vstd::prelude::*;

use crate::event::Event;

verus! {

/// The folded, current state of one identity.
///
/// An aggregate is never authoritative on its own: it is always the result of
/// folding the identity's event history, in order, out of the initial state.
/// Implementations therefore have to make the fold step a pure, deterministic
/// function: the executable `apply` must land exactly on `spec_apply`, and
/// every step raises the version by exactly one, so a state folded from `n`
/// events out of the initial state always reports version `n`.
pub trait Aggregate: Sized {
    type Event: Event;

    /// The mathematical fold step: the state after one more event.
    spec fn spec_apply(self, event: Self::Event) -> Self;

    /// The version counter: how many events have been folded in.
    spec fn spec_version(&self) -> int;

    /// The zero-value state an unknown identity starts from.
    spec fn spec_initial() -> Self;

    /// Folding one event raises the version by exactly one. (The version
    /// counter is a machine word, so the law is stated below its ceiling.)
    proof fn lemma_apply_bumps_version(self, event: Self::Event)
        requires
            0 <= self.spec_version() < u64::MAX,
        ensures
            self.spec_apply(event).spec_version() == self.spec_version() + 1,
    ;

    /// The initial state sits at version zero.
    proof fn lemma_initial_version()
        ensures
            Self::spec_initial().spec_version() == 0,
    ;

    /// Produce the zero-value state.
    fn initial() -> (state: Self)
        ensures
            state == Self::spec_initial(),
    ;

    /// Fold one event into the state.
    fn apply(&mut self, event: &Self::Event)
        requires
            old(self).spec_version() < u64::MAX,
        ensures
            *final(self) == old(self).spec_apply(*event),
    ;

    /// Read the version counter.
    fn version(&self) -> (v: u64)
        ensures
            v as int == self.spec_version(),
    ;

    /// Bump the version counter by one, leaving the rest of the state alone.
    fn increment_version(&mut self)
        requires
            old(self).spec_version() < u64::MAX,
        ensures
            final(self).spec_version() == old(self).spec_version() + 1,
    ;

    /// An exact copy of the state, as a snapshot store needs one.
    fn dup(&self) -> (copy: Self)
        ensures
            copy == *self,
    ;
}

/// The state reached by folding a sequence of events into `state`, in order.
pub open spec fn fold_events<A: Aggregate>(state: A, events: Seq<A::Event>) -> A
    decreases events.len(),
{
    if events.len() == 0 {
        state
    } else {
        fold_events(state.spec_apply(events[0]), events.skip(1))
    }
}

/// Folding `n` events raises the version by exactly `n`.
pub proof fn lemma_fold_version<A: Aggregate>(state: A, events: Seq<A::Event>)
    requires
        0 <= state.spec_version(),
        state.spec_version() + events.len() <= u64::MAX,
    ensures
        fold_events(state, events).spec_version() == state.spec_version() + events.len(),
    decreases events.len(),
{
    if events.len() > 0 {
        state.lemma_apply_bumps_version(events[0]);
        lemma_fold_version(state.spec_apply(events[0]), events.skip(1));
    }
}

/// Replay determinism, version half: a full replay out of the initial state
/// always lands at version equal to the event count. (The state itself is
/// pinned too: `fold_events` is a function of the history alone.)
pub proof fn lemma_replay_version<A: Aggregate>(events: Seq<A::Event>)
    requires
        events.len() <= u64::MAX,
    ensures
        fold_events(A::spec_initial(), events).spec_version() == events.len(),
{
    A::lemma_initial_version();
    lemma_fold_version(A::spec_initial(), events);
}

/// Folding one more event at the end is one more fold step.
pub proof fn lemma_fold_snoc<A: Aggregate>(state: A, events: Seq<A::Event>, event: A::Event)
    ensures
        fold_events(state, events.push(event)) == fold_events(state, events).spec_apply(event),
{
    let single = seq![event];
    assert(events.push(event) =~= events + single);
    lemma_fold_append(state, events, single);
    let folded = fold_events(state, events);
    assert(single.skip(1) =~= Seq::<A::Event>::empty());
    assert(fold_events(folded, single) == fold_events(folded.spec_apply(event), single.skip(1)));
    assert(fold_events(folded, single) == folded.spec_apply(event));
}

/// Folding a history in two stages equals folding it whole.
pub proof fn lemma_fold_append<A: Aggregate>(state: A, left: Seq<A::Event>, right: Seq<A::Event>)
    ensures
        fold_events(state, left + right) == fold_events(fold_events(state, left), right),
    decreases left.len(),
{
    if left.len() == 0 {
        assert(left + right =~= right);
    } else {
        assert((left + right)[0] == left[0]);
        assert((left + right).skip(1) =~= left.skip(1) + right);
        lemma_fold_append(state.spec_apply(left[0]), left.skip(1), right);
    }
}

/// Snapshot transparency, fold half: starting from the fold of the first `v`
/// events of a history and folding the remaining tail gives exactly the state
/// of a full replay out of the initial state. A snapshot taken at version `v`
/// is therefore invisible in the reconstructed state.
pub proof fn lemma_snapshot_transparent<A: Aggregate>(history: Seq<A::Event>, v: int)
    requires
        0 <= v <= history.len(),
    ensures
        fold_events(fold_events(A::spec_initial(), history.take(v)), history.skip(v))
            == fold_events(A::spec_initial(), history),
{
    assert(history.take(v) + history.skip(v) =~= history);
    lemma_fold_append(A::spec_initial(), history.take(v), history.skip(v));
}

} // verus!
