use crate::flow::Flow;
use vstd::prelude::*;

verus! {

/// A state machine: its types and its transition function.
///
/// `step` states what the transition function does; `rank` is a measure that
/// every `Slide` lowers, so that a chain of re-dispatched events is finite.
pub trait Engine {
    /// The closed set of states.
    type State;
    /// What drives the machine from one state to the next.
    type Event;
    /// What a transition may fail with.
    type Error;
    /// Context that persists across transitions.
    type Shared;

    /// The outcome of `next`, and the shared context it leaves behind.
    spec fn step(state: Self::State, event: Self::Event, shared: Self::Shared) -> (
        Flow<Self::State, Self::Error, Self::Event>,
        Self::Shared,
    );

    /// A measure that bounds the length of a chain of `Slide` outcomes.
    spec fn rank(state: Self::State, event: Self::Event, shared: Self::Shared) -> nat;

    /// Each `Slide` leads to a state and an event of lower rank.
    proof fn lemma_slide_lowers_rank(state: Self::State, event: Self::Event, shared: Self::Shared)
        ensures
            Self::step(state, event, shared).0 is Slide ==> Self::rank(
                Self::step(state, event, shared).0->Slide_0,
                Self::step(state, event, shared).0->Slide_1,
                Self::step(state, event, shared).1,
            ) < Self::rank(state, event, shared),
    ;

    /// Advances the machine on one event, given the current state and the
    /// shared context.
    fn next(state: &Self::State, event: Self::Event, shared: &mut Self::Shared) -> (r: Flow<
        Self::State,
        Self::Error,
        Self::Event,
    >)
        ensures
            (r, *final(shared)) == Self::step(*state, event, *old(shared)),
    ;
}

/// What a dispatch of `event` from `state` and `shared` amounts to, `Slide`
/// chains followed to their end: the result, the final state and the final
/// shared context.
pub open spec fn run<E: Engine>(state: E::State, event: E::Event, shared: E::Shared) -> (
    Result<(), E::Error>,
    E::State,
    E::Shared,
)
    decreases E::rank(state, event, shared),
{
    let (flow, sh) = E::step(state, event, shared);
    match flow {
        Flow::Pass => (Ok(()), state, sh),
        Flow::Transition(s) => (Ok(()), s, sh),
        Flow::Slide(s, e) => {
            proof {
                E::lemma_slide_lowers_rank(state, event, shared);
            }
            run::<E>(s, e, sh)
        },
        Flow::Failure(err) => (Err(err), state, sh),
    }
}

/// A `Pass` outcome succeeds and commits nothing: the state stays as it was
/// and the shared context is the one the transition function left.
pub proof fn lemma_pass_commits_nothing<E: Engine>(
    state: E::State,
    event: E::Event,
    shared: E::Shared,
)
    requires
        E::step(state, event, shared).0 is Pass,
    ensures
        run::<E>(state, event, shared) == (
            Ok::<(), E::Error>(()),
            state,
            E::step(state, event, shared).1,
        ),
{
}

/// A `Transition(s)` outcome succeeds and leaves the machine in exactly `s`,
/// whatever the state before.
pub proof fn lemma_transition_commits<E: Engine>(
    state: E::State,
    event: E::Event,
    shared: E::Shared,
)
    requires
        E::step(state, event, shared).0 is Transition,
    ensures
        run::<E>(state, event, shared) == (
            Ok::<(), E::Error>(()),
            E::step(state, event, shared).0->Transition_0,
            E::step(state, event, shared).1,
        ),
{
}

/// A `Slide(s, e2)` outcome is the same as committing `s` and then dispatching
/// `e2` from there.
pub proof fn lemma_slide_is_commit_then_fire<E: Engine>(
    state: E::State,
    event: E::Event,
    shared: E::Shared,
)
    requires
        E::step(state, event, shared).0 is Slide,
    ensures
        run::<E>(state, event, shared) == run::<E>(
            E::step(state, event, shared).0->Slide_0,
            E::step(state, event, shared).0->Slide_1,
            E::step(state, event, shared).1,
        ),
{
}

/// A `Failure` outcome hands its error to the caller and leaves the state as
/// it was.
pub proof fn lemma_failure_keeps_state<E: Engine>(
    state: E::State,
    event: E::Event,
    shared: E::Shared,
)
    requires
        E::step(state, event, shared).0 is Failure,
    ensures
        run::<E>(state, event, shared) == (
            Err::<(), E::Error>(E::step(state, event, shared).0->Failure_0),
            state,
            E::step(state, event, shared).1,
        ),
{
}

/// When the transition function fails without touching the shared context,
/// dispatching the same event again fails in the same way and changes
/// nothing either: repeated dispatches are deterministic.
pub proof fn lemma_failure_repeats<E: Engine>(state: E::State, event: E::Event, shared: E::Shared)
    requires
        E::step(state, event, shared).0 is Failure,
        E::step(state, event, shared).1 == shared,
    ensures
        run::<E>(state, event, shared) == (
            Err::<(), E::Error>(E::step(state, event, shared).0->Failure_0),
            state,
            shared,
        ),
        run::<E>(run::<E>(state, event, shared).1, event, run::<E>(state, event, shared).2)
            == run::<E>(state, event, shared),
{
}

} // verus!
