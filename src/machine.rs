use crate::engine::{run, Engine};
use crate::flow::Flow;
use vstd::prelude::*;

verus! {

/// Holds the one live state of a machine and its shared context.
#[derive(Debug)]
pub struct Store<T, S> {
    state: T,
    shared: S,
}

impl<T, S> View for Store<T, S> {
    type V = (T, S);

    closed spec fn view(&self) -> (T, S) {
        (self.state, self.shared)
    }
}

impl<T, S> Store<T, S> {
    /// A store holding `state` and `shared`.
    pub fn new(state: T, shared: S) -> (r: Self)
        ensures
            r@ == (state, shared),
    {
        Store { state, shared }
    }
}

/// A state machine driven by the engine `E`: it owns the current state and the
/// shared context.
///
/// `fire` takes the machine by `&mut`, so computing an outcome and committing
/// it is one atomic step: no other dispatch can run in between. Callers that
/// share a machine across threads hold it behind one lock, which gives every
/// dispatch end-to-end atomicity.
#[derive(Debug)]
pub struct Machine<E: Engine> {
    store: Store<E::State, E::Shared>,
}

impl<E: Engine> View for Machine<E> {
    type V = (E::State, E::Shared);

    closed spec fn view(&self) -> (E::State, E::Shared) {
        self.store@
    }
}

impl<E: Engine> Default for Machine<E> where E::State: Default, E::Shared: Default {
    /// A machine with the default state and the default shared context.
    fn default() -> (r: Self)
        ensures
            call_ensures(E::State::default, (), r@.0),
            call_ensures(E::Shared::default, (), r@.1),
    {
        Machine { store: Store::new(E::State::default(), E::Shared::default()) }
    }
}

impl<E: Engine> Machine<E> {
    /// A machine in state `initial`, with the default shared context.
    pub fn new(initial: E::State) -> (r: Self) where E::Shared: Default
        ensures
            r@.0 == initial,
            call_ensures(E::Shared::default, (), r@.1),
    {
        Machine { store: Store::new(initial, E::Shared::default()) }
    }

    /// A machine in state `initial`, with the shared context `shared`.
    pub fn new_shared(initial: E::State, shared: E::Shared) -> (r: Self)
        ensures
            r@ == (initial, shared),
    {
        Machine { store: Store::new(initial, shared) }
    }

    /// A machine in the default state, with the shared context `shared`.
    pub fn default_shared(shared: E::Shared) -> (r: Self) where E::State: Default
        ensures
            call_ensures(E::State::default, (), r@.0),
            r@.1 == shared,
    {
        Machine { store: Store::new(E::State::default(), shared) }
    }

    /// The current state.
    pub fn state(&self) -> (r: &E::State)
        ensures
            *r == self@.0,
    {
        &self.store.state
    }

    /// The shared context.
    pub fn shared(&self) -> (r: &E::Shared)
        ensures
            *r == self@.1,
    {
        &self.store.shared
    }

    fn set_state(&mut self, new_state: E::State)
        ensures
            final(self)@ == (new_state, old(self)@.1),
    {
        self.store.state = new_state;
    }

    /// Commits what `flow` asks for. Gives back the event to dispatch next, if
    /// any, or the error that ends the dispatch.
    fn infer_result(&mut self, flow: Flow<E::State, E::Error, E::Event>) -> (r: Result<
        Option<E::Event>,
        E::Error,
    >)
        ensures
            match flow {
                Flow::Pass => r == Ok::<Option<E::Event>, E::Error>(None)
                    && final(self)@ == old(self)@,
                Flow::Transition(s) => r == Ok::<Option<E::Event>, E::Error>(None)
                    && final(self)@ == (s, old(self)@.1),
                Flow::Slide(s, e) => r == Ok::<Option<E::Event>, E::Error>(Some(e))
                    && final(self)@ == (s, old(self)@.1),
                Flow::Failure(err) => r == Err::<Option<E::Event>, E::Error>(err)
                    && final(self)@ == old(self)@,
            },
    {
        match flow {
            Flow::Pass => Ok(None),
            Flow::Transition(new_state) => {
                self.set_state(new_state);
                Ok(None)
            },
            Flow::Slide(new_state, event) => {
                self.set_state(new_state);
                Ok(Some(event))
            },
            Flow::Failure(err) => Err(err),
        }
    }

    /// Dispatches `event`: runs the transition function, commits its outcome,
    /// and follows each `Slide` with a dispatch of its event before returning.
    pub fn fire(&mut self, event: E::Event) -> (r: Result<(), E::Error>)
        ensures
            (r, final(self)@.0, final(self)@.1) == run::<E>(old(self)@.0, event, old(self)@.1),
    {
        let mut pending = event;
        loop
            invariant
                run::<E>(self@.0, pending, self@.1) == run::<E>(old(self)@.0, event, old(self)@.1),
            decreases E::rank(self@.0, pending, self@.1),
        {
            proof {
                E::lemma_slide_lowers_rank(self@.0, pending, self@.1);
            }
            let flow = E::next(&self.store.state, pending, &mut self.store.shared);
            match self.infer_result(flow) {
                Ok(None) => {
                    return Ok(());
                },
                Ok(Some(e)) => {
                    pending = e;
                },
                Err(err) => {
                    return Err(err);
                },
            }
        }
    }
}

} // verus!
