use crate::engine::{run, Engine};
use crate::flow::Flow;
use std::convert::Infallible;
use vstd::prelude::*;

verus! {

/// The entry lane of a barrier, watched by three radar lines: line 1 before
/// the barrier, line 2 under it, line 3 past it.
#[derive(Debug)]
pub struct In;

/// Where the lane is in letting a vehicle through.
#[derive(Debug, Clone, Copy, PartialEq, Eq, Structural)]
pub enum State {
    /// Waiting for a vehicle.
    Idle,
    /// A vehicle is passing; the barrier is open.
    Entry,
    /// The vehicle has reached the line past the barrier.
    Finalizing,
    /// The line under the barrier was occupied when the vehicle left: wait for
    /// it to clear before closing.
    WaitRelease,
}

impl Default for State {
    /// The lane starts out idle.
    fn default() -> (r: State)
        ensures
            r == State::Idle,
    {
        State::Idle
    }
}

/// What the lane remembers across transitions.
#[derive(Debug, Clone, Copy, PartialEq, Eq, Structural)]
pub struct Shared {
    /// Line 2 (under the barrier) is occupied.
    pub hold: bool,
    /// Line 1 (before the barrier) is occupied: the next vehicle is waiting.
    pub rush: bool,
}

impl Default for Shared {
    /// Both lines clear.
    fn default() -> (r: Shared)
        ensures
            r == (Shared { hold: false, rush: false }),
    {
        Shared { hold: false, rush: false }
    }
}

/// What drives the lane.
#[derive(Debug, Clone, Copy, PartialEq, Eq, Structural)]
pub enum Event {
    /// The signal on a radar line changed: the line and its new level.
    Ein(u32, bool),
    /// Start the next passage at once, without waiting for line 1.
    Rush,
}

/// The outcome of one event on the lane, which never fails: `Infallible` has
/// no values.
pub type InFlow = Flow<State, Infallible, Event>;

/// The shared context once the signal carried by `event` is recorded.
pub open spec fn record_signal(event: Event, shared: Shared) -> Shared {
    match event {
        Event::Ein(2, high) => Shared { hold: high, ..shared },
        Event::Ein(1, high) => Shared { rush: high, ..shared },
        _ => shared,
    }
}

/// Closing the passage: back to idle, and straight into the next passage
/// when a vehicle waits at line 1.
pub open spec fn open_flow(shared: Shared) -> InFlow {
    if shared.rush {
        Flow::Slide(State::Idle, Event::Rush)
    } else {
        Flow::Transition(State::Idle)
    }
}

/// The lane's transition function.
pub open spec fn lane_step(state: State, event: Event, shared: Shared) -> (InFlow, Shared) {
    let sh = record_signal(event, shared);
    let flow = match (state, event) {
        (State::Idle, Event::Ein(1, true)) => Flow::Transition(State::Entry),
        (State::Idle, Event::Rush) => Flow::Transition(State::Entry),
        (State::Entry, Event::Ein(3, true)) => Flow::Transition(State::Finalizing),
        (State::Finalizing, Event::Ein(3, false)) => if sh.hold {
            Flow::Transition(State::WaitRelease)
        } else {
            open_flow(sh)
        },
        (State::WaitRelease, Event::Ein(2, false)) => open_flow(sh),
        _ => Flow::Pass,
    };
    (flow, sh)
}

fn open(shared: &Shared) -> (r: InFlow)
    ensures
        r == open_flow(*shared),
{
    if shared.rush {
        Flow::Slide(State::Idle, Event::Rush)
    } else {
        Flow::Transition(State::Idle)
    }
}

impl Engine for In {
    type State = State;
    type Event = Event;
    type Error = Infallible;
    type Shared = Shared;

    open spec fn step(state: State, event: Event, shared: Shared) -> (InFlow, Shared) {
        lane_step(state, event, shared)
    }

    /// Only a signal on a line can slide, and it slides into `Rush`, which
    /// never slides.
    open spec fn rank(state: State, event: Event, shared: Shared) -> nat {
        match event {
            Event::Rush => 0,
            Event::Ein(_, _) => 1,
        }
    }

    proof fn lemma_slide_lowers_rank(state: State, event: Event, shared: Shared) {
    }

    fn next(state: &State, event: Event, shared: &mut Shared) -> (r: InFlow) {
        if let Event::Ein(2, high) = event {
            shared.hold = high;
        }
        if let Event::Ein(1, high) = event {
            shared.rush = high;
        }
        match (state, event) {
            (State::Idle, Event::Ein(1, true)) | (State::Idle, Event::Rush) => Flow::Transition(
                State::Entry,
            ),
            (State::Entry, Event::Ein(3, true)) => Flow::Transition(State::Finalizing),
            (State::Finalizing, Event::Ein(3, false)) => {
                if shared.hold {
                    Flow::Transition(State::WaitRelease)
                } else {
                    open(shared)
                }
            },
            (State::WaitRelease, Event::Ein(2, false)) => open(shared),
            _ => Flow::Pass,
        }
    }
}

/// When the passage closes while a vehicle waits at line 1, the lane slides
/// back into `Entry` within the same dispatch, with no further event.
pub proof fn lemma_rush_reenters_entry(state: State, event: Event, shared: Shared)
    requires
        shared.rush,
        (state == State::Finalizing && event == Event::Ein(3, false) && !shared.hold) || (state
            == State::WaitRelease && event == Event::Ein(2, false)),
    ensures
        lane_step(state, event, shared).0 == Flow::<State, Infallible, Event>::Slide(
            State::Idle,
            Event::Rush,
        ),
        run::<In>(state, event, shared) == (
            Ok::<(), Infallible>(()),
            State::Entry,
            lane_step(state, event, shared).1,
        ),
{
    let sh = lane_step(state, event, shared).1;
    assert(run::<In>(state, event, shared) == run::<In>(State::Idle, Event::Rush, sh));
    assert(run::<In>(State::Idle, Event::Rush, sh) == (Ok::<(), Infallible>(()), State::Entry, sh));
}

} // verus!
