use std::convert::Infallible;
use turbostate::laurent::{Laurent, LaurentCtl};
use turbostate::sloop::{Event, In, Shared, State};
use turbostate::{Flow, IsError, Machine};

fn lane(state: State, hold: bool, rush: bool) -> Machine<In> {
    Machine::<In>::new_shared(state, Shared { hold, rush })
}

#[test]
fn in_loop_perfect_conditions() {
    let mut machine = Machine::<In>::default_shared(Default::default());

    let seq = &[
        (1, true),
        (2, true),
        (1, false),
        (3, true),
        (2, false),
        (3, false),
    ];

    for &(line, high) in seq {
        machine.fire(Event::Ein(line, high)).unwrap();
    }
}

#[test]
fn perfect_conditions_pass_through_every_state() {
    let mut machine = lane(State::Idle, false, false);
    let steps = [
        ((1, true), State::Entry),
        ((2, true), State::Entry),
        ((1, false), State::Entry),
        ((3, true), State::Finalizing),
        ((2, false), State::Finalizing),
        ((3, false), State::Idle),
    ];
    for &((line, high), expected) in steps.iter() {
        assert!(machine.fire(Event::Ein(line, high)).is_ok());
        assert_eq!(*machine.state(), expected);
    }
    assert_eq!(*machine.shared(), Shared { hold: false, rush: false });
}

#[test]
fn rush_slides_back_into_entry() {
    let mut machine = lane(State::Finalizing, false, true);
    assert!(machine.fire(Event::Ein(3, false)).is_ok());
    assert_eq!(*machine.state(), State::Entry);
    assert_eq!(*machine.shared(), Shared { hold: false, rush: true });
}

#[test]
fn rush_after_release_slides_back_into_entry() {
    let mut machine = lane(State::WaitRelease, true, true);
    assert!(machine.fire(Event::Ein(2, false)).is_ok());
    assert_eq!(*machine.state(), State::Entry);
    assert_eq!(*machine.shared(), Shared { hold: false, rush: true });
}

#[test]
fn occupied_line_two_waits_for_release() {
    let mut machine = lane(State::Finalizing, true, false);
    assert!(machine.fire(Event::Ein(3, false)).is_ok());
    assert_eq!(*machine.state(), State::WaitRelease);
    assert!(machine.fire(Event::Ein(2, false)).is_ok());
    assert_eq!(*machine.state(), State::Idle);
    assert_eq!(*machine.shared(), Shared { hold: false, rush: false });
}

#[test]
fn ignored_signal_keeps_state_and_records_flags() {
    let mut machine = lane(State::Idle, false, false);
    assert!(machine.fire(Event::Ein(3, true)).is_ok());
    assert_eq!(*machine.state(), State::Idle);
    assert!(machine.fire(Event::Ein(2, true)).is_ok());
    assert_eq!(*machine.state(), State::Idle);
    assert_eq!(*machine.shared(), Shared { hold: true, rush: false });
    assert!(machine.fire(Event::Ein(7, true)).is_ok());
    assert_eq!(*machine.shared(), Shared { hold: true, rush: false });
}

#[test]
fn rush_event_starts_entry_from_idle_only() {
    let mut machine = lane(State::Idle, false, false);
    assert!(machine.fire(Event::Rush).is_ok());
    assert_eq!(*machine.state(), State::Entry);
    assert!(machine.fire(Event::Rush).is_ok());
    assert_eq!(*machine.state(), State::Entry);
}

#[test]
fn constructors_set_state_and_shared() {
    let m = Machine::<In>::new(State::Finalizing);
    assert_eq!(*m.state(), State::Finalizing);
    assert_eq!(*m.shared(), Shared { hold: false, rush: false });
    let m = Machine::<In>::default_shared(Shared { hold: true, rush: true });
    assert_eq!(*m.state(), State::Idle);
    assert_eq!(*m.shared(), Shared { hold: true, rush: true });
    let m: Machine<In> = Default::default();
    assert_eq!(*m.state(), State::Idle);
    assert_eq!(*m.shared(), Shared { hold: false, rush: false });
}

#[test]
fn residual_becomes_failure() {
    let f = Flow::<State, u32, Event>::from_residual(Err::<(), u8>(5));
    assert!(matches!(f, Flow::Failure(5u32)));
    assert!(f.is_error());
    assert!(!Flow::<State, u32, Event>::Pass.is_error());
    assert!(!Flow::<State, u32, Event>::Transition(State::Entry).is_error());
}

#[test]
fn attempt_passes_values_and_fails_on_errors() {
    let ok = Flow::<State, u32, Event>::attempt(Ok::<i64, u8>(-3));
    assert!(matches!(ok, Ok(-3)));
    let err = Flow::<State, u32, Event>::attempt(Err::<i64, u8>(9));
    assert!(matches!(err, Err(Flow::Failure(9u32))));
}

#[test]
fn relay_leaves_controller_unchanged() {
    let mut ctl = LaurentCtl::default();
    ctl.relay(1, true);
    ctl.relay(2, false);
    assert_eq!(ctl, LaurentCtl);
}

#[test]
fn laurent_feeds_the_lane() {
    let mut laurent = Laurent::new(Machine::<In>::new_shared(State::Idle, Shared::default()));
    for &(line, high) in [(1, true), (2, true), (1, false), (3, true), (2, false)].iter() {
        laurent.emit_ein(line, high);
    }
    assert_eq!(*laurent.subscriber().state(), State::Finalizing);
    laurent.emit_ein(3, false);
    assert_eq!(*laurent.subscriber().state(), State::Idle);
}

#[test]
fn lane_never_fails() {
    let mut machine = lane(State::Entry, true, true);
    let r: Result<(), Infallible> = machine.fire(Event::Ein(3, true));
    assert!(r.is_ok());
    assert_eq!(*machine.state(), State::Finalizing);
}
