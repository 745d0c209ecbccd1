use crate::engine::run;
use crate::machine::Machine;
use crate::sloop::{Event, In};
use vstd::prelude::*;

verus! {

/// The relay outputs of a Laurent controller. Switching a relay acts on the
/// outside world and leaves the controller as it was.
#[derive(Debug, Default, Clone, Copy, PartialEq, Eq, Structural)]
pub struct LaurentCtl;

impl LaurentCtl {
    /// Switches relay `r` open (`high`) or closed.
    pub fn relay(&mut self, r: u32, high: bool)
        ensures
            *final(self) == *old(self),
    {
    }
}

/// What reacts to a change of signal on a controller's inputs.
pub trait Subscriber: Sized {
    /// How `ein` may change the subscriber.
    spec fn ein_effect(before: Self, after: Self, line: u32, high: bool) -> bool;

    /// The signal on input `line` changed to `high`; `ctl` switches the
    /// controller's relays.
    fn ein(&mut self, ctl: &mut LaurentCtl, line: u32, high: bool)
        ensures
            Self::ein_effect(*old(self), *final(self), line, high),
    ;
}

/// The entry lane listens to the radar lines: each change of signal is
/// dispatched to it as an `Ein` event. The lane switches no relay.
impl Subscriber for Machine<In> {
    open spec fn ein_effect(before: Self, after: Self, line: u32, high: bool) -> bool {
        &&& after@.0 == run::<In>(before@.0, Event::Ein(line, high), before@.1).1
        &&& after@.1 == run::<In>(before@.0, Event::Ein(line, high), before@.1).2
    }

    fn ein(&mut self, ctl: &mut LaurentCtl, line: u32, high: bool) {
        let _ = self.fire(Event::Ein(line, high));
    }
}

/// A Laurent controller: its relay outputs, and the subscriber that hears of
/// changes on its inputs.
#[derive(Debug)]
pub struct Laurent<S: Subscriber> {
    sub: S,
    ctl: LaurentCtl,
}

impl<S: Subscriber> View for Laurent<S> {
    type V = S;

    closed spec fn view(&self) -> S {
        self.sub
    }
}

impl<S: Subscriber> Laurent<S> {
    /// A controller that reports to `sub`.
    pub fn new(sub: S) -> (r: Self)
        ensures
            r@ == sub,
    {
        Laurent { sub, ctl: LaurentCtl }
    }

    /// A change of signal on input `line` to `high`, handed to the subscriber.
    pub fn emit_ein(&mut self, line: u32, high: bool)
        ensures
            S::ein_effect(old(self)@, final(self)@, line, high),
    {
        self.sub.ein(&mut self.ctl, line, high);
    }

    /// The subscriber.
    pub fn subscriber(&self) -> (r: &S)
        ensures
            *r == self@,
    {
        &self.sub
    }
}

} // verus!
