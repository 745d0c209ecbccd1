//! `turbostate`: a runtime for finite state machines.
//!
//! An author implements [`Engine`]: the state, event, shared-context and error
//! types, and a pure transition function that maps one event to one [`Flow`].
//! A [`Machine`] owns the live state and the shared context and drives the
//! transition function, following chains of re-dispatched events.

pub mod engine;
pub mod err;
pub mod flow;
pub mod laurent;
pub mod machine;
pub mod sloop;

pub use engine::Engine;
pub use err::IsError;
pub use flow::Flow;
pub use machine::{Machine, Store};
