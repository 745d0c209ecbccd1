use crate::err::IsError;
use vstd::prelude::*;

verus! {

/// The outcome of evaluating one event against the current state.
#[derive(Debug)]
pub enum Flow<T, E, B> {
    /// The event is absorbed: the state stays as it is.
    Pass,
    /// Commit a new state.
    Transition(T),
    /// Commit a new state, then dispatch another event within the same call.
    Slide(T, B),
    /// Abort: the state stays as it is and the error reaches the caller.
    Failure(E),
}

impl<T, E, B> Flow<T, E, B> {
    /// Turns the error of a failed sub-operation into a `Failure`, converting it
    /// into the engine's error type.
    pub fn from_residual<V, X: Into<E>>(residual: Result<V, X>) -> (r: Self)
        requires
            residual is Err,
        ensures
            r is Failure,
            call_ensures(X::into, (residual->Err_0,), r->Failure_0),
    {
        match residual {
            Err(err) => Flow::Failure(err.into()),
            // excluded by the precondition
            Ok(_) => Flow::Pass,
        }
    }

    /// Try-or-fail: hands back the value of a successful sub-operation, or the
    /// `Failure` that the enclosing transition function is to return at once.
    pub fn attempt<V, X: Into<E>>(result: Result<V, X>) -> (r: Result<V, Self>)
        ensures
            result is Ok <==> r is Ok,
            result is Ok ==> r->Ok_0 == result->Ok_0,
            result is Err ==> r->Err_0 is Failure && call_ensures(
                X::into,
                (result->Err_0,),
                r->Err_0->Failure_0,
            ),
    {
        match result {
            Ok(v) => Ok(v),
            Err(err) => Err(Self::from_residual(Err::<V, X>(err))),
        }
    }
}

impl<T, E, B> IsError for Flow<T, E, B> {
    open spec fn marks_error(&self) -> bool {
        self is Failure
    }

    fn is_error(&self) -> (r: bool) {
        matches!(self, Flow::Failure(_))
    }
}

} // verus!
