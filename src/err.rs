use vstd::prelude::*;

verus! {

/// A type some of whose values stand for an error.
pub trait IsError {
    /// Whether this value is one of the error values.
    spec fn marks_error(&self) -> bool;

    /// Tells whether this value is one of the error values.
    fn is_error(&self) -> (r: bool)
        ensures
            r == self.marks_error(),
    ;
}

} // verus!
