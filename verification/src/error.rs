//! Errors that a person can be expected to run into.

use vstd::prelude::*;

verus! {

/// An error type that knows which of its errors are expected: those that
/// tell the person at the machine what to do, not that the installer broke.
pub trait HasExpectedErrors: Sized {
    /// Whether the error is an expected one.
    spec fn is_expected(&self) -> bool;

    /// The error itself where it is an expected one.
    fn expected(&self) -> (expected: Option<&Self>)
        ensures
            expected == (if self.is_expected() {
                Some(self)
            } else {
                None
            }),
    ;
}

} // verus!
