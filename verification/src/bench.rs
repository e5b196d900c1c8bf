//! Error values of the on-board benchmarking facilities.

use vstd::prelude::*;

verus! {

/// Possible errors happening when benchmarking.
#[derive(Clone, Copy, PartialEq, Eq, Structural, Debug)]
pub enum Error {
    /// The system timer wrapped when benchmarking.
    SystemTimerWrapped,
}

impl Error {
    /// A human-readable description of the error.
    pub fn message(&self) -> (r: &'static str)
        ensures
            r@ == "system timer wrapped"@,
    {
        "system timer wrapped"
    }
}

} // verus!
