use vstd::prelude::*;

verus! {

/// What can stop a session: one variant per origin of the failure.
#[derive(Debug)]
pub enum MyError {
    /// The window could not be built; the platform's message.
    SDL2WindowBuildError(String),
    /// A playfield dimension does not give a valid pixel coordinate.
    NumTryFromIntError,
    /// Any other platform failure; its message.
    OtherError(String),
}

impl MyError {
    pub open spec fn is_conversion(&self) -> bool {
        self is NumTryFromIntError
    }
}

} // verus!
