//! The two ways an operation on an event handle can fail.
use vstd::prelude::*;

verus! {

/// Why an operation produced no result.
#[derive(Clone, Copy, Debug, PartialEq, Eq, Structural, Hash)]
pub enum EventError {
    /// The native layer returned no resource for a creation call.
    AllocationFailure,
    /// The platform has no call that posts to a single process.
    UnsupportedCapability,
}

impl EventError {
    /// A short description for logs and messages.
    pub fn message(&self) -> (text: &'static str)
        ensures
            text@ == (match *self {
                EventError::AllocationFailure => "the native layer returned no event resource"@,
                EventError::UnsupportedCapability =>
                    "posting to a single process is not supported on this platform"@,
            }),
    {
        match self {
            EventError::AllocationFailure => "the native layer returned no event resource",
            EventError::UnsupportedCapability =>
                "posting to a single process is not supported on this platform",
        }
    }
}

} // verus!
