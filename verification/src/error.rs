//! Errors

use vstd::prelude::*;

verus! {

/// Tried to read something, but not enough bytes left in the buffer
#[derive(Debug, PartialEq, Eq, Clone, Copy, Structural)]
pub struct Truncated;

/// Called `should_be_exhausted`, but found bytes remaining
#[derive(Debug, PartialEq, Eq, Clone, Copy, Structural)]
pub struct ExtraneousBytes;

/// Errors that can occur when deserialising objects from a buffer
#[derive(Debug, PartialEq, Eq, Clone, Copy, Structural)]
#[non_exhaustive]
pub enum Error {
    /// Tried to read something, but not enough bytes left in the buffer
    Truncated(Truncated),
    /// Found bytes remaining where an object should have ended
    ExtraneousBytes(ExtraneousBytes),
}

impl From<Truncated> for Error {
    fn from(e: Truncated) -> (r: Error)
        ensures
            r == Error::Truncated(Truncated),
    {
        Error::Truncated(e)
    }
}

impl vstd::std_specs::convert::FromSpecImpl<Truncated> for Error {
    open spec fn obeys_from_spec() -> bool {
        true
    }

    open spec fn from_spec(e: Truncated) -> Error {
        Error::Truncated(e)
    }
}

impl From<ExtraneousBytes> for Error {
    fn from(e: ExtraneousBytes) -> (r: Error)
        ensures
            r == Error::ExtraneousBytes(ExtraneousBytes),
    {
        Error::ExtraneousBytes(e)
    }
}

impl vstd::std_specs::convert::FromSpecImpl<ExtraneousBytes> for Error {
    open spec fn obeys_from_spec() -> bool {
        true
    }

    open spec fn from_spec(e: ExtraneousBytes) -> Error {
        Error::ExtraneousBytes(e)
    }
}

} // verus!
