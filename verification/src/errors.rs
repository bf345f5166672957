use vstd::prelude::*;

verus! {

/// Outcome of a failed verification attempt.
///
/// Equality compares the kind of failure only; no diagnostic payload is
/// carried, so two time faults always compare equal.
#[derive(Debug, PartialEq, Eq, Structural)]
pub enum VerifyError {
    /// The system clock could not be read, or read a time too early to
    /// derive a usable time step.
    Time,
    /// The code matched neither a scratch code nor a valid time-stepped code.
    InvalidCode,
    /// The code was valid, but this time step already produced one
    /// accepted verification and reuse is forbidden.
    CodeUsed,
}

impl VerifyError {
    /// A stable numeric tag for each kind of failure.
    pub fn as_u8(&self) -> (r: u8)
        ensures
            r == match self {
                VerifyError::Time => 1u8,
                VerifyError::InvalidCode => 2u8,
                VerifyError::CodeUsed => 3u8,
            },
    {
        match self {
            VerifyError::Time => 1,
            VerifyError::InvalidCode => 2,
            VerifyError::CodeUsed => 3,
        }
    }
}

} // verus!
