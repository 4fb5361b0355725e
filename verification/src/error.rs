//! The error taxonomy shared by every fallible core operation.

use vstd::prelude::*;

verus! {

/// Why a core operation could not be carried out.
#[derive(Clone, Copy, Debug, PartialEq, Eq, Structural)]
pub enum IndicatorError {
    /// No default endpoint exists for the requested role.  Transient and
    /// expected whenever all devices of one kind are removed; callers must
    /// tolerate it rather than abort.
    DeviceUnavailable,
    /// The icon-source descriptor read from a device's property store is
    /// malformed.
    InvalidIconDescriptor,
    /// An underlying operating-system call reported failure.
    OsCallFailed,
    /// The process-wide state was torn down or never initialised.
    StateMissing,
}

impl IndicatorError {
    /// A short readable name for logs.
    pub fn name(&self) -> (s: &'static str)
        ensures
            self is DeviceUnavailable ==> s@ == "device unavailable"@,
            self is InvalidIconDescriptor ==> s@ == "invalid icon descriptor"@,
            self is OsCallFailed ==> s@ == "OS call failed"@,
            self is StateMissing ==> s@ == "state missing"@,
    {
        match self {
            IndicatorError::DeviceUnavailable => "device unavailable",
            IndicatorError::InvalidIconDescriptor => "invalid icon descriptor",
            IndicatorError::OsCallFailed => "OS call failed",
            IndicatorError::StateMissing => "state missing",
        }
    }
}

} // verus!
