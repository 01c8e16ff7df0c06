//! The two failure kinds of the tool.  Both are fatal: the process table
//! could not be opened (or the watch could not be set up), or reading an
//! event batch failed after the watch was established.

use vstd::prelude::*;

verus! {

/// Why a listing or watching operation failed.
#[derive(Clone, Copy, Debug, PartialEq, Eq, Structural)]
pub enum OsError {
    /// An operating-system resource (process table, notification channel)
    /// could not be opened or attached.
    ResourceUnavailable,
    /// A read from an established notification channel failed.
    ReadFailure,
}

impl OsError {
    /// A fixed human-readable description of the failure kind.
    pub fn message(&self) -> (m: &'static str)
        ensures
            *self is ResourceUnavailable ==> m@ == "OS resource unavailable"@,
            *self is ReadFailure ==> m@ == "read failure"@,
    {
        match self {
            OsError::ResourceUnavailable => "OS resource unavailable",
            OsError::ReadFailure => "read failure",
        }
    }
}

} // verus!
