//! What can go wrong between the daemon and the scripts.

use vstd::prelude::*;

verus! {

/// A fetch that gave no events, with its cause. The poll loop ends on it.
#[derive(Debug, Clone, PartialEq, Eq)]
pub enum NetworkError {
    /// The request did not reach the daemon, or no answer came back.
    Transport(String),
    /// The daemon answered with a status outside 200 to 299.
    Status(u16),
    /// The answer is no list of event records.
    Body,
}

/// Why a script was not started.
#[derive(Debug, Clone, PartialEq, Eq)]
pub enum SpawnError {
    /// There is no such script.
    NotFound,
    /// The script may not be run.
    PermissionDenied,
    /// The system could not start another process, or refused for a reason
    /// of its own.
    Other(String),
}

} // verus!
