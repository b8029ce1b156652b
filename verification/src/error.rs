//! The error that a collaborator of the receiver reports.

use vstd::prelude::*;

verus! {

/// A failure of a service that the receiver relies on: writing the
/// daemon's configuration, restarting the daemon, playing a sound or
/// reading from the system.
#[derive(Debug, Clone, PartialEq, Eq)]
pub struct ServiceError {
    /// What went wrong, for the operator.
    pub message: String,
}

} // verus!
