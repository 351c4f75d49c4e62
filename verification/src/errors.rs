//! The pipeline's error taxonomy and the per-asset outcome record.
//!
//! Run-level failures (`RunAbortedError`) abandon a run before any
//! download starts; per-asset failures are contained in that asset's
//! `FetchOutcome` and never abort sibling work.

use vstd::prelude::*;

verus! {

/// Failure of one network retrieval.
#[derive(Clone, Copy, PartialEq, Eq, Structural, Debug)]
pub enum FetchError {
    /// Connection, DNS or TLS failure.
    Network,
    /// The remote host answered with a non-success status.
    RemoteStatus,
    /// The body transfer was truncated or interrupted.
    BodyRead,
}

/// Failure to derive or prepare a destination path for one asset.
#[derive(Clone, Copy, PartialEq, Eq, Structural, Debug)]
pub enum PlanError {
    /// The asset's name held no filesystem-safe character at all.
    UnsafeName,
    /// The destination directory could not be created.
    DirectoryCreate,
}

/// A run-level failure: the run is abandoned before any download.
#[derive(Clone, Copy, PartialEq, Eq, Structural, Debug)]
pub enum RunAbortedError {
    /// The server context could not be resolved from the trigger.
    ServerUnresolved,
    /// The asset-listing call failed.
    ListingFailed,
}

/// Why one asset's archive attempt failed.
#[derive(Clone, Copy, PartialEq, Eq, Structural, Debug)]
pub enum FailureReason {
    /// The retrieval itself failed.
    Fetch(FetchError),
    /// The destination path could not be derived or prepared.
    Plan(PlanError),
    /// The retrieved bytes could not be written durably.
    Write,
}

/// The recorded result of one asset's archive attempt; written once,
/// never mutated.
pub enum FetchOutcome {
    /// The asset was retrieved and written.
    Success { bytes_written: u64, path: String },
    /// The asset could not be archived; siblings are unaffected.
    Failure { reason: FailureReason },
}

impl FetchOutcome {
    /// Whether this outcome records a successful write.
    pub open spec fn is_success(&self) -> bool {
        self is Success
    }

    /// Returns whether this outcome records a successful write.
    pub fn succeeded(&self) -> (r: bool)
        ensures
            r == self.is_success(),
    {
        match self {
            FetchOutcome::Success { .. } => true,
            FetchOutcome::Failure { .. } => false,
        }
    }
}

impl RunAbortedError {
    /// The notification shown to the triggering user when a run is
    /// abandoned.
    pub fn message(&self) -> (r: String)
        ensures
            *self == RunAbortedError::ServerUnresolved ==> r@ == "Archive could not start: server could not be resolved."@,
            *self == RunAbortedError::ListingFailed ==> r@ == "Archive could not start: asset listing failed."@,
    {
        match self {
            RunAbortedError::ServerUnresolved => String::from_str(
                "Archive could not start: server could not be resolved.",
            ),
            RunAbortedError::ListingFailed => String::from_str(
                "Archive could not start: asset listing failed.",
            ),
        }
    }
}

} // verus!
