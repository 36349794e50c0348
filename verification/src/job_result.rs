//! The enumerated result set of the background jobs, in its first form.

use vstd::prelude::*;

verus! {

/// The enumerated result set of all background jobs.
#[derive(Debug, Clone, PartialEq, Eq)]
pub enum JobResult {
    /// The job is currently pending.
    Pending,
    /// A success without any more info.
    Success,
    /// A failure with a reason.
    Failure(String),
}

} // verus!
