use vstd::prelude::*;

verus! {

/// The enumerated result of the kinds of "success" a job may have.
#[derive(Debug, Clone, PartialEq, Eq)]
pub enum SuccessfulJobResult {
    /// This job was run to completion.
    Terminal,
    /// This job caused other jobs to immediately run.
    Percolated(Vec<String>),
}

/// The enumerated result set of all background jobs.
#[derive(Debug, Clone, PartialEq, Eq)]
pub enum JobResult {
    /// The job is currently pending.
    Pending,
    /// A success.
    Success(SuccessfulJobResult),
    /// A failure with a reason.
    Failure(String),
}

impl JobResult {
    /// What is recorded of a job once it ran: a terminal success, or the failure's message.
    pub fn recorded(failure: Option<String>) -> (result: Self)
        ensures
            match failure {
                Some(message) => result == JobResult::Failure(message),
                None => result == JobResult::Success(SuccessfulJobResult::Terminal),
            },
    {
        match failure {
            Some(message) => JobResult::Failure(message),
            None => JobResult::Success(SuccessfulJobResult::Terminal),
        }
    }
}

} // verus!
