//! One round of the registrar worker: how large the id pool is kept, how many jobs are worked
//! through, and what is reported of the job queue.

use vstd::prelude::*;
use crate::redis::{QueueResponse, QueueValue};

verus! {

/// The minimum amount of ids kept in the pool when none is configured.
pub const DEFAULT_POOL_MINIMUM: u8 = 3;

/// The most jobs worked through in one round.
pub const DEFAULT_JOB_BATCH_SIZE: u8 = 50;

/// The minimum amount of ids kept in the pool.
pub fn pool_minimum(configured: Option<u8>) -> (minimum: u8)
    ensures
        minimum == match configured {
            Some(m) => m,
            None => DEFAULT_POOL_MINIMUM,
        },
{
    match configured {
        Some(m) => m,
        None => DEFAULT_POOL_MINIMUM,
    }
}

/// The sample reported of the job queue's length: the length answered by redis, kept to its low
/// sixteen bits, and zero for any other answer.
pub open spec fn spec_queue_length_sample(response: QueueResponse) -> u16 {
    match response {
        QueueResponse::Item(QueueValue::Integer(value)) => value as u16,
        _ => 0,
    }
}

/// Reads the sample reported of the job queue's length.
pub fn queue_length_sample(response: &QueueResponse) -> (sample: u16)
    ensures
        sample == spec_queue_length_sample(*response),
{
    match response {
        QueueResponse::Item(QueueValue::Integer(value)) => {
            let v = *value;
            #[verifier::truncate]
            (v as u16)
        },
        _ => 0,
    }
}

/// The progress of a round through the job queue.
#[derive(Debug, Clone, Copy, PartialEq, Eq)]
pub struct JobBatch {
    /// The jobs processed so far.
    pub processed: u8,
    /// The length of the queue sampled at the start of the round.
    pub pending: u16,
}

/// Whether a round works through another job: the queue was not empty when the round started,
/// and fewer than `DEFAULT_JOB_BATCH_SIZE` jobs were processed.
pub open spec fn spec_wants_more(batch: JobBatch) -> bool {
    batch.pending > 0 && batch.processed < DEFAULT_JOB_BATCH_SIZE
}

impl JobBatch {
    /// Starts a round, given the sampled length of the queue.
    pub fn new(pending: u16) -> (batch: Self)
        ensures
            batch == (JobBatch { processed: 0, pending }),
    {
        JobBatch { processed: 0, pending }
    }

    /// Whether the round works through another job.
    pub fn wants_more(&self) -> (more: bool)
        ensures
            more == spec_wants_more(*self),
    {
        self.pending > 0 && self.processed < DEFAULT_JOB_BATCH_SIZE
    }

    /// Records the outcome of an attempt at a job: the amount of jobs it processed, or none when
    /// the queue was empty, which ends the round.
    pub fn record(self, outcome: Option<u8>) -> (next: Option<Self>)
        requires
            spec_wants_more(self),
            outcome matches Some(amount) ==> amount <= 1,
        ensures
            match outcome {
                Some(amount) => next == Some(
                    JobBatch { processed: (self.processed + amount) as u8, ..self },
                ),
                None => next is None,
            },
    {
        match outcome {
            Some(amount) => Some(JobBatch { processed: self.processed + amount, ..self }),
            None => None,
        }
    }
}

/// A round never processes more than `DEFAULT_JOB_BATCH_SIZE` jobs: every attempt it makes
/// processes at most one, and it makes none once that many were processed.
pub proof fn law_batches_are_bounded(batch: JobBatch, amount: u8)
    requires
        batch.processed <= DEFAULT_JOB_BATCH_SIZE,
        amount <= 1,
    ensures
        spec_wants_more(batch) ==> batch.processed + amount <= DEFAULT_JOB_BATCH_SIZE,
        batch.processed == DEFAULT_JOB_BATCH_SIZE ==> !spec_wants_more(batch),
{
}

} // verus!
