//! The decisions of the registrar worker around each job: what a pop from the job queue hands
//! over, which handler a job goes to, and what is recorded and counted once it ran.

use vstd::prelude::*;
use super::jobs::{RegistrarJobKind, RegistrarRenderKinds};
use crate::redis::{popped, spec_popped, Popped, QueueResponse};
use crate::schema::jobs::{JobResult, SuccessfulJobResult};

verus! {

/// What a pop from the registrar's job queue handed over.
#[derive(Debug, Clone, PartialEq, Eq)]
pub enum JobPop {
    /// The queue is empty: the worker is done for now.
    Drained,
    /// The response held no job: it is skipped, and counts as no job worked.
    Skipped,
    /// A sealed job, to be opened and worked.
    Sealed(String),
}

/// What a pop from the registrar's job queue hands over, by the entry the pop produced.
pub open spec fn spec_job_pop(response: QueueResponse) -> JobPop {
    match spec_popped(response) {
        Popped::Empty => JobPop::Drained,
        Popped::Unexpected => JobPop::Skipped,
        Popped::Payload(sealed) => JobPop::Sealed(sealed),
    }
}

/// Reads the response to a pop from the registrar's job queue.
pub fn job_pop(response: &QueueResponse) -> (pop: JobPop)
    ensures
        pop == spec_job_pop(*response),
{
    match popped(response) {
        Popped::Empty => JobPop::Drained,
        Popped::Unexpected => JobPop::Skipped,
        Popped::Payload(sealed) => JobPop::Sealed(sealed),
    }
}

/// The count reported when a pop leads to no job being worked: nothing at all for an empty
/// queue, and zero jobs for a response that held none or a sealed job that could not be opened.
pub fn unworked_count(pop: &JobPop) -> (count: Option<u8>)
    ensures
        count == if *pop is Drained {
            None::<u8>
        } else {
            Some(0u8)
        },
{
    match pop {
        JobPop::Drained => None,
        _ => Some(0),
    }
}

/// The work that handles a kind of job.
#[derive(Debug, Clone, Copy, PartialEq, Eq)]
pub enum JobHandler {
    /// Applies a transition to the rendered state of a device.
    DeviceStateTransition,
    /// Renders the current state of a device.
    CurrentStateRender,
    /// Stores a refreshed access token of a user.
    AccessTokenRefresh,
    /// Queues the registration scannable of a device.
    RegistrationScannable,
    /// Sends an uploaded image to a device.
    ImageSend,
    /// Runs the schedule of a device now.
    ScheduleRun,
    /// Turns the default schedule of a device on or off.
    ScheduleToggle,
    /// Renames a device.
    DeviceRename,
    /// Changes who may use a device.
    OwnershipChange,
    /// Claims a device for a user.
    OwnershipClaim,
}

/// The handler of each kind of job.
pub open spec fn spec_job_handler(kind: RegistrarJobKind) -> JobHandler {
    match kind {
        RegistrarJobKind::MutateDeviceState(_) => JobHandler::DeviceStateTransition,
        RegistrarJobKind::Renders(RegistrarRenderKinds::CurrentDeviceState(_)) => {
            JobHandler::CurrentStateRender
        },
        RegistrarJobKind::Renders(RegistrarRenderKinds::RegistrationScannable(_)) => {
            JobHandler::RegistrationScannable
        },
        RegistrarJobKind::Renders(RegistrarRenderKinds::SendImage { .. }) => JobHandler::ImageSend,
        RegistrarJobKind::UserAccessTokenRefresh { .. } => JobHandler::AccessTokenRefresh,
        RegistrarJobKind::RunDeviceSchedule { .. } => JobHandler::ScheduleRun,
        RegistrarJobKind::ToggleDefaultSchedule { .. } => JobHandler::ScheduleToggle,
        RegistrarJobKind::Rename(_) => JobHandler::DeviceRename,
        RegistrarJobKind::OwnershipChange(_) => JobHandler::OwnershipChange,
        RegistrarJobKind::Ownership(_) => JobHandler::OwnershipClaim,
    }
}

/// Picks the handler of a job.
pub fn job_handler(kind: &RegistrarJobKind) -> (handler: JobHandler)
    ensures
        handler == spec_job_handler(*kind),
{
    match kind {
        RegistrarJobKind::MutateDeviceState(_) => JobHandler::DeviceStateTransition,
        RegistrarJobKind::Renders(RegistrarRenderKinds::CurrentDeviceState(_)) => {
            JobHandler::CurrentStateRender
        },
        RegistrarJobKind::Renders(RegistrarRenderKinds::RegistrationScannable(_)) => {
            JobHandler::RegistrationScannable
        },
        RegistrarJobKind::Renders(RegistrarRenderKinds::SendImage { .. }) => JobHandler::ImageSend,
        RegistrarJobKind::UserAccessTokenRefresh { .. } => JobHandler::AccessTokenRefresh,
        RegistrarJobKind::RunDeviceSchedule { .. } => JobHandler::ScheduleRun,
        RegistrarJobKind::ToggleDefaultSchedule { .. } => JobHandler::ScheduleToggle,
        RegistrarJobKind::Rename(_) => JobHandler::DeviceRename,
        RegistrarJobKind::OwnershipChange(_) => JobHandler::OwnershipChange,
        RegistrarJobKind::Ownership(_) => JobHandler::OwnershipClaim,
    }
}

/// What is recorded of a job, and how many jobs it counts for, once its handler returned.
///
/// `handled` is what the handler gave back: `Ok(true)` when it did its work, `Ok(false)` when it
/// found nothing to do, or the message of its failure. A handler that succeeded records a
/// terminal success, one that failed records its message. The job counts as one worked, except
/// a schedule run that found its request stale, which counts as none.
pub fn job_outcome(handler: JobHandler, handled: Result<bool, String>) -> (outcome: (JobResult, u8))
    ensures
        outcome.0 == match handled {
            Ok(_) => JobResult::Success(SuccessfulJobResult::Terminal),
            Err(message) => JobResult::Failure(message),
        },
        outcome.1 == if handler == JobHandler::ScheduleRun && handled == Ok::<bool, String>(false) {
            0u8
        } else {
            1u8
        },
{
    let count: u8 = match (&handler, &handled) {
        (JobHandler::ScheduleRun, Ok(false)) => 0,
        _ => 1,
    };
    let recorded = match handled {
        Ok(_) => JobResult::Success(SuccessfulJobResult::Terminal),
        Err(message) => JobResult::Failure(message),
    };
    (recorded, count)
}

} // verus!
