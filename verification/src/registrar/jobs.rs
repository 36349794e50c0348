//! The jobs the registrar works through.

use vstd::prelude::*;
use super::device_state::DeviceStateTransitionRequest;
use super::ownership::{DeviceOwnershipChangeRequest, DeviceOwnershipRequest};
use super::rename::DeviceRenameRequest;
use crate::vendor::google::TokenHandle;
use crate::time::{day_after, epoch_seconds, seconds_a_day_from_now, timestamp_in_range};

verus! {

/// Rendering jobs specific to the registrar.
#[derive(Debug, Clone, PartialEq, Eq)]
pub enum RegistrarRenderKinds {
    /// Queues a render of the registration scannable for the device with this id.
    RegistrationScannable(String),
    /// Renders the current state of the device with this id.
    CurrentDeviceState(String),
    /// Sends an uploaded image to a device.
    SendImage {
        /// Where the image was stored.
        location: String,
        /// The id of the device.
        device_id: String,
    },
}

/// The individual kinds of jobs.
#[derive(Debug, Clone, PartialEq)]
pub enum RegistrarJobKind {
    /// A job queued to request ownership.
    Ownership(DeviceOwnershipRequest),
    /// A job queued to request an update to the ownership model.
    OwnershipChange(DeviceOwnershipChangeRequest),
    /// Renaming devices can be expensive; it is a job.
    Rename(DeviceRenameRequest),
    /// These jobs mutate the current "rendered" device state.
    MutateDeviceState(DeviceStateTransitionRequest),
    /// An immediate attempt to run the schedule for a device.
    RunDeviceSchedule {
        /// The id of the device.
        device_id: String,
        /// The nonce this execution was queued with, if any.
        refresh_nonce: Option<String>,
    },
    /// Turns on or off the default schedule for a device, given a user whose calendar would be
    /// used.
    ToggleDefaultSchedule {
        /// Whether to enable or disable.
        should_enable: bool,
        /// The id of the device in question.
        device_id: String,
        /// The id of the user who is claiming the default schedule.
        user_id: String,
    },
    /// Render jobs specific to the registrar.
    Renders(RegistrarRenderKinds),
    /// Processes a new access token for a given user.
    UserAccessTokenRefresh {
        /// The handle wrapping an access token.
        handle: TokenHandle,
        /// The id of our user associated with this access token.
        user_id: String,
    },
}

/// The job container: a unique id and the job.
#[derive(Debug, Clone, PartialEq)]
pub struct RegistrarJob {
    /// A unique id for this request.
    pub id: String,
    /// The inner job type.
    pub job: RegistrarJobKind,
}

/// The sealed form of a job: the job together with the expiry of its seal.
#[derive(Debug, Clone, PartialEq)]
pub struct RegistrarJobEncrypted {
    /// The expiry of the seal, in seconds since the unix epoch.
    pub exp: u32,
    /// The inner job.
    pub job: RegistrarJob,
}

impl RegistrarJob {
    /// Seals a job for the queue: the job together with the expiry of its seal, a day from now,
    /// in whole seconds kept to a `u32`.
    pub fn seal(self) -> (sealed: RegistrarJobEncrypted)
        ensures
            sealed.job == self,
            exists|now: i64, fallback: i64|
                timestamp_in_range(now) && timestamp_in_range(fallback) && sealed.exp
                    == epoch_seconds(day_after(now, fallback)) as u32,
    {
        let seconds = seconds_a_day_from_now();
        let exp = #[verifier::truncate] (seconds as u32);
        RegistrarJobEncrypted { exp, job: self }
    }
}

} // verus!
