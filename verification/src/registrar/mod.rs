//! The rules of the registrar: the background worker that runs jobs, manages the pool of device
//! ids, and keeps the rendered state of every device.

/// One round of the registrar worker.
pub mod batch;

/// The rendered device state and its transitions.
pub mod device_state;

/// Who may do what to a device.
pub mod access;

/// Changes to who owns and may use a device.
pub mod ownership;

/// The jobs the registrar works through.
pub mod jobs;
pub use jobs::{RegistrarJob, RegistrarJobKind};

/// Storing the vendor tokens of users.
pub mod users;

/// What the worker does around each job it pops.
pub mod work;

/// The rename device job.
pub mod rename;
pub use rename::DeviceRenameRequest;

/// Running and configuring device schedules.
pub mod device_schedule;

/// Things that happen on a schedule.
pub mod schedule;

/// The pool of ids for new devices.
pub mod pool;

/// Keeping track of the devices that are heard from.
pub mod diagnostics;

use vstd::prelude::*;

verus! {

/// The bundle of the configuration schemas the registrar uses.
#[derive(Debug, Clone, PartialEq, Eq)]
pub struct Configuration {
    /// The redis configuration.
    pub redis: crate::config::RedisConfiguration,
    /// The database configuration.
    pub mongo: crate::config::MongoConfiguration,
    /// The calendar vendor configuration.
    pub google: crate::config::GoogleConfiguration,
    /// The configuration specific to maintaining a registration of available ids.
    pub registrar: crate::config::RegistrarConfiguration,
}

} // verus!
