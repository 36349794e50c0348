//! The rename device job.

use vstd::prelude::*;

verus! {

/// A request to rename a device.
#[derive(Debug, Clone, PartialEq, Eq)]
pub struct DeviceRenameRequest {
    /// The device.
    pub device_id: String,
    /// The name.
    pub new_name: String,
}

} // verus!
