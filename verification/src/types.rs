//! The earlier schema of the records kept for users and devices.

use vstd::prelude::*;
use std::collections::HashMap;

verus! {

/// Our user record, in its earlier schema.
#[derive(Debug, Clone)]
pub struct User {
    /// The oauth ID of this user.
    pub oid: String,
    /// An avatar for this user to render.
    pub picture: String,
    /// The device ids this user has access to.
    pub devices: Option<HashMap<String, u8>>,
}

/// The authority models of the earlier schema.
#[derive(Debug, Clone, PartialEq, Eq)]
pub enum DeviceAuthorityModel {
    /// Only a single user can manage the device.
    Exclusive(String),
    /// The owner and a list of users can manage the device.
    Shared(String, Vec<String>),
}

/// The records of the `device_authorities` collection, in the earlier schema.
#[derive(Debug, Clone, PartialEq, Eq)]
pub struct DeviceAuthorityRecord {
    /// The id of a device.
    pub device_id: String,
    /// The model.
    pub authority_model: Option<DeviceAuthorityModel>,
}

/// Who first registered a device, in the earlier schema.
#[derive(Debug, Clone, PartialEq, Eq)]
pub struct DeviceDiagnosticOwnership {
    /// The id of the user that first registered this device.
    pub original_owner: String,
}

/// The registration states of a device, in the earlier schema.
#[derive(Debug, Clone, PartialEq, Eq)]
pub enum DeviceDiagnosticRegistration {
    /// We have seen the device, but nobody has claimed it yet.
    Initial,
    /// We have heard from the device, and sent it the initial image.
    PendingRegistration,
    /// Some user has claimed the device.
    Owned(DeviceDiagnosticOwnership),
}

} // verus!
