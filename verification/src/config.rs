//! The configuration shared across the different executables.

use vstd::prelude::*;

verus! {

/// The configuration of our redis connection.
#[derive(Debug, Clone, PartialEq, Eq)]
pub struct RedisConfiguration {
    /// The host; e.g `redis.example.io`.
    pub host: String,
    /// The port; e.g `1231`.
    pub port: u16,
    /// The password to authenticate with.
    pub auth: Option<String>,
}

/// Calendar vendor client credential and endpoint configuration values.
#[derive(Debug, Clone, PartialEq, Eq)]
pub struct GoogleConfiguration {
    /// The scopes.
    pub scopes: Vec<String>,
    /// The client id.
    pub client_id: String,
    /// The client secret.
    pub client_secret: String,
    /// The redirect uri.
    pub redirect_uri: String,
}

/// Collection names.
#[derive(Debug, Clone, PartialEq, Eq)]
pub struct MongoCollectionsConfiguration {
    /// The collection which holds our list of users.
    pub users: String,
    /// The collection which holds permission information between devices and users.
    pub device_authorities: String,
    /// The collection of device information updated as devices interact with the server.
    pub device_diagnostics: String,
    /// Storage for scheduled device rendering.
    pub device_schedules: String,
    /// Storage for the history of messages sent to devices.
    pub device_histories: String,
    /// Storage of device states.
    pub device_states: String,
}

/// The database configuration.
#[derive(Debug, Clone, PartialEq, Eq)]
pub struct MongoConfiguration {
    /// The url of the database server.
    pub url: String,
    /// The database name.
    pub database: String,
    /// The collection names inside our database.
    pub collections: MongoCollectionsConfiguration,
}

/// The configuration specific to maintaining a registration of available ids.
#[derive(Debug, Clone, PartialEq, Eq)]
pub struct RegistrarConfiguration {
    /// The auth username that will be given on burn-in to devices.
    pub id_consumer_username: Option<String>,
    /// The auth password that will be given on burn-in to devices.
    pub id_consumer_password: Option<String>,
    /// The minimum amount of ids to maintain. If lower than this, we will refill.
    pub registration_pool_minimum: Option<u8>,
    /// The max amount of devices to update during an iteration of checking device activity.
    pub active_device_chunk_size: u8,
    /// Where to send devices on their initial connection.
    pub initial_scannable_addr: String,
    /// The secret used to seal jobs and vendor api access tokens.
    pub vendor_api_secret: String,
    /// The seconds between refreshes of a device schedule, when not the default.
    pub device_schedule_refresh_interval_seconds: Option<i64>,
    /// A delay between two runs of the registrar, in milliseconds.
    pub interval_delay_ms: Option<u64>,
}

} // verus!
