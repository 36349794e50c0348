//! Verified core of the beetle device platform: the redis wire-protocol readers used by devices,
//! the rendering layouts, and the decision rules of the registrar.

/// Texts: trimming, prefixes and suffixes, and decimal spellings.
pub mod text;

/// Urls built from configured addresses.
pub mod links;

/// Key names shared by every process.
pub mod constants;

/// Helpers around the redis keys used by devices.
pub mod redis;

/// The incremental reader of redis responses used by the mock device.
pub mod redis_reader;

/// What the redis reader is proved to do on well formed input.
pub mod redis_reader_laws;

/// What the size and bulk string collectors give when each is fed on its own.
pub mod collector_laws;

/// The character-level reader used by the firmware mock.
pub mod mock_reader;

/// Clock readings and the formatting of instants.
pub mod time;

/// Sealed tokens: signed claims with an expiry.
pub mod tokens;

/// Layouts rendered onto devices.
pub mod rendering;

/// Schemas of the calendar vendor.
pub mod vendor;

/// The records persisted by the platform.
pub mod schema;

/// The rules of the background registrar.
pub mod registrar;

/// The configuration shared by every process.
pub mod config;

/// The decisions of the web api.
pub mod api;

/// The decisions of the administration command line tool.
pub mod cli;

/// The runtime metrics reported to the analytics platform.
pub mod reporting;

/// The earlier schema of the records kept for users and devices.
pub mod types;

/// The enumerated result set of the background jobs, in its first form.
pub mod job_result;

/// What the device mocks make of the responses they read.
pub mod mock_device;

/// The rules of the daemon that updates other background applications from their releases.
pub mod updater;

/// The minifier that turns an html page into the http response a device serves.
pub mod wchgen;
