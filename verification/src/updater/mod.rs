//! The rules of the updater daemon, which replaces the executables of other background
//! applications with the artifacts of their github releases and restarts their systemd units.

use vstd::prelude::*;

/// Semantic versions of releases.
pub mod version;

/// What a single run of a github release unit decides at each step.
pub mod release;

/// The decisions of the polling loop and of the daemon's api.
pub mod daemon;

verus! {

/// A "filter" used to find a specific artifact in the set of artifacts associated with a
/// release; effectively a dumb version of a regex.
#[derive(Debug, Clone, PartialEq, Eq)]
pub struct UpdaterConfigArtifactNaming {
    /// The prefix the artifacts share across all release versions.
    pub starts_with: String,
    /// The suffix the artifacts share across all release versions.
    pub ends_with: String,
}

/// Where the release artifact (a tar.gz file) is extracted to.
#[derive(Debug, Clone, PartialEq, Eq)]
pub struct UpdaterConfigExtractionRule {
    /// The location on the machine running the daemon that the artifact is extracted to.
    pub destination: String,
}

/// The systemd units restarted once an artifact has been installed.
#[derive(Debug, Clone, PartialEq, Eq)]
pub struct UpdaterConfigSystemdRule {
    /// The name of the service (single) to restart.
    pub service: Option<String>,
    /// The name of the services (multiple) to restart.
    pub services: Option<Vec<String>>,
}

/// The github updater configuration: download an artifact attached to a release named with
/// semantic versioning, extract its contents and restart systemd units.
#[derive(Debug, Clone, PartialEq, Eq)]
pub struct GithubUpdaterConfig {
    /// The name of this unit; it should be unique.
    pub name: String,
    /// The name of the repo; used to build the api urls.
    pub repo: String,
    /// The location on disk where the last updated version is written to.
    pub semver_storage: String,
    /// Filtering conditions used when deciding what artifact to download.
    pub artifact_naming: UpdaterConfigArtifactNaming,
    /// Where to put the artifact.
    pub extraction: UpdaterConfigExtractionRule,
    /// What services to restart.
    pub systemd: Option<UpdaterConfigSystemdRule>,
}

/// The kinds of updates the daemon supports.
#[derive(Debug, Clone, PartialEq, Eq)]
pub enum UpdaterUnitConfig {
    /// The github release tarball updater.
    GithubRelease(GithubUpdaterConfig),
}

impl UpdaterUnitConfig {
    /// The name that identifies this unit amongst the configured ones.
    pub fn name(&self) -> (name: String)
        ensures
            match self {
                UpdaterUnitConfig::GithubRelease(inner) => name@ == inner.name@,
            },
    {
        match self {
            UpdaterUnitConfig::GithubRelease(inner) => inner.name.clone(),
        }
    }
}

/// The address the daemon's http server binds to.
#[derive(Debug, Clone, PartialEq, Eq)]
pub struct UpdaterServerConfig {
    /// The address our tcp listener will bind to.
    pub addr: String,
}

/// Poller configuration.
#[derive(Debug, Clone, PartialEq, Eq)]
pub struct UpdaterPollerConfig {
    /// How long to wait between attempts to check version discrepancies.
    pub delay_seconds: u64,
}

/// The complete configuration read from the toml file.
#[derive(Debug, Clone, PartialEq, Eq)]
pub struct UpdaterConfig {
    /// Each unit is a "strategy" for updating; it may cover several applications.
    pub units: Option<Vec<UpdaterUnitConfig>>,
    /// Poller configuration.
    pub poller: UpdaterPollerConfig,
    /// Server configuration.
    pub server: Option<UpdaterServerConfig>,
}

/// What a single run through of an updater unit should do.
#[derive(Debug, Clone, PartialEq, Eq)]
pub enum SingleRunExecutionStrategy {
    /// Any version discrepancy is applied immediately.
    Update,
    /// Move to the given version, ignoring version relationships entirely.
    ToVersion(String),
    /// Only check for version discrepancies and _notify_ the daemon.
    Nothing,
}

impl Default for SingleRunExecutionStrategy {
    fn default() -> (strategy: Self)
        ensures
            strategy is Nothing,
    {
        SingleRunExecutionStrategy::Nothing
    }
}

/// What a user may ask the daemon to do through its server.
#[derive(Debug, Clone, PartialEq, Eq)]
pub enum ManualRunRequest {
    /// Run all of the known units.
    All,
    /// Run only the unit with this name, to the optionally given version.
    Specific(String, Option<String>),
}

impl Default for ManualRunRequest {
    fn default() -> (request: Self)
        ensures
            request is All,
    {
        ManualRunRequest::All
    }
}

/// The body of a run request made to the api.
#[derive(Debug, Clone, PartialEq, Eq)]
pub struct ManualRunRequestPayload {
    /// The name of the unit; when omitted, every unit runs.
    pub name: Option<String>,
    /// The version to update to.
    pub version: Option<String>,
}

/// How a run of a unit ended.
#[derive(Debug, Clone, PartialEq, Eq)]
pub enum UpdaterUnitResult {
    /// A new version has been applied to every application of the unit.
    Updated,
    /// Run without a specific version to apply, the unit found this newer release.
    UpdateAvailable(String),
    /// No new version is available, and nothing was applied.
    Nothing,
}

/// What the polling loop tells the web server about the versions it found.
#[derive(Debug, Clone, PartialEq, Eq)]
pub enum VersionMessage {
    /// A new version was found for the named unit.
    HasVersion(String, String),
    /// No new version was found.
    NoVersion,
}

} // verus!
