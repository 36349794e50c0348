//! A single run of a github release unit, as a machine: each step takes what the outside work
//! produced and says what to do next. The caller performs the http requests, the file system
//! work and the restarts; the machine decides.

use vstd::prelude::*;
use crate::text::{ends_with, has_prefix, has_suffix, starts_with, trim_leading_prefix, trim_leading_text};
use crate::updater::version::{
    is_newer, parsed_version, release_version, release_version_text, spec_stored_version,
    stored_version, version_newer, ReleaseVersion, VersionModel,
};
use crate::schema::texts_view;
use crate::updater::{GithubUpdaterConfig, SingleRunExecutionStrategy, UpdaterUnitResult};

verus! {

/// One asset attached to a release, as the github api describes it.
#[derive(Debug, Clone, PartialEq, Eq)]
pub struct GithubReleaseLatestResponseAsset {
    /// A github id.
    pub id: u32,
    /// The file name of the asset.
    pub name: String,
    /// The api url of the asset.
    pub url: String,
}

/// A release, as the github api describes it.
#[derive(Debug, Clone, PartialEq, Eq)]
pub struct GithubReleaseLatestResponse {
    /// Provided by github.
    pub id: u32,
    /// The name of the release, expected to be a semantic version.
    pub name: String,
    /// The assets attached to the release.
    pub assets: Vec<GithubReleaseLatestResponseAsset>,
}

/// An http `GET` request to send.
#[derive(Debug, Clone, PartialEq, Eq)]
pub struct HttpRequest {
    /// Where to send it.
    pub url: String,
    /// The value of the `Accept` header, if one is sent.
    pub accept: Option<String>,
    /// The value of the `Authorization` header, if one is sent.
    pub authorization: Option<String>,
}

/// What the machine reads of an http reply.
#[derive(Debug, Clone, PartialEq, Eq)]
pub struct HttpReply {
    /// The status code.
    pub status: u16,
    /// The canonical reason phrase of the status code.
    pub reason: String,
    /// The first value of the `Location` header, if there is one.
    pub location: Option<String>,
}

/// Where a run of a unit stands.
#[derive(Debug, Clone, Copy, PartialEq, Eq)]
pub enum ReleaseStage {
    /// Waiting for the contents of the version storage file.
    AwaitingStoredVersion,
    /// Waiting for the reply to the request for the release.
    AwaitingRelease,
    /// Waiting for the body of the release reply.
    AwaitingReleaseBody,
    /// Waiting for the reply that locates the bytes of the artifact.
    AwaitingLocation,
    /// Waiting for the reply of the download.
    AwaitingDownload,
    /// Waiting for the artifact to be installed.
    AwaitingInstall,
    /// The run is over.
    Finished,
}

/// The state of a run of a github release unit.
#[derive(Debug)]
pub struct ReleaseRun {
    /// The unit being run.
    pub config: GithubUpdaterConfig,
    /// What this run should do.
    pub flags: SingleRunExecutionStrategy,
    /// The token sent to the github api.
    pub token: String,
    /// The installed version, once the version storage file has been read.
    pub current: Option<ReleaseVersion>,
    /// The name of the release being installed, once one was chosen.
    pub release: Option<String>,
    /// Where the run stands.
    pub stage: ReleaseStage,
}

/// What the outside work produced.
#[derive(Debug, Clone, PartialEq, Eq)]
pub enum ReleaseEvent {
    /// The outside work failed, with this message.
    Failed(String),
    /// The contents of the version storage file, if it could be read.
    Stored(Option<Vec<u8>>),
    /// The reply to the last request.
    Replied(HttpReply),
    /// The body of the release reply.
    Release(GithubReleaseLatestResponse),
    /// The artifact was installed, the services restarted and the version recorded.
    Installed,
}

/// What the caller should do next.
#[derive(Debug, PartialEq, Eq)]
pub enum ReleaseAction {
    /// Read the version storage file (`semver_storage` of the unit).
    ReadStoredVersion,
    /// Send this request and report its reply.
    Send(HttpRequest),
    /// Read the body of the last reply as a release.
    ReadRelease,
    /// Download the body of the last reply, unpack it into `destination/<release>` and point
    /// `destination/latest` at it, restart the `services`, then write `release` to the version
    /// storage file.
    Install { release: String, destination: String, services: Vec<String> },
    /// The run is over, with this result.
    Finish(Result<UpdaterUnitResult, String>),
}

/// What the version comparison of a run concludes.
#[derive(Debug, Clone, Copy, PartialEq, Eq)]
pub enum ReleaseVerdict {
    /// Install the release.
    Proceed,
    /// Report the release as an available update, and install nothing.
    Available,
    /// Install nothing and report nothing.
    Nothing,
}

/// The abstract value of an optional version.
pub open spec fn opt_version(v: Option<ReleaseVersion>) -> Option<VersionModel> {
    match v {
        Some(inner) => Some(inner@),
        None => None,
    }
}

/// Explicit runs always install; otherwise a release is reported when no version is installed
/// or when its version comes after the installed one.
pub open spec fn spec_release_verdict(
    flags: SingleRunExecutionStrategy,
    current: Option<VersionModel>,
    name: Seq<char>,
) -> ReleaseVerdict {
    if flags is Update || flags is ToVersion {
        ReleaseVerdict::Proceed
    } else {
        match (current, parsed_version(release_version_text(name))) {
            (None, Some(_)) => ReleaseVerdict::Available,
            (Some(c), Some(n)) => if version_newer(n, c) {
                ReleaseVerdict::Available
            } else {
                ReleaseVerdict::Nothing
            },
            _ => ReleaseVerdict::Nothing,
        }
    }
}

/// The api url of a repository: the repository without its leading `https://github.com/`s.
pub open spec fn spec_api_url(repo: Seq<char>) -> Seq<char> {
    "https://api.github.com/repos/"@ + trim_leading_text(repo, "https://github.com/"@)
}

/// The url of the release a run looks at: the tagged one for an explicit version, the latest
/// one otherwise.
pub open spec fn spec_release_url(repo: Seq<char>, flags: SingleRunExecutionStrategy) -> Seq<
    char,
> {
    match flags {
        SingleRunExecutionStrategy::ToVersion(version) => spec_api_url(repo) + "/releases/tags/"@
            + version@,
        _ => spec_api_url(repo) + "/releases/latest"@,
    }
}

/// The value of the `Authorization` header sent with a token.
pub open spec fn spec_authorization(token: Seq<char>) -> Seq<char> {
    "token "@ + token
}

/// Whether an asset's name has the configured prefix and suffix.
pub open spec fn asset_matches(
    asset: GithubReleaseLatestResponseAsset,
    config: GithubUpdaterConfig,
) -> bool {
    has_prefix(asset.name@, config.artifact_naming.starts_with@) && has_suffix(
        asset.name@,
        config.artifact_naming.ends_with@,
    )
}

/// The services a unit restarts: its single service if it names one, else its list of services,
/// else none.
pub open spec fn spec_restart_services(config: GithubUpdaterConfig) -> Seq<Seq<char>> {
    match config.systemd {
        Some(rule) => match rule.service {
            Some(service) => seq![service@],
            None => match rule.services {
                Some(services) => texts_view(services@),
                None => Seq::empty(),
            },
        },
        None => Seq::empty(),
    }
}

/// Which events a run accepts where it stands.
pub open spec fn spec_accepts(stage: ReleaseStage, event: ReleaseEvent) -> bool {
    match event {
        ReleaseEvent::Failed(_) => stage !is Finished,
        ReleaseEvent::Stored(_) => stage is AwaitingStoredVersion,
        ReleaseEvent::Replied(_) => stage is AwaitingRelease || stage is AwaitingLocation
            || stage is AwaitingDownload,
        ReleaseEvent::Release(_) => stage is AwaitingReleaseBody,
        ReleaseEvent::Installed => stage is AwaitingInstall,
    }
}

/// A status code in the success class.
pub open spec fn is_success(status: u16) -> bool {
    200 <= status <= 299
}

/// The status code of a redirect to the found resource.
pub open spec fn status_found() -> u16 {
    302
}

/// The position of the first asset whose name has the configured prefix and suffix.
pub fn select_asset(assets: &Vec<GithubReleaseLatestResponseAsset>, config: &GithubUpdaterConfig) -> (found: Option<usize>)
    ensures
        match found {
            Some(i) => i < assets.len() && asset_matches(assets@[i as int], *config) && forall|
                j: int,
            | 0 <= j < i ==> !asset_matches(#[trigger] assets@[j], *config),
            None => forall|j: int|
                0 <= j < assets.len() ==> !asset_matches(#[trigger] assets@[j], *config),
        },
{
    let mut i: usize = 0;
    while i < assets.len()
        invariant
            i <= assets.len(),
            forall|j: int| 0 <= j < i ==> !asset_matches(#[trigger] assets@[j], *config),
        decreases assets.len() - i,
    {
        let asset = &assets[i];
        let prefixed = starts_with(asset.name.as_str(), config.artifact_naming.starts_with.as_str());
        let suffixed = ends_with(asset.name.as_str(), config.artifact_naming.ends_with.as_str());
        if prefixed && suffixed {
            return Some(i);
        }
        i = i + 1;
    }
    None
}

/// Copies a list of texts.
fn copy_texts(v: &Vec<String>) -> (out: Vec<String>)
    ensures
        texts_view(out@) == texts_view(v@),
{
    let mut out: Vec<String> = Vec::new();
    let mut i: usize = 0;
    while i < v.len()
        invariant
            i <= v.len(),
            out@.len() == i,
            forall|j: int| 0 <= j < i ==> (#[trigger] out@[j])@ == v@[j]@,
        decreases v.len() - i,
    {
        out.push(v[i].clone());
        i = i + 1;
    }
    assert(texts_view(out@) =~= texts_view(v@));
    out
}

/// The services a unit restarts once its artifact is installed.
pub fn restart_services(config: &GithubUpdaterConfig) -> (services: Vec<String>)
    ensures
        texts_view(services@) == spec_restart_services(*config),
{
    match &config.systemd {
        Some(rule) => match &rule.service {
            Some(service) => {
                let out = vec![service.clone()];
                assert(texts_view(out@) =~= seq![service@]);
                out
            },
            None => match &rule.services {
                Some(services) => copy_texts(services),
                None => {
                    let out: Vec<String> = Vec::new();
                    assert(texts_view(out@) =~= Seq::empty());
                    out
                },
            },
        },
        None => {
            let out: Vec<String> = Vec::new();
            assert(texts_view(out@) =~= Seq::empty());
            out
        },
    }
}

/// The url of the release a run looks at.
pub fn release_url(repo: &str, flags: &SingleRunExecutionStrategy) -> (url: String)
    ensures
        url@ == spec_release_url(repo@, *flags),
{
    let normalized = trim_leading_prefix(repo, "https://github.com/");
    let base = String::from_str("https://api.github.com/repos/").concat(normalized.as_str());
    match flags {
        SingleRunExecutionStrategy::ToVersion(version) => base.concat("/releases/tags/").concat(
            version.as_str(),
        ),
        _ => base.concat("/releases/latest"),
    }
}

/// The value of the `Authorization` header sent with a token.
pub fn authorization(token: &str) -> (header: String)
    ensures
        header@ == spec_authorization(token@),
{
    String::from_str("token ").concat(token)
}

/// The name under which an installed release that is about to be replaced is kept.
pub fn backup_directory(release: &str, run_id: &str) -> (name: String)
    ensures
        name@ == release@ + "-backup-"@ + run_id@,
{
    String::from_str(release).concat("-backup-").concat(run_id)
}

/// Compares a release with the installed version, given what this run should do.
pub fn release_verdict(
    flags: &SingleRunExecutionStrategy,
    current: &Option<ReleaseVersion>,
    name: &str,
) -> (verdict: ReleaseVerdict)
    ensures
        verdict == spec_release_verdict(*flags, opt_version(*current), name@),
{
    match flags {
        SingleRunExecutionStrategy::Update => return ReleaseVerdict::Proceed,
        SingleRunExecutionStrategy::ToVersion(_) => return ReleaseVerdict::Proceed,
        SingleRunExecutionStrategy::Nothing => {},
    }
    let next = release_version(name);
    match (current, next) {
        (None, Some(_)) => ReleaseVerdict::Available,
        (Some(c), Some(n)) => if is_newer(&n, c) {
            ReleaseVerdict::Available
        } else {
            ReleaseVerdict::Nothing
        },
        _ => ReleaseVerdict::Nothing,
    }
}

impl ReleaseRun {
    /// Whether the run accepts this event where it stands.
    pub fn accepts(&self, event: &ReleaseEvent) -> (b: bool)
        ensures
            b == spec_accepts(self.stage, *event),
    {
        match event {
            ReleaseEvent::Failed(_) => !matches!(self.stage, ReleaseStage::Finished),
            ReleaseEvent::Stored(_) => matches!(self.stage, ReleaseStage::AwaitingStoredVersion),
            ReleaseEvent::Replied(_) => matches!(self.stage, ReleaseStage::AwaitingRelease)
                || matches!(self.stage, ReleaseStage::AwaitingLocation) || matches!(
                self.stage,
                ReleaseStage::AwaitingDownload,
            ),
            ReleaseEvent::Release(_) => matches!(self.stage, ReleaseStage::AwaitingReleaseBody),
            ReleaseEvent::Installed => matches!(self.stage, ReleaseStage::AwaitingInstall),
        }
    }
}

/// Starts a run of a unit: without a token to send to the github api the run fails at once,
/// otherwise it first reads the version storage file.
pub fn start_release_run(
    config: GithubUpdaterConfig,
    flags: SingleRunExecutionStrategy,
    token: Option<String>,
) -> (out: (ReleaseRun, ReleaseAction))
    ensures
        out.0.config == config,
        out.0.flags == flags,
        out.0.current is None,
        out.0.release is None,
        match token {
            Some(t) => out.0.token == t && out.0.stage is AwaitingStoredVersion && out.1
                is ReadStoredVersion,
            None => out.0.stage is Finished && fails_with(
                out.1,
                "missing 'GITHUB_RELEASE_AUTH_TOKEN'"@,
            ),
        },
{
    match token {
        Some(t) => (
            ReleaseRun {
                config,
                flags,
                token: t,
                current: None,
                release: None,
                stage: ReleaseStage::AwaitingStoredVersion,
            },
            ReleaseAction::ReadStoredVersion,
        ),
        None => (
            ReleaseRun {
                config,
                flags,
                token: String::new(),
                current: None,
                release: None,
                stage: ReleaseStage::Finished,
            },
            ReleaseAction::Finish(Err(String::from_str("missing 'GITHUB_RELEASE_AUTH_TOKEN'"))),
        ),
    }
}

/// The view of the request an action sends, if it sends one.
pub open spec fn sends(
    action: ReleaseAction,
    url: Seq<char>,
    accept: Option<Seq<char>>,
    authorization: Option<Seq<char>>,
) -> bool {
    &&& action matches ReleaseAction::Send(request)
    &&& request.url@ == url
    &&& match request.accept {
        Some(a) => accept == Some(a@),
        None => accept is None,
    }
    &&& match request.authorization {
        Some(a) => authorization == Some(a@),
        None => authorization is None,
    }
}

/// Whether an action finishes the run with an error carrying this message.
pub open spec fn fails_with(action: ReleaseAction, message: Seq<char>) -> bool {
    action matches ReleaseAction::Finish(Err(m)) && m@ == message
}

/// Whether an action finishes the run with this result.
pub open spec fn finishes_with(action: ReleaseAction, result: UpdaterUnitResult) -> bool {
    action == ReleaseAction::Finish(Ok(result))
}

/// Whether an action finishes the run reporting this release as an available update.
pub open spec fn reports_available(action: ReleaseAction, name: Seq<char>) -> bool {
    action matches ReleaseAction::Finish(Ok(UpdaterUnitResult::UpdateAvailable(n))) && n@ == name
}

/// What a run does with the release the api described: report it, drop it, or fetch the first
/// matching asset.
pub open spec fn release_outcome(run: ReleaseRun, release: GithubReleaseLatestResponse, next: ReleaseRun, action: ReleaseAction) -> bool {
    match spec_release_verdict(run.flags, opt_version(run.current), release.name@) {
        ReleaseVerdict::Available => next.stage is Finished && reports_available(
            action,
            release.name@,
        ),
        ReleaseVerdict::Nothing => next.stage is Finished && finishes_with(
            action,
            UpdaterUnitResult::Nothing,
        ),
        ReleaseVerdict::Proceed => if exists|j: int|
            0 <= j < release.assets.len() && asset_matches(
                #[trigger] release.assets@[j],
                run.config,
            ) {
            exists|i: int|
                0 <= i < release.assets.len() && asset_matches(
                    #[trigger] release.assets@[i],
                    run.config,
                ) && (forall|j: int|
                    0 <= j < i ==> !asset_matches(#[trigger] release.assets@[j], run.config))
                    && next.stage is AwaitingLocation && next.release == Some(release.name)
                    && sends(
                    action,
                    release.assets@[i].url@,
                    Some("application/octet-stream"@),
                    Some(spec_authorization(run.token@)),
                )
        } else {
            next.stage is Finished && finishes_with(action, UpdaterUnitResult::Nothing)
        },
    }
}

/// What a run does with a reply, where it stands.
pub open spec fn reply_outcome(run: ReleaseRun, reply: HttpReply, next: ReleaseRun, action: ReleaseAction) -> bool {
    match run.stage {
        ReleaseStage::AwaitingRelease => if is_success(reply.status) {
            next.stage is AwaitingReleaseBody && action is ReadRelease
        } else {
            next.stage is Finished && fails_with(action, reply.reason@)
        },
        ReleaseStage::AwaitingLocation => if reply.status == status_found() {
            match reply.location {
                Some(location) => next.stage is AwaitingDownload && sends(
                    action,
                    location@,
                    None,
                    None,
                ),
                None => next.stage is Finished && fails_with(action, "bad response from github"@),
            }
        } else {
            next.stage is Finished && fails_with(action, reply.reason@)
        },
        _ => if is_success(reply.status) {
            next.stage is AwaitingInstall && match run.release {
                Some(name) => action matches ReleaseAction::Install {
                    release,
                    destination,
                    services,
                } && release@ == name@ && destination@ == run.config.extraction.destination@
                    && texts_view(services@) == spec_restart_services(run.config),
                None => action is Install,
            }
        } else {
            next.stage is Finished && fails_with(action, reply.reason@)
        },
    }
}

/// What one step of a run does with an event: a failure ends the run with its message; the
/// stored version is read and the release requested; replies and the release body are decided
/// as above; an installed artifact ends the run as updated.
pub open spec fn spec_step(run: ReleaseRun, event: ReleaseEvent, next: ReleaseRun, action: ReleaseAction) -> bool {
    &&& next.config == run.config
    &&& next.flags == run.flags
    &&& next.token == run.token
    &&& (event is Failed || event is Installed) ==> next.release == run.release && opt_version(
        next.current,
    ) == opt_version(run.current)
    &&& match event {
        ReleaseEvent::Failed(message) => next.stage is Finished && action == ReleaseAction::Finish(
            Err(message),
        ),
        ReleaseEvent::Stored(data) => {
            &&& next.stage is AwaitingRelease
            &&& opt_version(next.current) == match data {
                Some(d) => spec_stored_version(d@),
                None => None,
            }
            &&& next.release == run.release
            &&& sends(
                action,
                spec_release_url(run.config.repo@, run.flags),
                None,
                Some(spec_authorization(run.token@)),
            )
        },
        ReleaseEvent::Replied(reply) => next.release == run.release && opt_version(next.current)
            == opt_version(run.current) && reply_outcome(run, reply, next, action),
        ReleaseEvent::Release(release) => opt_version(next.current) == opt_version(run.current)
            && (next.stage is Finished ==> next.release == run.release) && release_outcome(
            run,
            release,
            next,
            action,
        ),
        ReleaseEvent::Installed => next.stage is Finished && finishes_with(
            action,
            UpdaterUnitResult::Updated,
        ),
    }
}

/// Takes a run one step further, given what the last action produced.
pub fn step_release_run(run: ReleaseRun, event: ReleaseEvent) -> (out: (ReleaseRun, ReleaseAction))
    requires
        spec_accepts(run.stage, event),
    ensures
        spec_step(run, event, out.0, out.1),
{
    let ReleaseRun { config, flags, token, current, release, stage } = run;
    match event {
        ReleaseEvent::Failed(message) => {
            let next = ReleaseRun { config, flags, token, current, release, stage: ReleaseStage::Finished };
            (next, ReleaseAction::Finish(Err(message)))
        },
        ReleaseEvent::Stored(data) => {
            let current = match data {
                Some(d) => stored_version(d),
                None => None,
            };
            let url = release_url(config.repo.as_str(), &flags);
            let request = HttpRequest {
                url,
                accept: None,
                authorization: Some(authorization(token.as_str())),
            };
            let next = ReleaseRun { config, flags, token, current, release, stage: ReleaseStage::AwaitingRelease };
            (next, ReleaseAction::Send(request))
        },
        ReleaseEvent::Replied(reply) => {
            let (stage, action) = match stage {
                ReleaseStage::AwaitingRelease => if 200 <= reply.status && reply.status <= 299 {
                    (ReleaseStage::AwaitingReleaseBody, ReleaseAction::ReadRelease)
                } else {
                    (ReleaseStage::Finished, ReleaseAction::Finish(Err(reply.reason)))
                },
                ReleaseStage::AwaitingLocation => if reply.status == 302 {
                    match reply.location {
                        Some(location) => (
                            ReleaseStage::AwaitingDownload,
                            ReleaseAction::Send(
                                HttpRequest { url: location, accept: None, authorization: None },
                            ),
                        ),
                        None => (
                            ReleaseStage::Finished,
                            ReleaseAction::Finish(
                                Err(String::from_str("bad response from github")),
                            ),
                        ),
                    }
                } else {
                    (ReleaseStage::Finished, ReleaseAction::Finish(Err(reply.reason)))
                },
                _ => if 200 <= reply.status && reply.status <= 299 {
                    let name = match &release {
                        Some(name) => name.clone(),
                        None => String::new(),
                    };
                    let services = restart_services(&config);
                    (
                        ReleaseStage::AwaitingInstall,
                        ReleaseAction::Install {
                            release: name,
                            destination: config.extraction.destination.clone(),
                            services,
                        },
                    )
                } else {
                    (ReleaseStage::Finished, ReleaseAction::Finish(Err(reply.reason)))
                },
            };
            let next = ReleaseRun { config, flags, token, current, release, stage };
            (next, action)
        },
        ReleaseEvent::Release(latest) => {
            let verdict = release_verdict(&flags, &current, latest.name.as_str());
            match verdict {
                ReleaseVerdict::Available => {
                    let next = ReleaseRun { config, flags, token, current, release, stage: ReleaseStage::Finished };
                    (next, ReleaseAction::Finish(Ok(UpdaterUnitResult::UpdateAvailable(latest.name))))
                },
                ReleaseVerdict::Nothing => {
                    let next = ReleaseRun { config, flags, token, current, release, stage: ReleaseStage::Finished };
                    (next, ReleaseAction::Finish(Ok(UpdaterUnitResult::Nothing)))
                },
                ReleaseVerdict::Proceed => {
                    match select_asset(&latest.assets, &config) {
                        Some(i) => {
                            let request = HttpRequest {
                                url: latest.assets[i].url.clone(),
                                accept: Some(String::from_str("application/octet-stream")),
                                authorization: Some(authorization(token.as_str())),
                            };
                            let next = ReleaseRun {
                                config,
                                flags,
                                token,
                                current,
                                release: Some(latest.name),
                                stage: ReleaseStage::AwaitingLocation,
                            };
                            proof {
                                assert(asset_matches(latest.assets@[i as int], next.config));
                            }
                            (next, ReleaseAction::Send(request))
                        },
                        None => {
                            let next = ReleaseRun { config, flags, token, current, release, stage: ReleaseStage::Finished };
                            (next, ReleaseAction::Finish(Ok(UpdaterUnitResult::Nothing)))
                        },
                    }
                },
            }
        },
        ReleaseEvent::Installed => {
            let next = ReleaseRun { config, flags, token, current, release, stage: ReleaseStage::Finished };
            (next, ReleaseAction::Finish(Ok(UpdaterUnitResult::Updated)))
        },
    }
}

/// The stages in which a run is installing a release.
pub open spec fn installing(stage: ReleaseStage) -> bool {
    stage is AwaitingLocation || stage is AwaitingDownload || stage is AwaitingInstall
}

/// A run that was only asked to check never starts installing: from any stage before the
/// installation, every step it accepts leads to a stage before the installation again, and a
/// release it is shown ends it with an available update or with nothing.
pub proof fn law_check_only_never_installs(
    run: ReleaseRun,
    event: ReleaseEvent,
    next: ReleaseRun,
    action: ReleaseAction,
)
    requires
        run.flags is Nothing,
        !installing(run.stage),
        spec_accepts(run.stage, event),
        spec_step(run, event, next, action),
    ensures
        !installing(next.stage),
        next.flags is Nothing,
        action !is Install,
        event is Release ==> (finishes_with(action, UpdaterUnitResult::Nothing) || action matches ReleaseAction::Finish(Ok(UpdaterUnitResult::UpdateAvailable(_)))),
{
}

/// A run that was asked to update, or to move to a given version, installs the release it is
/// shown whatever the versions: it fetches the first asset whose name matches the unit's naming.
pub proof fn law_explicit_runs_install(
    run: ReleaseRun,
    release: GithubReleaseLatestResponse,
    next: ReleaseRun,
    action: ReleaseAction,
    i: int,
)
    requires
        run.flags is Update || run.flags is ToVersion,
        run.stage is AwaitingReleaseBody,
        spec_step(run, ReleaseEvent::Release(release), next, action),
        0 <= i < release.assets.len(),
        asset_matches(release.assets@[i], run.config),
        forall|j: int| 0 <= j < i ==> !asset_matches(#[trigger] release.assets@[j], run.config),
    ensures
        next.stage is AwaitingLocation,
        next.release == Some(release.name),
        sends(
            action,
            release.assets@[i].url@,
            Some("application/octet-stream"@),
            Some(spec_authorization(run.token@)),
        ),
{
    let k = choose|k: int|
        0 <= k < release.assets.len() && asset_matches(#[trigger] release.assets@[k], run.config)
            && (forall|j: int|
            0 <= j < k ==> !asset_matches(#[trigger] release.assets@[j], run.config))
            && next.stage is AwaitingLocation && next.release == Some(release.name) && sends(
            action,
            release.assets@[k].url@,
            Some("application/octet-stream"@),
            Some(spec_authorization(run.token@)),
        );
    if k < i {
        assert(!asset_matches(release.assets@[k], run.config));
    }
    if i < k {
        assert(!asset_matches(release.assets@[i], run.config));
    }
}

/// A run ends as updated only once its artifact was installed.
pub proof fn law_updated_only_after_install(
    run: ReleaseRun,
    event: ReleaseEvent,
    next: ReleaseRun,
    action: ReleaseAction,
)
    requires
        spec_step(run, event, next, action),
        finishes_with(action, UpdaterUnitResult::Updated),
    ensures
        event is Installed,
{
}

} // verus!
