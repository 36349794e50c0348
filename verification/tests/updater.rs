use beetle::updater::daemon::{
    commit_update, manual_request, poll_due, record_version, remaining_units, unit_report,
    unit_strategy,
};
use beetle::text::{ends_with, starts_with, trim_leading_char, trim_leading_prefix, trim_trailing};
use beetle::updater::release::{
    authorization, backup_directory, release_url, release_verdict, restart_services,
    select_asset, start_release_run, step_release_run, GithubReleaseLatestResponse,
    GithubReleaseLatestResponseAsset, HttpReply, HttpRequest, ReleaseAction, ReleaseEvent,
    ReleaseStage, ReleaseVerdict,
};
use beetle::updater::version::{release_version, stored_version};
use beetle::updater::{
    GithubUpdaterConfig, ManualRunRequest, ManualRunRequestPayload, SingleRunExecutionStrategy,
    UpdaterConfigArtifactNaming, UpdaterConfigExtractionRule, UpdaterConfigSystemdRule,
    UpdaterUnitConfig, UpdaterUnitResult, VersionMessage,
};

fn config(systemd: Option<UpdaterConfigSystemdRule>) -> GithubUpdaterConfig {
    GithubUpdaterConfig {
        name: "beetle-mock".to_string(),
        repo: "https://github.com/dadleyy/beetle".to_string(),
        semver_storage: "/tmp/beetle-version".to_string(),
        artifact_naming: UpdaterConfigArtifactNaming {
            starts_with: "beetle-".to_string(),
            ends_with: ".tar.gz".to_string(),
        },
        extraction: UpdaterConfigExtractionRule { destination: "/opt/beetle".to_string() },
        systemd,
    }
}

fn asset(id: u32, name: &str) -> GithubReleaseLatestResponseAsset {
    GithubReleaseLatestResponseAsset {
        id,
        name: name.to_string(),
        url: format!("https://api.github.com/assets/{id}"),
    }
}

fn release(name: &str) -> GithubReleaseLatestResponse {
    GithubReleaseLatestResponse {
        id: 7,
        name: name.to_string(),
        assets: vec![
            asset(1, "checksums.txt"),
            asset(2, "beetle-armv7.tar.gz"),
            asset(3, "beetle-x86.tar.gz"),
        ],
    }
}

fn reply(status: u16, reason: &str, location: Option<&str>) -> HttpReply {
    HttpReply { status, reason: reason.to_string(), location: location.map(|l| l.to_string()) }
}

#[test]
fn unit_name_is_the_github_name() {
    let unit = UpdaterUnitConfig::GithubRelease(config(None));
    assert_eq!(unit.name(), "beetle-mock");
}

#[test]
fn release_versions_ignore_leading_v() {
    let version = release_version("v1.2.3").expect("a version");
    assert_eq!((version.major(), version.minor(), version.patch()), (1, 2, 3));
    let version = release_version("vv0.4.0-rc.1").expect("a version");
    assert_eq!((version.major(), version.minor(), version.patch()), (0, 4, 0));
    assert_eq!(version.pre(), "rc.1");
    assert!(release_version("latest").is_none());
    assert!(release_version("v1.2").is_none());
}

#[test]
fn stored_versions_are_trimmed() {
    let version = stored_version(b"v0.1.9\n".to_vec()).expect("a version");
    assert_eq!((version.major(), version.minor(), version.patch()), (0, 1, 9));
    assert!(stored_version(vec![0xff, 0xfe, 0x31]).is_none());
    assert!(stored_version(b"garbage".to_vec()).is_none());
}

#[test]
fn trimming_texts() {
    assert_eq!(trim_leading_char("vvv1", 'v'), "1");
    assert_eq!(trim_leading_char("1v", 'v'), "1v");
    assert_eq!(trim_trailing("1.0.0 \t\r\n\u{3000}"), "1.0.0");
    assert_eq!(trim_trailing(" 1.0.0"), " 1.0.0");
    assert_eq!(
        trim_leading_prefix("https://github.com/https://github.com/owner/repo", "https://github.com/"),
        "owner/repo"
    );
    assert_eq!(trim_leading_prefix("owner/repo", ""), "owner/repo");
}

#[test]
fn prefixes_and_suffixes() {
    assert!(starts_with("beetle-armv7.tar.gz", "beetle-"));
    assert!(!starts_with("be", "beetle-"));
    assert!(ends_with("beetle-armv7.tar.gz", ".tar.gz"));
    assert!(!ends_with("beetle-armv7.zip", ".tar.gz"));
    assert!(ends_with("anything", ""));
}

#[test]
fn release_urls() {
    let repo = "https://github.com/dadleyy/beetle";
    assert_eq!(
        release_url(repo, &SingleRunExecutionStrategy::Nothing),
        "https://api.github.com/repos/dadleyy/beetle/releases/latest"
    );
    assert_eq!(
        release_url(repo, &SingleRunExecutionStrategy::ToVersion("v0.2.0".to_string())),
        "https://api.github.com/repos/dadleyy/beetle/releases/tags/v0.2.0"
    );
    assert_eq!(
        release_url("dadleyy/beetle", &SingleRunExecutionStrategy::Update),
        "https://api.github.com/repos/dadleyy/beetle/releases/latest"
    );
    assert_eq!(authorization("abc"), "token abc");
    assert_eq!(backup_directory("v1.0.0", "run-1"), "v1.0.0-backup-run-1");
}

#[test]
fn verdicts_compare_versions() {
    let nothing = SingleRunExecutionStrategy::Nothing;
    let installed = release_version("1.0.1");
    assert_eq!(release_verdict(&nothing, &None, "v1.0.0"), ReleaseVerdict::Available);
    assert_eq!(release_verdict(&nothing, &installed, "v1.0.2"), ReleaseVerdict::Available);
    assert_eq!(release_verdict(&nothing, &installed, "v2.0.0"), ReleaseVerdict::Available);
    assert_eq!(release_verdict(&nothing, &installed, "v1.0.1"), ReleaseVerdict::Nothing);
    assert_eq!(release_verdict(&nothing, &installed, "v1.0.0"), ReleaseVerdict::Nothing);
    assert_eq!(release_verdict(&nothing, &installed, "v1.0.2-rc.1"), ReleaseVerdict::Available);
    assert_eq!(release_verdict(&nothing, &installed, "v1.0.1-rc.1"), ReleaseVerdict::Nothing);
    assert_eq!(release_verdict(&nothing, &installed, "nightly"), ReleaseVerdict::Nothing);
    assert_eq!(release_verdict(&nothing, &None, "nightly"), ReleaseVerdict::Nothing);
    assert_eq!(release_verdict(&SingleRunExecutionStrategy::Update, &installed, "v0.0.1"), ReleaseVerdict::Proceed);
    assert_eq!(
        release_verdict(&SingleRunExecutionStrategy::ToVersion("x".to_string()), &installed, "x"),
        ReleaseVerdict::Proceed
    );
}

#[test]
fn first_matching_asset_is_selected() {
    let unit = config(None);
    assert_eq!(select_asset(&release("v1.0.0").assets, &unit), Some(1));
    assert_eq!(select_asset(&vec![asset(1, "checksums.txt")], &unit), None);
    assert_eq!(select_asset(&vec![], &unit), None);
}

#[test]
fn services_prefer_the_single_one() {
    let both = UpdaterConfigSystemdRule {
        service: Some("beetle".to_string()),
        services: Some(vec!["a".to_string(), "b".to_string()]),
    };
    assert_eq!(restart_services(&config(Some(both))), vec!["beetle".to_string()]);
    let list = UpdaterConfigSystemdRule { service: None, services: Some(vec!["a".to_string(), "b".to_string()]) };
    assert_eq!(restart_services(&config(Some(list))), vec!["a".to_string(), "b".to_string()]);
    let none = UpdaterConfigSystemdRule { service: None, services: None };
    assert!(restart_services(&config(Some(none))).is_empty());
    assert!(restart_services(&config(None)).is_empty());
}

#[test]
fn a_run_without_token_fails() {
    let (run, action) = start_release_run(config(None), SingleRunExecutionStrategy::Nothing, None);
    assert_eq!(run.stage, ReleaseStage::Finished);
    assert_eq!(action, ReleaseAction::Finish(Err("missing 'GITHUB_RELEASE_AUTH_TOKEN'".to_string())));
}

#[test]
fn a_check_reports_the_newer_release() {
    let (run, action) = start_release_run(config(None), SingleRunExecutionStrategy::Nothing, Some("t".to_string()));
    assert_eq!(action, ReleaseAction::ReadStoredVersion);
    let stored = ReleaseEvent::Stored(Some(b"v1.0.0\n".to_vec()));
    assert!(run.accepts(&stored));
    assert!(!run.accepts(&ReleaseEvent::Installed));
    let (run, action) = step_release_run(run, stored);
    assert_eq!(
        action,
        ReleaseAction::Send(HttpRequest {
            url: "https://api.github.com/repos/dadleyy/beetle/releases/latest".to_string(),
            accept: None,
            authorization: Some("token t".to_string()),
        })
    );
    let (run, action) = step_release_run(run, ReleaseEvent::Replied(reply(200, "OK", None)));
    assert_eq!(action, ReleaseAction::ReadRelease);
    let (run, action) = step_release_run(run, ReleaseEvent::Release(release("v1.1.0")));
    assert_eq!(run.stage, ReleaseStage::Finished);
    assert_eq!(action, ReleaseAction::Finish(Ok(UpdaterUnitResult::UpdateAvailable("v1.1.0".to_string()))));
}

#[test]
fn a_check_of_the_installed_release_does_nothing() {
    let (run, _) = start_release_run(config(None), SingleRunExecutionStrategy::Nothing, Some("t".to_string()));
    let (run, _) = step_release_run(run, ReleaseEvent::Stored(Some(b"1.1.0".to_vec())));
    let (run, _) = step_release_run(run, ReleaseEvent::Replied(reply(200, "OK", None)));
    let (_, action) = step_release_run(run, ReleaseEvent::Release(release("v1.1.0")));
    assert_eq!(action, ReleaseAction::Finish(Ok(UpdaterUnitResult::Nothing)));
}

#[test]
fn an_update_installs_the_matching_asset() {
    let systemd = UpdaterConfigSystemdRule { service: Some("beetle".to_string()), services: None };
    let (run, _) = start_release_run(config(Some(systemd)), SingleRunExecutionStrategy::Update, Some("t".to_string()));
    let (run, _) = step_release_run(run, ReleaseEvent::Stored(None));
    let (run, _) = step_release_run(run, ReleaseEvent::Replied(reply(200, "OK", None)));
    let (run, action) = step_release_run(run, ReleaseEvent::Release(release("v0.9.0")));
    assert_eq!(run.stage, ReleaseStage::AwaitingLocation);
    assert_eq!(
        action,
        ReleaseAction::Send(HttpRequest {
            url: "https://api.github.com/assets/2".to_string(),
            accept: Some("application/octet-stream".to_string()),
            authorization: Some("token t".to_string()),
        })
    );
    let (run, action) = step_release_run(run, ReleaseEvent::Replied(reply(302, "Found", Some("https://objects/2"))));
    assert_eq!(
        action,
        ReleaseAction::Send(HttpRequest { url: "https://objects/2".to_string(), accept: None, authorization: None })
    );
    let (run, action) = step_release_run(run, ReleaseEvent::Replied(reply(200, "OK", None)));
    assert_eq!(
        action,
        ReleaseAction::Install {
            release: "v0.9.0".to_string(),
            destination: "/opt/beetle".to_string(),
            services: vec!["beetle".to_string()],
        }
    );
    let (run, action) = step_release_run(run, ReleaseEvent::Installed);
    assert_eq!(run.stage, ReleaseStage::Finished);
    assert_eq!(action, ReleaseAction::Finish(Ok(UpdaterUnitResult::Updated)));
}

#[test]
fn an_update_without_matching_asset_does_nothing() {
    let (run, _) = start_release_run(config(None), SingleRunExecutionStrategy::ToVersion("v2".to_string()), Some("t".to_string()));
    let (run, action) = step_release_run(run, ReleaseEvent::Stored(None));
    assert_eq!(
        action,
        ReleaseAction::Send(HttpRequest {
            url: "https://api.github.com/repos/dadleyy/beetle/releases/tags/v2".to_string(),
            accept: None,
            authorization: Some("token t".to_string()),
        })
    );
    let (run, _) = step_release_run(run, ReleaseEvent::Replied(reply(200, "OK", None)));
    let bare = GithubReleaseLatestResponse { id: 1, name: "v2".to_string(), assets: vec![asset(1, "notes.md")] };
    let (_, action) = step_release_run(run, ReleaseEvent::Release(bare));
    assert_eq!(action, ReleaseAction::Finish(Ok(UpdaterUnitResult::Nothing)));
}

#[test]
fn failed_replies_end_runs() {
    let (run, _) = start_release_run(config(None), SingleRunExecutionStrategy::Update, Some("t".to_string()));
    let (run, _) = step_release_run(run, ReleaseEvent::Stored(None));
    let (_, action) = step_release_run(run, ReleaseEvent::Replied(reply(404, "Not Found", None)));
    assert_eq!(action, ReleaseAction::Finish(Err("Not Found".to_string())));

    let (run, _) = start_release_run(config(None), SingleRunExecutionStrategy::Update, Some("t".to_string()));
    let (run, _) = step_release_run(run, ReleaseEvent::Stored(None));
    let (run, _) = step_release_run(run, ReleaseEvent::Replied(reply(200, "OK", None)));
    let (run, _) = step_release_run(run, ReleaseEvent::Release(release("v1.0.0")));
    let (_, action) = step_release_run(run, ReleaseEvent::Replied(reply(302, "Found", None)));
    assert_eq!(action, ReleaseAction::Finish(Err("bad response from github".to_string())));

    let (run, _) = start_release_run(config(None), SingleRunExecutionStrategy::Update, Some("t".to_string()));
    let (run, _) = step_release_run(run, ReleaseEvent::Stored(None));
    let (run, _) = step_release_run(run, ReleaseEvent::Replied(reply(200, "OK", None)));
    let (run, _) = step_release_run(run, ReleaseEvent::Release(release("v1.0.0")));
    let (_, action) = step_release_run(run, ReleaseEvent::Replied(reply(200, "OK", Some("x"))));
    assert_eq!(action, ReleaseAction::Finish(Err("OK".to_string())));

    let (run, _) = start_release_run(config(None), SingleRunExecutionStrategy::Update, Some("t".to_string()));
    let (run, action) = step_release_run(run, ReleaseEvent::Failed("unable to parse github response - eof".to_string()));
    assert_eq!(run.stage, ReleaseStage::Finished);
    assert_eq!(action, ReleaseAction::Finish(Err("unable to parse github response - eof".to_string())));
    assert!(!run.accepts(&ReleaseEvent::Failed("again".to_string())));
}

#[test]
fn polling_waits_for_delay_or_message() {
    assert!(!poll_due(3, 10, false));
    assert!(poll_due(3, 10, true));
    assert!(poll_due(10, 10, false));
    assert!(poll_due(0, 0, false));
}

#[test]
fn strategies_follow_requests() {
    let name = "beetle-mock".to_string();
    assert_eq!(unit_strategy(&None, &name), SingleRunExecutionStrategy::Nothing);
    assert_eq!(unit_strategy(&Some(ManualRunRequest::All), &name), SingleRunExecutionStrategy::Update);
    let specific = Some(ManualRunRequest::Specific("beetle-mock".to_string(), Some("v3".to_string())));
    assert_eq!(unit_strategy(&specific, &name), SingleRunExecutionStrategy::ToVersion("v3".to_string()));
    let other = Some(ManualRunRequest::Specific("other".to_string(), None));
    assert_eq!(unit_strategy(&other, &name), SingleRunExecutionStrategy::Nothing);
    let any = Some(ManualRunRequest::Specific("beetle-mock".to_string(), None));
    assert_eq!(unit_strategy(&any, &name), SingleRunExecutionStrategy::Update);
}

#[test]
fn reports_of_unit_runs() {
    let name = || "beetle-mock".to_string();
    assert_eq!(
        unit_report(name(), &Ok(UpdaterUnitResult::UpdateAvailable("v2".to_string()))),
        Some(VersionMessage::HasVersion("beetle-mock".to_string(), "v2".to_string()))
    );
    assert_eq!(unit_report(name(), &Ok(UpdaterUnitResult::Nothing)), Some(VersionMessage::NoVersion));
    assert_eq!(unit_report(name(), &Ok(UpdaterUnitResult::Updated)), Some(VersionMessage::NoVersion));
    assert_eq!(unit_report(name(), &Err("boom".to_string())), None);
    assert_eq!(remaining_units(vec![]), Err("no units left".to_string()));
    let units = vec![UpdaterUnitConfig::GithubRelease(config(None))];
    assert_eq!(remaining_units(units.clone()), Ok(units));
}

#[test]
fn run_requests_from_the_api() {
    let payload = |name: Option<&str>, version: Option<&str>| ManualRunRequestPayload {
        name: name.map(|n| n.to_string()),
        version: version.map(|v| v.to_string()),
    };
    assert_eq!(manual_request(payload(None, None)), Ok(ManualRunRequest::All));
    assert_eq!(
        manual_request(payload(Some("a"), None)),
        Ok(ManualRunRequest::Specific("a".to_string(), None))
    );
    assert_eq!(
        manual_request(payload(Some("a"), Some("v1"))),
        Ok(ManualRunRequest::Specific("a".to_string(), Some("v1".to_string())))
    );
    assert_eq!(
        manual_request(payload(None, Some("v1"))),
        Err("missing 'name' for specific version".to_string())
    );
}

#[test]
fn committing_found_versions() {
    let mut slot = None;
    assert_eq!(commit_update(&mut slot), None);
    record_version(&mut slot, VersionMessage::HasVersion("a".to_string(), "v2".to_string()));
    assert_eq!(slot, Some(("a".to_string(), "v2".to_string())));
    assert_eq!(
        commit_update(&mut slot),
        Some(ManualRunRequest::Specific("a".to_string(), Some("v2".to_string())))
    );
    assert_eq!(slot, None);
    assert_eq!(commit_update(&mut slot), None);
    record_version(&mut slot, VersionMessage::HasVersion("a".to_string(), "v2".to_string()));
    record_version(&mut slot, VersionMessage::NoVersion);
    assert_eq!(commit_update(&mut slot), None);
}

#[test]
fn defaults_of_requests() {
    assert_eq!(SingleRunExecutionStrategy::default(), SingleRunExecutionStrategy::Nothing);
    assert_eq!(ManualRunRequest::default(), ManualRunRequest::All);
}
