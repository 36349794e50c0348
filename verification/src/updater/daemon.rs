//! The decisions of the updater's polling loop and of its http api: when units run, what each
//! run is asked to do, what the web server learns of the versions found, and what a user may
//! request.

use vstd::prelude::*;
use crate::updater::{
    ManualRunRequest, ManualRunRequestPayload, SingleRunExecutionStrategy, UpdaterUnitConfig,
    UpdaterUnitResult, VersionMessage,
};

verus! {

/// What a run of the unit named `unit_name` is asked to do: the version of a request that names
/// the unit (or any newer version, when the request names none), any newer version when every
/// unit was requested, and only a check otherwise.
pub open spec fn spec_unit_strategy(
    message: Option<ManualRunRequest>,
    unit_name: Seq<char>,
) -> SingleRunExecutionStrategy {
    match message {
        Some(ManualRunRequest::Specific(name, version)) => if name@ == unit_name {
            match version {
                Some(v) => SingleRunExecutionStrategy::ToVersion(v),
                None => SingleRunExecutionStrategy::Update,
            }
        } else {
            SingleRunExecutionStrategy::Nothing
        },
        Some(ManualRunRequest::All) => SingleRunExecutionStrategy::Update,
        None => SingleRunExecutionStrategy::Nothing,
    }
}

/// What a run request made to the api asks for: every unit when it names none, the named unit
/// (to the given version, if any) otherwise; a version without a unit's name is refused.
pub open spec fn spec_manual_request(payload: ManualRunRequestPayload) -> Option<
    ManualRunRequest,
> {
    match (payload.name, payload.version) {
        (None, None) => Some(ManualRunRequest::All),
        (Some(name), version) => Some(ManualRunRequest::Specific(name, version)),
        (None, Some(_)) => None,
    }
}

/// The version the web server holds after a message from the polling loop.
pub open spec fn spec_record_version(
    slot: Option<(String, String)>,
    message: VersionMessage,
) -> Option<(String, String)> {
    match message {
        VersionMessage::HasVersion(service, version) => Some((service, version)),
        VersionMessage::NoVersion => None,
    }
}

/// What committing the held version queues: a run of its unit to that version.
pub open spec fn spec_commit_request(slot: Option<(String, String)>) -> Option<ManualRunRequest> {
    match slot {
        Some((service, version)) => Some(ManualRunRequest::Specific(service, Some(version))),
        None => None,
    }
}

/// Whether the polling loop runs its units now: when the configured delay has passed since the
/// last round, or at once when a request arrived.
pub fn poll_due(elapsed_seconds: u64, delay_seconds: u64, has_message: bool) -> (due: bool)
    ensures
        due == (elapsed_seconds >= delay_seconds || has_message),
{
    !(elapsed_seconds < delay_seconds && !has_message)
}

/// What a run of the unit named `unit_name` is asked to do, given the request that arrived.
pub fn unit_strategy(message: &Option<ManualRunRequest>, unit_name: &String) -> (strategy:
    SingleRunExecutionStrategy)
    ensures
        strategy == spec_unit_strategy(*message, unit_name@),
{
    match message {
        Some(ManualRunRequest::Specific(name, version)) => {
            if *name == *unit_name {
                match version {
                    Some(v) => SingleRunExecutionStrategy::ToVersion(v.clone()),
                    None => SingleRunExecutionStrategy::Update,
                }
            } else {
                SingleRunExecutionStrategy::Nothing
            }
        },
        Some(ManualRunRequest::All) => SingleRunExecutionStrategy::Update,
        None => SingleRunExecutionStrategy::Nothing,
    }
}

/// What the polling loop tells the web server once a unit ran: the release of an available
/// update, or that there is none. A unit whose run failed reports nothing and is dropped from
/// the next rounds.
pub fn unit_report(name: String, result: &Result<UpdaterUnitResult, String>) -> (report: Option<
    VersionMessage,
>)
    ensures
        match result {
            Err(_) => report is None,
            Ok(UpdaterUnitResult::UpdateAvailable(version)) => report == Some(
                VersionMessage::HasVersion(name, *version),
            ),
            Ok(_) => report == Some(VersionMessage::NoVersion),
        },
{
    match result {
        Err(_) => None,
        Ok(UpdaterUnitResult::UpdateAvailable(version)) => Some(
            VersionMessage::HasVersion(name, version.clone()),
        ),
        Ok(_) => Some(VersionMessage::NoVersion),
    }
}

/// The units of the next round; the loop ends with an error once none is left.
pub fn remaining_units(kept: Vec<UpdaterUnitConfig>) -> (units: Result<
    Vec<UpdaterUnitConfig>,
    String,
>)
    ensures
        match units {
            Ok(v) => kept.len() > 0 && v == kept,
            Err(message) => kept.len() == 0 && message@ == "no units left"@,
        },
{
    if kept.len() == 0 {
        Err(String::from_str("no units left"))
    } else {
        Ok(kept)
    }
}

/// Reads a run request made to the api.
pub fn manual_request(payload: ManualRunRequestPayload) -> (request: Result<
    ManualRunRequest,
    String,
>)
    ensures
        match request {
            Ok(r) => spec_manual_request(payload) == Some(r),
            Err(message) => spec_manual_request(payload) is None && message@
                == "missing 'name' for specific version"@,
        },
{
    match (payload.name, payload.version) {
        (None, None) => Ok(ManualRunRequest::All),
        (Some(name), version) => Ok(ManualRunRequest::Specific(name, version)),
        (None, Some(_)) => Err(String::from_str("missing 'name' for specific version")),
    }
}

/// Records a message from the polling loop in the version the web server holds.
pub fn record_version(slot: &mut Option<(String, String)>, message: VersionMessage)
    ensures
        *final(slot) == spec_record_version(*old(slot), message),
{
    match message {
        VersionMessage::HasVersion(service, version) => {
            *slot = Some((service, version));
        },
        VersionMessage::NoVersion => {
            *slot = None;
        },
    }
}

/// Takes the held version out of the web server, and says what run to queue for it.
pub fn commit_update(slot: &mut Option<(String, String)>) -> (request: Option<ManualRunRequest>)
    ensures
        *final(slot) is None,
        request == spec_commit_request(*old(slot)),
{
    match slot.take() {
        Some((service, version)) => Some(ManualRunRequest::Specific(service, Some(version))),
        None => None,
    }
}

/// A version found by the polling loop, once committed, queues a run of its unit to exactly
/// that version and is then gone; a later "no version" message leaves nothing to commit.
pub proof fn law_commit_found_version(
    slot: Option<(String, String)>,
    service: String,
    version: String,
)
    ensures
        spec_commit_request(spec_record_version(slot, VersionMessage::HasVersion(service, version)))
            == Some(ManualRunRequest::Specific(service, Some(version))),
        spec_commit_request(spec_record_version(slot, VersionMessage::NoVersion)) is None,
        spec_commit_request(None) is None,
{
}

/// A request naming a unit and a version moves that unit, and only it, to that version; a
/// request naming a unit alone updates that unit to any newer version; a request naming none
/// updates every unit.
pub proof fn law_requests_target_units(
    payload: ManualRunRequestPayload,
    unit_name: Seq<char>,
)
    ensures
        match spec_manual_request(payload) {
            Some(request) => match (payload.name, payload.version) {
                (Some(name), Some(version)) => spec_unit_strategy(Some(request), unit_name) == if name@
                    == unit_name {
                    SingleRunExecutionStrategy::ToVersion(version)
                } else {
                    SingleRunExecutionStrategy::Nothing
                },
                (Some(name), None) => spec_unit_strategy(Some(request), unit_name) == if name@
                    == unit_name {
                    SingleRunExecutionStrategy::Update
                } else {
                    SingleRunExecutionStrategy::Nothing
                },
                _ => spec_unit_strategy(Some(request), unit_name)
                    == SingleRunExecutionStrategy::Update,
            },
            None => payload.name is None && payload.version is Some,
        },
{
}

} // verus!
