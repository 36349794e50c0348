//! Jobs that run and configure the schedule of a device, and the nonce protocol that keeps one
//! refresh of a schedule in flight at a time.

use vstd::prelude::*;
use crate::schema::{opt_text, DeviceSchedule, DeviceScheduleKind, ScheduleKindModel};

verus! {

/// The abstract value of an optional schedule kind.
pub open spec fn kind_view(kind: Option<DeviceScheduleKind>) -> Option<ScheduleKindModel> {
    match kind {
        Some(k) => Some(k@),
        None => None,
    }
}

/// The kind of a schedule after the default schedule is toggled for a user: enabling keeps an
/// existing kind or starts rendering the user's calendar; disabling removes the kind.
pub open spec fn spec_toggled_kind(
    should_enable: bool,
    current: Option<ScheduleKindModel>,
    user: Seq<char>,
) -> Option<ScheduleKindModel> {
    if should_enable {
        match current {
            Some(kind) => Some(kind),
            None => Some(ScheduleKindModel::UserEventsBasic(user)),
        }
    } else {
        None
    }
}

/// The kind of a schedule after the default schedule is toggled for a user.
pub fn toggled_kind(
    should_enable: bool,
    current: Option<DeviceScheduleKind>,
    user_id: &String,
) -> (next: Option<DeviceScheduleKind>)
    ensures
        kind_view(next) == spec_toggled_kind(should_enable, kind_view(current), user_id@),
{
    match (should_enable, current) {
        (true, Some(kind)) => Some(kind),
        (true, None) => Some(DeviceScheduleKind::UserEventsBasic { user_oid: user_id.clone() }),
        (false, _) => None,
    }
}

/// An execution job is stale when it was queued with a nonce and the schedule has since been
/// given a different one.
pub open spec fn spec_is_stale(job_nonce: Option<Seq<char>>, stored_nonce: Option<Seq<char>>) -> bool {
    job_nonce matches Some(job) && stored_nonce matches Some(stored) && job != stored
}

/// Whether an execution job is stale and must do nothing.
pub fn is_stale_execution(job_nonce: &Option<String>, stored_nonce: &Option<String>) -> (stale: bool)
    ensures
        stale == spec_is_stale(opt_text(*job_nonce), opt_text(*stored_nonce)),
{
    match (job_nonce, stored_nonce) {
        (Some(job), Some(stored)) => *job != *stored,
        _ => false,
    }
}

/// A schedule is ready for a new refresh when the latest queued refresh has run, or when no
/// refresh was ever queued.
pub open spec fn spec_ready_for_refresh(refresh: Option<Seq<char>>, latest: Option<Seq<char>>) -> bool {
    match (refresh, latest) {
        (Some(current), Some(done)) => current == done,
        (None, None) => true,
        _ => false,
    }
}

/// Whether a schedule is ready for a new refresh.
pub fn ready_for_refresh(schedule: &DeviceSchedule) -> (ready: bool)
    ensures
        ready == spec_ready_for_refresh(
            opt_text(schedule.refresh_nonce),
            opt_text(schedule.latest_refresh_nonce),
        ),
{
    match (&schedule.refresh_nonce, &schedule.latest_refresh_nonce) {
        (Some(current), Some(latest)) => *current == *latest,
        (None, None) => true,
        _ => false,
    }
}

/// The schedule once a refresh was queued under a new nonce.
pub fn with_queued_refresh(schedule: DeviceSchedule, nonce: String) -> (next: DeviceSchedule)
    ensures
        next == (DeviceSchedule { refresh_nonce: Some(nonce), ..schedule }),
{
    DeviceSchedule { refresh_nonce: Some(nonce), ..schedule }
}

/// The schedule once an execution ran at `now`: it records the time, and that the refresh it was
/// queued for has run.
pub fn with_recorded_execution(schedule: DeviceSchedule, now: u64) -> (next: DeviceSchedule)
    ensures
        next.last_executed == Some(now),
        opt_text(next.latest_refresh_nonce) == opt_text(schedule.refresh_nonce),
        next.refresh_nonce == schedule.refresh_nonce,
        next.device_id == schedule.device_id,
        next.kind == schedule.kind,
{
    let latest = match &schedule.refresh_nonce {
        Some(nonce) => Some(nonce.clone()),
        None => None,
    };
    DeviceSchedule { last_executed: Some(now), latest_refresh_nonce: latest, ..schedule }
}

/// One refresh at a time: once a refresh is queued under a nonce that differs from the last one
/// that ran, the schedule is not ready for another one; the job queued with that nonce is not
/// stale; and once it has run, the schedule is ready again. A job queued under any other nonce
/// is stale.
pub proof fn law_one_refresh_in_flight(
    latest: Option<Seq<char>>,
    nonce: Seq<char>,
    other: Seq<char>,
)
    requires
        latest != Some(nonce),
        other != nonce,
    ensures
        !spec_ready_for_refresh(Some(nonce), latest),
        !spec_is_stale(Some(nonce), Some(nonce)),
        spec_is_stale(Some(other), Some(nonce)),
        spec_ready_for_refresh(Some(nonce), Some(nonce)),
{
}

} // verus!
