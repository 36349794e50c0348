//! Things that happen on a schedule: refreshing access tokens that are about to expire.

use vstd::prelude::*;
use crate::time::{earliest_millis, latest_millis, max_delta_seconds, millis_before, timestamp_in_range};
use crate::tokens::{open_access_token, opens_to_text};
use crate::vendor::google::TokenHandle;

verus! {

/// The amount of seconds before its expiry at which an access token is refreshed.
pub const EXPIRATION_BUFFER: u64 = 1000;

/// The amount of seconds between device schedule refreshes.
pub const SCHEDULE_REFRESH_SECONDS: i64 = 300;

/// The whole seconds between two instants given in milliseconds, whichever comes first. The
/// platform keeps instants to the millisecond, so the count is taken of the milliseconds between
/// them, cut down to whole seconds.
pub open spec fn spec_age_seconds(now: i64, created: i64) -> int {
    if now >= created {
        (now - created) / 1000
    } else {
        (created - now) / 1000
    }
}

/// The whole seconds that passed since a token was created.
pub fn token_age_seconds(now: i64, created: i64) -> (age: u64)
    requires
        timestamp_in_range(now),
        timestamp_in_range(created),
    ensures
        age == spec_age_seconds(now, created),
{
    if now >= created {
        ((now - created) / 1000) as u64
    } else {
        ((created - now) / 1000) as u64
    }
}

/// A token needs a refresh when less than `EXPIRATION_BUFFER` seconds of its lifetime are left
/// (no time left counts as none).
pub open spec fn spec_needs_refresh(expires_in: u64, age: u64) -> bool {
    (if expires_in >= age {
        expires_in - age
    } else {
        0
    }) < EXPIRATION_BUFFER
}

/// Whether a token that expires `expires_in` seconds after its creation, and was created `age`
/// seconds ago, needs a refresh.
pub fn needs_refresh(expires_in: u64, age: u64) -> (refresh: bool)
    ensures
        refresh == spec_needs_refresh(expires_in, age),
{
    let remaining = match expires_in.checked_sub(age) {
        Some(left) => left,
        None => 0,
    };
    remaining < EXPIRATION_BUFFER
}

/// The instant before which a device schedule is due for a refresh: the configured interval
/// (`SCHEDULE_REFRESH_SECONDS` when none is configured) before now, when a date-time can hold it.
pub open spec fn spec_schedule_cutoff(now: i64, interval_seconds: Option<i64>) -> Option<int> {
    let interval = match interval_seconds {
        Some(s) => s as int,
        None => SCHEDULE_REFRESH_SECONDS as int,
    };
    let cutoff = now - interval * 1000;
    if earliest_millis() <= cutoff <= latest_millis() {
        Some(cutoff)
    } else {
        None
    }
}

/// The instant before which device schedules are due for a refresh, in milliseconds since the
/// unix epoch.
pub fn schedule_cutoff(now: i64, interval_seconds: Option<i64>) -> (cutoff: Result<i64, String>)
    requires
        timestamp_in_range(now),
        interval_seconds matches Some(s) ==> -max_delta_seconds() <= s <= max_delta_seconds(),
    ensures
        match cutoff {
            Ok(c) => spec_schedule_cutoff(now, interval_seconds) == Some(c as int),
            Err(message) => spec_schedule_cutoff(now, interval_seconds) is None && message@
                == "unable to create cutoff date for device schedule refresh"@,
        },
{
    let interval = match interval_seconds {
        Some(s) => s,
        None => SCHEDULE_REFRESH_SECONDS,
    };
    match millis_before(now, interval) {
        Some(c) => Ok(c),
        None => Err(String::from_str("unable to create cutoff date for device schedule refresh")),
    }
}

/// What the token check does with one user's stored token.
#[derive(Debug, Clone, PartialEq, Eq)]
pub enum TokenStep {
    /// Enough of its lifetime is left: nothing is done.
    Fresh,
    /// The access token does not open: the user's stored token is removed.
    Cleanup,
    /// No refresh token opens: the token is left as it is.
    Unvalidated,
    /// The token is refreshed with the vendor, using these opened tokens.
    Refresh {
        /// The vendor's access token.
        access: String,
        /// The vendor's refresh token.
        refresh: String,
    },
}

/// What the token check does with a stored token, given whether it is close to its expiry and
/// the vendor's tokens that its access and refresh tokens opened to: nothing for a token with
/// enough of its lifetime left; a cleanup when the access token did not open; nothing more when
/// no refresh token opened; a refresh otherwise.
pub fn token_refresh_step(
    expires_in: u64,
    age: u64,
    access: Option<String>,
    refresh: Option<String>,
) -> (step: TokenStep)
    ensures
        !spec_needs_refresh(expires_in, age) ==> step is Fresh,
        spec_needs_refresh(expires_in, age) ==> step == match (access, refresh) {
            (None, _) => TokenStep::Cleanup,
            (Some(_), None) => TokenStep::Unvalidated,
            (Some(a), Some(r)) => TokenStep::Refresh { access: a, refresh: r },
        },
{
    if !needs_refresh(expires_in, age) {
        return TokenStep::Fresh;
    }
    match (access, refresh) {
        (None, _) => TokenStep::Cleanup,
        (Some(_), None) => TokenStep::Unvalidated,
        (Some(a), Some(r)) => TokenStep::Refresh { access: a, refresh: r },
    }
}

/// Whether a refresh step uses vendor tokens that the stored token's access and refresh tokens
/// open to with the secret.
pub open spec fn refreshes_with(step: TokenStep, handle: TokenHandle, secret: Seq<char>) -> bool {
    match step {
        TokenStep::Refresh { access, refresh } => {
            &&& opens_to_text(handle.token.access_token@, secret, "token"@, access@)
            &&& match handle.token.refresh_token {
                Some(r) => opens_to_text(r@, secret, "token"@, refresh@),
                None => false,
            }
        },
        _ => true,
    }
}

/// Checks one user's stored token at the instant `now`: a token close to its expiry has its
/// access token opened with the secret, then its refresh token, and the step follows from what
/// opened. Whether a token opens also depends on the clock, so what is stated is what holds of
/// every outcome.
pub fn check_user_token(handle: &TokenHandle, now: i64, secret: &str) -> (step: TokenStep)
    requires
        timestamp_in_range(now),
        timestamp_in_range(handle.created),
    ensures
        !spec_needs_refresh(handle.token.expires_in, spec_age_seconds(now, handle.created) as u64)
            ==> step is Fresh,
        !(step is Fresh) ==> spec_needs_refresh(
            handle.token.expires_in,
            spec_age_seconds(now, handle.created) as u64,
        ),
        refreshes_with(step, *handle, secret@),
        handle.token.refresh_token is None ==> !(step is Refresh),
{
    let age = token_age_seconds(now, handle.created);
    if !needs_refresh(handle.token.expires_in, age) {
        return TokenStep::Fresh;
    }
    let access = open_access_token(handle.token.access_token.as_str(), secret);
    let refresh = match (&access, &handle.token.refresh_token) {
        (Some(_), Some(stored)) => open_access_token(stored.as_str(), secret),
        _ => None,
    };
    token_refresh_step(handle.token.expires_in, age, access, refresh)
}

} // verus!
