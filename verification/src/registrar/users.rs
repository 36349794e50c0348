//! Storing a user's vendor tokens: both are sealed before they are kept on the user's record,
//! and the access token is opened again before the vendor is asked with it.

use vstd::prelude::*;
use crate::time::{day_after, epoch_seconds, seconds_a_day_from_now, timestamp_in_range};
use crate::tokens::{json_string_text, open_access_token, opens_to_text, seal_access_token, sealed_claims};
use crate::vendor::google::{TokenHandle, TokenResponse};

verus! {

/// Whether a token is the vendor's token sealed with the secret and expiry, and opens back to it.
pub open spec fn sealed_as(sealed: Seq<char>, token: Seq<char>, exp: usize, secret: Seq<char>) -> bool {
    &&& sealed == sealed_claims(exp as u64, "token"@, json_string_text(token), secret)
    &&& opens_to_text(sealed, secret, "token"@, token)
}

/// Whether a stored handle is the vendor's handle with both its tokens sealed.
pub open spec fn stores(stored: TokenHandle, handle: TokenHandle, exp: usize, secret: Seq<char>) -> bool {
    &&& stored.created == handle.created
    &&& stored.token.expires_in == handle.token.expires_in
    &&& sealed_as(stored.token.access_token@, handle.token.access_token@, exp, secret)
    &&& match (stored.token.refresh_token, handle.token.refresh_token) {
        (Some(sealed), Some(refresh)) => sealed_as(sealed@, refresh@, exp, secret),
        (None, None) => true,
        _ => false,
    }
}

/// Seals the tokens of a vendor's handle for storage with the given expiry: the access token, and
/// the refresh token when there is one.
pub fn sealed_token_handle(handle: &TokenHandle, exp: usize, secret: &str) -> (stored: TokenHandle)
    ensures
        stores(stored, *handle, exp, secret@),
{
    let access_token = seal_access_token(handle.token.access_token.as_str(), exp, secret);
    let refresh_token = match &handle.token.refresh_token {
        Some(refresh) => Some(seal_access_token(refresh.as_str(), exp, secret)),
        None => None,
    };
    TokenHandle {
        created: handle.created,
        token: TokenResponse { access_token, refresh_token, expires_in: handle.token.expires_in },
    }
}

/// Seals the tokens of a vendor's handle for storage, expiring a day from now.
pub fn seal_token_handle(handle: &TokenHandle, secret: &str) -> (stored: TokenHandle)
    ensures
        exists|now: i64, fallback: i64|
            timestamp_in_range(now) && timestamp_in_range(fallback) && stores(
                stored,
                *handle,
                epoch_seconds(day_after(now, fallback)) as usize,
                secret@,
            ),
{
    let seconds = seconds_a_day_from_now();
    let exp = #[verifier::truncate] (seconds as usize);
    sealed_token_handle(handle, exp, secret)
}

/// Whether a handle is the stored handle with its access token opened with the secret.
pub open spec fn opened_from(opened: TokenHandle, stored: TokenHandle, secret: Seq<char>) -> bool {
    &&& opened.created == stored.created
    &&& opened.token.expires_in == stored.token.expires_in
    &&& opened.token.refresh_token == stored.token.refresh_token
    &&& opens_to_text(stored.token.access_token@, secret, "token"@, opened.token.access_token@)
}

/// Opens the access token of a stored handle with the secret, so that the vendor can be asked
/// with it; none when it does not open.
pub fn open_token_handle(stored: TokenHandle, secret: &str) -> (opened: Option<TokenHandle>)
    ensures
        opened matches Some(h) ==> opened_from(h, stored, secret@),
{
    match open_access_token(stored.token.access_token.as_str(), secret) {
        Some(access_token) => Some(
            TokenHandle {
                created: stored.created,
                token: TokenResponse {
                    access_token,
                    refresh_token: stored.token.refresh_token,
                    expires_in: stored.token.expires_in,
                },
            },
        ),
        None => None,
    }
}

} // verus!
