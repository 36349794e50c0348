use beetle::api::{Claims, ClaimsError};
use beetle::registrar::ownership::{
    owned_registration, ownership_change, registration_check, with_registered_device, OwnershipError,
};
use beetle::schema::{
    DeviceAuthorityModel, DeviceAuthorityRecord, DeviceDiagnosticOwnership, DeviceDiagnosticRegistration,
};
use beetle::schema::UserDeviceSnapshot;
use beetle::registrar::schedule::{check_user_token, token_refresh_step, TokenStep};
use beetle::registrar::users::{open_token_handle, seal_token_handle, sealed_token_handle};
use beetle::tokens::{
    open_access_token, open_sealed_payload, opened_payload, opened_text, seal_access_token, seal_payload,
    ClaimValue,
};
use beetle::vendor::google::{TokenHandle, TokenResponse};

const SECRET: &str = "shared-secret";

/// Seconds since the unix epoch a day from now, read from the test's own clock.
fn a_day_from_now() -> usize {
    let now = std::time::SystemTime::now().duration_since(std::time::UNIX_EPOCH).unwrap();
    now.as_secs() as usize + 86_400
}

#[test]
fn session_tokens_open_to_their_claims() {
    let claims = Claims::for_user("user-1");
    let token = claims.encode(SECRET).unwrap();
    assert_ne!(token, "user-1");
    assert_eq!(token.split('.').count(), 3);
    let decoded = Claims::decode(&token, SECRET).unwrap();
    assert_eq!(decoded, claims);
    assert_eq!(Claims::decode(&token, "another-secret"), Err(ClaimsError::BadJwt));
    assert_eq!(Claims::decode("not a token", SECRET), Err(ClaimsError::BadJwt));
}

#[test]
fn expired_session_tokens_do_not_open() {
    let claims = Claims { exp: 1_000, oid: "user-1".to_string() };
    let token = claims.encode(SECRET).unwrap();
    assert_eq!(Claims::decode(&token, SECRET), Err(ClaimsError::BadJwt));
}

#[test]
fn session_claims_follow_what_opened() {
    assert_eq!(
        Claims::from_opened(Some((12, ClaimValue::Text("u".to_string())))),
        Ok(Claims { exp: 12, oid: "u".to_string() })
    );
    assert_eq!(Claims::from_opened(Some((12, ClaimValue::Json("7".to_string())))), Err(ClaimsError::BadJwt));
    assert_eq!(Claims::from_opened(None), Err(ClaimsError::BadJwt));
}

#[test]
fn opened_claims_are_read_by_kind() {
    assert_eq!(opened_text(Some((5, ClaimValue::Text("t".to_string())))), Some("t".to_string()));
    assert_eq!(opened_text(Some((5, ClaimValue::Json("{}".to_string())))), None);
    assert_eq!(opened_payload(Some((5, ClaimValue::Json("{}".to_string())))), Some("{}".to_string()));
    assert_eq!(opened_payload(Some((5, ClaimValue::Text("t".to_string())))), None);
    assert_eq!(opened_payload(Some((u32::MAX as u64 + 1, ClaimValue::Json("{}".to_string())))), None);
    assert_eq!(opened_payload(None), None);
}

#[test]
fn access_tokens_round_trip() {
    let sealed = seal_access_token("vendor \"token\"", a_day_from_now(), SECRET);
    assert_ne!(sealed, "vendor \"token\"");
    assert_eq!(open_access_token(&sealed, SECRET), Some("vendor \"token\"".to_string()));
    assert_eq!(open_access_token(&sealed, "wrong"), None);
}

#[test]
fn sealed_payloads_round_trip() {
    let sealed = seal_payload("{\"id\":\"job-1\"}", SECRET).unwrap();
    assert_eq!(open_sealed_payload(&sealed, SECRET), Some("{\"id\":\"job-1\"}".to_string()));
    assert_eq!(open_sealed_payload(&sealed, "wrong"), None);
    assert_eq!(seal_payload("not json", SECRET), None);
}

fn handle(access: &str, refresh: Option<&str>, created: i64, expires_in: u64) -> TokenHandle {
    TokenHandle {
        created,
        token: TokenResponse {
            access_token: access.to_string(),
            refresh_token: refresh.map(str::to_string),
            expires_in,
        },
    }
}

#[test]
fn stored_handles_seal_both_tokens() {
    let vendor = handle("access", Some("refresh"), 1_000, 3_600);
    let stored = sealed_token_handle(&vendor, a_day_from_now(), SECRET);
    assert_eq!(stored.created, 1_000);
    assert_eq!(stored.token.expires_in, 3_600);
    assert_eq!(open_access_token(&stored.token.access_token, SECRET), Some("access".to_string()));
    assert_eq!(
        open_access_token(stored.token.refresh_token.as_deref().unwrap(), SECRET),
        Some("refresh".to_string())
    );
    let opened = open_token_handle(stored.clone(), SECRET).unwrap();
    assert_eq!(opened.token.access_token, "access");
    assert_eq!(opened.token.refresh_token, stored.token.refresh_token);
    let later = seal_token_handle(&vendor, SECRET);
    assert_eq!(open_access_token(&later.token.access_token, SECRET), Some("access".to_string()));
    assert!(later.token.refresh_token.is_some());
    let without_refresh = sealed_token_handle(&handle("access", None, 5, 60), a_day_from_now(), SECRET);
    assert_eq!(without_refresh.token.refresh_token, None);
    assert_eq!(open_token_handle(vendor, SECRET), None);
}

#[test]
fn token_steps_follow_the_expiry_and_what_opened() {
    let a = Some("a".to_string());
    let r = Some("r".to_string());
    assert_eq!(token_refresh_step(5_000, 10, a.clone(), r.clone()), TokenStep::Fresh);
    assert_eq!(token_refresh_step(1_000, 10, None, r.clone()), TokenStep::Cleanup);
    assert_eq!(token_refresh_step(1_000, 10, a.clone(), None), TokenStep::Unvalidated);
    assert_eq!(
        token_refresh_step(1_000, 10, a, r),
        TokenStep::Refresh { access: "a".to_string(), refresh: "r".to_string() }
    );
    assert_eq!(token_refresh_step(100, 5_000, None, None), TokenStep::Cleanup);
}

#[test]
fn stored_tokens_are_checked() {
    let vendor = handle("access", Some("refresh"), 0, 3_600);
    let stored = sealed_token_handle(&vendor, a_day_from_now(), SECRET);
    // created at 0, checked at 3_000 seconds: 600 seconds left, under the buffer.
    assert_eq!(
        check_user_token(&stored, 3_000_000, SECRET),
        TokenStep::Refresh { access: "access".to_string(), refresh: "refresh".to_string() }
    );
    assert_eq!(check_user_token(&stored, 1_000, SECRET), TokenStep::Fresh);
    assert_eq!(check_user_token(&stored, 3_000_000, "wrong"), TokenStep::Cleanup);
    let no_refresh = sealed_token_handle(&handle("access", None, 0, 3_600), a_day_from_now(), SECRET);
    assert_eq!(check_user_token(&no_refresh, 3_000_000, SECRET), TokenStep::Unvalidated);
}

#[test]
fn registered_devices_join_the_user_map() {
    let first = with_registered_device(None, "d1".to_string(), UserDeviceSnapshot { nickname: None });
    assert_eq!(first.len(), 1);
    let named = UserDeviceSnapshot { nickname: Some("kitchen".to_string()) };
    let second = with_registered_device(Some(first), "d2".to_string(), named.clone());
    assert_eq!(second.len(), 2);
    assert_eq!(second.get("d2"), Some(&named));
    assert_eq!(second.get("d1"), Some(&UserDeviceSnapshot { nickname: None }));
    let renamed = UserDeviceSnapshot { nickname: Some("hall".to_string()) };
    let third = with_registered_device(Some(second), "d2".to_string(), renamed.clone());
    assert_eq!(third.len(), 2);
    assert_eq!(third.get("d2"), Some(&renamed));
}

#[test]
fn texts_with_escapes_round_trip() {
    let text = "quote \" slash \\ tab \t line \n bell \u{7} del \u{7f} snow \u{2603}";
    let sealed = seal_access_token(text, a_day_from_now(), SECRET);
    assert_eq!(open_access_token(&sealed, SECRET), Some(text.to_string()));
    let claims = Claims { exp: a_day_from_now(), oid: text.to_string() };
    assert_eq!(Claims::decode(&claims.encode(SECRET).unwrap(), SECRET), Ok(claims));
}

#[test]
fn payloads_read_back_as_written_values() {
    let sealed = seal_payload("{ \"b\": 1, \"a\": [true, null] }", SECRET).unwrap();
    assert_eq!(open_sealed_payload(&sealed, SECRET), Some("{\"a\":[true,null],\"b\":1}".to_string()));
    let text = seal_payload("\"just a string\"", SECRET).unwrap();
    assert_eq!(open_sealed_payload(&text, SECRET), None);
}

#[test]
fn ownership_jobs_are_checked() {
    let exclusive = Some(DeviceAuthorityRecord {
        device_id: "d".to_string(),
        authority_model: Some(DeviceAuthorityModel::Exclusive { owner: "o".to_string() }),
    });
    assert_eq!(ownership_change(&None, true), Err(OwnershipError::RecordNotFound));
    assert_eq!(
        ownership_change(&exclusive, true),
        Ok(Some(DeviceAuthorityModel::Public { owner: "o".to_string(), guests: vec![] }))
    );
    assert_eq!(ownership_change(&exclusive, false), Ok(None));
    let owner = "o".to_string();
    let stranger = "s".to_string();
    assert_eq!(registration_check(false, true, &exclusive, &owner), Err(OwnershipError::DeviceNotFound));
    assert_eq!(registration_check(true, false, &exclusive, &owner), Err(OwnershipError::DeviceNotFound));
    assert_eq!(registration_check(true, true, &exclusive, &stranger), Err(OwnershipError::NoAccess));
    assert_eq!(registration_check(true, true, &exclusive, &owner), Ok(()));
    assert_eq!(registration_check(true, true, &None, &stranger), Ok(()));
    assert_eq!(OwnershipError::NoAccess.message(), "no-access");
    assert_eq!(OwnershipError::RecordNotFound.message(), "not-found");
    assert_eq!(OwnershipError::DeviceNotFound.message(), "device not found");
    assert_eq!(
        owned_registration(&owner),
        DeviceDiagnosticRegistration::Owned(DeviceDiagnosticOwnership { original_owner: "o".to_string() })
    );
}
