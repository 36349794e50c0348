use beetle::api::{
    authorization_url, join, logout_cookie, message_origin, queue_action, session_cookie, vendor_user, QueueAction,
    QueuePayloadKind, WebConfiguration,
};
use beetle::config::GoogleConfiguration;
use beetle::cli::{
    disconnect_cutoff, id_from_acl_entry, provision_entry, removable_ids, ProvisionCommand,
    RegistrarConfiguration as CliRegistrarConfiguration,
};
use beetle::redis::QueueValue;
use beetle::cli::migrate::{
    migrate_down, migrate_up, migration_action, MigrateOp, MigrationAction, OriginDeviceAuthorityModel,
    TargetDeviceAuthorityModel,
};
use beetle::redis::device_message_queue_id;
use beetle::registrar::device_state::DeviceStateTransition;
use beetle::registrar::jobs::{RegistrarJobKind, RegistrarRenderKinds};
use beetle::registrar::ownership::DeviceOwnershipChangeRequest;
use beetle::rendering::geometry::{fits_geometry, message_geometry, BoundingConstants, Rectangle};
use beetle::rendering::{
    left_split_width, lighting_command, FontSelection, LightingLayout, OptionalBoundingBox, RenderLayout,
    RenderVariant, StylizedMessage,
};
use beetle::reporting::{event_type, Event};
use beetle::text::trim_white_space;
use beetle::wchgen::{http_response, minify, target_arguments};
use beetle::schema::{DeviceStateMessageOrigin, User};

fn user(nickname: Option<&str>, name: Option<&str>) -> User {
    User {
        oid: "oid-1".to_string(),
        picture: String::new(),
        name: name.map(|n| n.to_string()),
        nickname: nickname.map(|n| n.to_string()),
        devices: None,
    }
}

#[test]
fn message_origins_prefer_nicknames() {
    assert_eq!(
        message_origin(&user(Some("nick"), Some("name"))),
        DeviceStateMessageOrigin::User { nickname: "nick".to_string() }
    );
    assert_eq!(
        message_origin(&user(None, Some("name"))),
        DeviceStateMessageOrigin::User { nickname: "name".to_string() }
    );
    assert_eq!(message_origin(&user(None, None)), DeviceStateMessageOrigin::Unknown);
}

#[test]
fn queue_requests_become_jobs_or_renders() {
    let who = user(Some("nick"), None);
    match queue_action(QueuePayloadKind::Message("hi".to_string()), "d".to_string(), &who) {
        QueueAction::Job(RegistrarJobKind::MutateDeviceState(request)) => {
            assert_eq!(request.device_id, "d");
            assert_eq!(
                request.transition,
                DeviceStateTransition::PushMessage(
                    "hi".to_string(),
                    DeviceStateMessageOrigin::User { nickname: "nick".to_string() }
                )
            );
        }
        _ => panic!("expected a transition job"),
    }
    match queue_action(QueuePayloadKind::MakePublic, "d".to_string(), &who) {
        QueueAction::Job(RegistrarJobKind::OwnershipChange(DeviceOwnershipChangeRequest::SetPublicAvailability(
            id,
            public,
        ))) => {
            assert_eq!(id, "d");
            assert!(public);
        }
        _ => panic!("expected an ownership job"),
    }
    match queue_action(QueuePayloadKind::Schedule(false), "d".to_string(), &who) {
        QueueAction::Job(RegistrarJobKind::ToggleDefaultSchedule { should_enable, device_id, user_id }) => {
            assert!(!should_enable);
            assert_eq!(device_id, "d");
            assert_eq!(user_id, "oid-1");
        }
        _ => panic!("expected a schedule job"),
    }
    match queue_action(QueuePayloadKind::Registration, "d".to_string(), &who) {
        QueueAction::Job(RegistrarJobKind::Renders(RegistrarRenderKinds::RegistrationScannable(id))) => {
            assert_eq!(id, "d")
        }
        _ => panic!("expected a registration render job"),
    }
    match queue_action(QueuePayloadKind::Lights(true), "d".to_string(), &who) {
        QueueAction::Render(RenderVariant::Lighting(container)) => {
            assert_eq!(container.layout, LightingLayout::On);
            assert!(container.created.is_some());
        }
        _ => panic!("expected a lighting render"),
    }
    match queue_action(QueuePayloadKind::Link("https://x".to_string()), "d".to_string(), &who) {
        QueueAction::Render(RenderVariant::Layout(container)) => match container.layout {
            RenderLayout::Scannable(scannable) => assert_eq!(scannable.contents, "https://x"),
            _ => panic!("expected a scannable"),
        },
        _ => panic!("expected a layout render"),
    }
}

#[test]
fn acl_entries_name_their_ids() {
    assert_eq!(id_from_acl_entry("user abc on #... ~ob:abc"), Some("abc".to_string()));
    assert_eq!(id_from_acl_entry("user abc"), Some("abc".to_string()));
    assert_eq!(id_from_acl_entry("user"), None);
    assert_eq!(id_from_acl_entry("user  x"), Some(String::new()));
}

#[test]
fn migrations_run_once_unless_forced() {
    assert_eq!(migration_action(false, MigrateOp::Up), MigrationAction::RunUp);
    assert_eq!(migration_action(true, MigrateOp::Up), MigrationAction::Keep);
    assert_eq!(migration_action(true, MigrateOp::UpForce), MigrationAction::RunUp);
    assert_eq!(migration_action(true, MigrateOp::Down), MigrationAction::RunDown);
    assert_eq!(migration_action(false, MigrateOp::Down), MigrationAction::Skip);
    assert_eq!(migration_action(false, MigrateOp::DownForce), MigrationAction::RunDown);
}

#[test]
fn reporting_names() {
    assert_eq!(event_type(&Event::DeviceDiganosticBatchIngested { device_count: 1 }), "deviceDiagnosticIngestionBatch");
    assert_eq!(event_type(&Event::JobBatchProcessed { job_count: 1 }), "registrarJobBatchProcessed");
    assert_eq!(event_type(&Event::JobQueueLengthSample { queue_length: 1 }), "registrarJobQueueSample");
}

#[test]
fn rendering_helpers() {
    assert_eq!(lighting_command(LightingLayout::On), "lighting:on");
    assert_eq!(lighting_command(LightingLayout::Off), "lighting:off");
    assert_eq!(left_split_width(50, 400), 200);
    assert_eq!(left_split_width(80, 400), 320);
    assert_eq!(left_split_width(33, 400), 133);
    assert_eq!(left_split_width(66, 400), 267);
    assert_eq!(left_split_width(25, 400), 100);
    assert_eq!(left_split_width(75, 400), 300);
    assert_eq!(left_split_width(10, 400), 200);
    assert_eq!(device_message_queue_id("abc"), "ob:abc");
}

#[test]
fn acl_cleanups_skip_the_allowlist() {
    let entry = |t: &str| QueueValue::String(t.to_string());
    let listing = vec![
        entry("user default on nopass ~* &* +@all"),
        entry("user abc on #1 ~ob:abc +lpop"),
        QueueValue::Integer(4),
        entry("broken"),
        entry("user def on #2 ~ob:def +lpop"),
    ];
    let allowlist = Some(vec!["default".to_string()]);
    assert_eq!(removable_ids(&listing, &allowlist), vec!["abc".to_string(), "def".to_string()]);
    assert_eq!(
        removable_ids(&listing, &None),
        vec!["default".to_string(), "abc".to_string(), "def".to_string()]
    );
    assert_eq!(disconnect_cutoff(3_600_000), Ok(1_800_000));
    assert_eq!(
        disconnect_cutoff(-8_334_601_315_200_000),
        Err("cutoff time calc overflow".to_string())
    );
}

#[test]
fn messages_are_placed_by_margins_and_padding() {
    let side = |left: Option<i32>, top: Option<i32>, bottom: Option<i32>| {
        Some(OptionalBoundingBox { left, right: None, top, bottom })
    };
    let message = StylizedMessage {
        message: "hi".to_string(),
        font: Some(FontSelection::Roboto),
        padding: side(Some(10), None, None),
        margin: side(None, Some(10), Some(4)),
        border: side(Some(2), None, None),
        size: Some(34),
    };
    assert!(fits_geometry(&message, 5, 20, 40, 30));
    let geometry = message_geometry(&message, 5, 20, 40, 30);
    assert_eq!((geometry.text_left, geometry.text_top), (15, 30));
    assert_eq!((geometry.width, geometry.height), (50, 44));
    assert_eq!(
        geometry.border,
        Some((
            Rectangle { left: 5, top: 30, width: 50, height: 30 },
            Rectangle { left: 7, top: 30, width: 50, height: 30 },
        ))
    );
    assert!(!fits_geometry(&message, i32::MAX, 0, 1, 1));

    let constants = BoundingConstants { border_width: 2, content_padding: 10, content_margin: 20 };
    assert_eq!(
        constants.border_rectangles((50, 60), (100, 40)),
        (
            Rectangle { left: 40, top: 50, width: 120, height: 60 },
            Rectangle { left: 42, top: 52, width: 116, height: 56 },
        )
    );
}

#[test]
fn pages_are_minified_into_responses() {
    let lines = vec![
        "  <html>  ".to_string(),
        "\t<p class=\"a\">héllo</p>\r".to_string(),
        String::new(),
        "</html>".to_string(),
    ];
    let minified = minify(&lines);
    assert_eq!(minified, "<html><p class='a'>héllo</p></html>");
    assert_eq!(
        http_response("hé"),
        "HTTP/1.1 200 OK\r\nContent-Type: text/html; charset=utf-8\r\nContent-Length: 3\r\n\r\nhé"
    );
    let args = |items: &[&str]| items.iter().map(|i| i.to_string()).collect::<Vec<String>>();
    assert_eq!(target_arguments(&args(&["--html", "page.html"])), (Some("page.html".to_string()), true));
    assert_eq!(target_arguments(&args(&["page.html"])), (Some("page.html".to_string()), false));
    assert_eq!(target_arguments(&args(&["--html"])), (None, true));
    assert_eq!(target_arguments(&args(&[])), (None, false));
    assert_eq!(trim_white_space(" \u{a0}x y\u{2003} "), "x y");
}

#[test]
fn session_claims_last_a_day() {
    let before = std::time::SystemTime::now()
        .duration_since(std::time::UNIX_EPOCH)
        .expect("a clock after the epoch")
        .as_secs() as usize;
    let claims = beetle::api::Claims::for_user("oid-1");
    let after = std::time::SystemTime::now()
        .duration_since(std::time::UNIX_EPOCH)
        .expect("a clock after the epoch")
        .as_secs() as usize;
    assert_eq!(claims.oid, "oid-1");
    assert!(claims.exp >= before + 86_400 && claims.exp <= after + 86_400);
}

#[test]
fn authority_models_migrate_both_ways() {
    let guests = vec!["g".to_string()];
    assert_eq!(
        migrate_up(OriginDeviceAuthorityModel::Shared("o".to_string(), guests.clone())),
        TargetDeviceAuthorityModel::Shared { owner: "o".to_string(), guests: vec![] }
    );
    assert_eq!(
        migrate_up(OriginDeviceAuthorityModel::Exclusive("o".to_string())),
        TargetDeviceAuthorityModel::Exclusive { owner: "o".to_string() }
    );
    assert_eq!(
        migrate_down(TargetDeviceAuthorityModel::Public { owner: "o".to_string(), guests }),
        OriginDeviceAuthorityModel::Exclusive("o".to_string())
    );
}

#[test]
fn signing_in_with_the_vendor() {
    let google = GoogleConfiguration {
        scopes: vec!["openid".to_string(), "email".to_string()],
        client_id: "cid".to_string(),
        client_secret: "secret".to_string(),
        redirect_uri: "https://b.io/cb".to_string(),
    };
    assert_eq!(
        authorization_url(&google),
        Ok("https://accounts.google.com/o/oauth2/v2/auth?client_id=cid&redirect_uri=https%3A%2F%2Fb.io%2Fcb&scope=openid+email&access_type=offline&prompt=consent&response_type=code".to_string())
    );
    assert_eq!(join(&vec![], ","), "");
    assert_eq!(join(&vec!["a".to_string()], ","), "a");
    assert_eq!(join(&vec!["a".to_string(), "b".to_string(), "c".to_string()], ", "), "a, b, c");

    let user = vendor_user("123", "pic".to_string(), "Ada".to_string());
    assert_eq!(user.oid, "google-oauth2|123");
    assert_eq!(user.name, Some("Ada".to_string()));
    assert!(user.nickname.is_none() && user.devices.is_none());

    let web = WebConfiguration {
        temp_file_storage: "/tmp".to_string(),
        cookie_domain: "b.io".to_string(),
        ui_redirect: "https://b.io".to_string(),
        session_secret: "s".to_string(),
        session_cookie: "_s".to_string(),
    };
    assert_eq!(
        session_cookie(&web, "jwt", false),
        "_s=jwt; Max-Age=86400; Path=/; SameSite=Strict; HttpOnly; Domain=b.io"
    );
    assert_eq!(
        session_cookie(&web, "jwt", true),
        "_s=jwt; Max-Age=86400; Path=/; SameSite=Strict; HttpOnly; Secure; Domain=b.io"
    );
    assert_eq!(logout_cookie(&web, false), "_s=''; Max-Age: 0; Path=/; SameSite=Strict; HttpOnly; Domain=b.io");
}

#[test]
fn provisioning_needs_both_credentials() {
    let config = CliRegistrarConfiguration {
        id_consumer_username: Some("burn".to_string()),
        id_consumer_password: Some("in".to_string()),
        acl_user_allowlist: None,
        vendor_api_secret: "s".to_string(),
    };
    let entry = provision_entry(&ProvisionCommand { user: None, password: None }, &config).expect("an entry");
    assert_eq!(entry.name, "burn");
    assert_eq!(entry.password, Some("in".to_string()));
    assert_eq!(entry.commands, Some(vec!["lpop".to_string(), "blpop".to_string()]));
    assert_eq!(entry.keys, Some("ob:r".to_string()));
    let given = provision_entry(&ProvisionCommand { user: Some("u".to_string()), password: None }, &config)
        .expect("an entry");
    assert_eq!((given.name.as_str(), given.password), ("u", Some("in".to_string())));
    assert_eq!(
        provision_entry(&ProvisionCommand { user: Some(String::new()), password: None }, &config).map(|e| e.name),
        Err("username or pasword missing for provisioning".to_string())
    );
    let empty = CliRegistrarConfiguration { id_consumer_password: None, ..config };
    assert!(provision_entry(&ProvisionCommand { user: None, password: None }, &empty).is_err());
}
