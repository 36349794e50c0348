use beetle::config::RegistrarConfiguration;
use beetle::mock_device::{accepted_auth, burn_in_credentials, taken_id};
use beetle::redis::{pending_renders, popped, PendingRenders, Popped, QueueResponse, QueueValue};
use beetle::registrar::access::{access_level, AccessLevel};
use beetle::registrar::device_schedule::{
    is_stale_execution, ready_for_refresh, toggled_kind, with_queued_refresh, with_recorded_execution,
};
use beetle::registrar::device_state::{
    apply_padding, next_rendering_state, render_message_entry, render_state, transition_rendering_state,
    DeviceStateTransition, MessageEntryLayout, MAX_MESSAGE_LIST_LEN,
};
use beetle::registrar::diagnostics::{needs_registration_code, registration_scannable};
use beetle::registrar::ownership::{availability_change, public_registration};
use beetle::registrar::pool::{device_acl_entries, ids_needed};
use beetle::registrar::schedule::{needs_refresh, schedule_cutoff, token_age_seconds};
use beetle::rendering::{FontSelection, OptionalBoundingBox, RenderLayout, RenderVariant, SplitContents, StylizedMessage};
use beetle::schema::jobs::{JobResult, SuccessfulJobResult};
use beetle::schema::{
    DeviceAuthorityModel, DeviceAuthorityRecord, DeviceDiagnostic, DeviceDiagnosticOwnership,
    DeviceDiagnosticRegistration, DeviceRenderingState, DeviceRenderingStateMessageEntry,
    DeviceSchedule, DeviceStateMessageOrigin,
};
use beetle::schema::DeviceScheduleKind;
use beetle::vendor::google::{ParsedEvent, ParsedEventTimeMarker};

fn entry(content: &str, timestamp: Option<i64>) -> DeviceRenderingStateMessageEntry {
    DeviceRenderingStateMessageEntry {
        content: content.to_string(),
        origin: DeviceStateMessageOrigin::Unknown,
        timestamp,
    }
}

fn left(amount: i32) -> Option<OptionalBoundingBox> {
    Some(OptionalBoundingBox { left: Some(amount), right: None, top: None, bottom: None })
}

fn top(amount: i32) -> Option<OptionalBoundingBox> {
    Some(OptionalBoundingBox { left: None, right: None, top: Some(amount), bottom: None })
}

fn bottom(amount: i32) -> Option<OptionalBoundingBox> {
    Some(OptionalBoundingBox { left: None, right: None, top: None, bottom: Some(amount) })
}

fn styled(message: &str, size: u32, margin: Option<OptionalBoundingBox>) -> StylizedMessage<String> {
    StylizedMessage {
        message: message.to_string(),
        font: Some(FontSelection::Roboto),
        padding: left(10),
        margin,
        border: left(2),
        size: Some(size),
    }
}

fn messages_of(state: &Option<DeviceRenderingState>) -> Vec<String> {
    match state {
        Some(DeviceRenderingState::MessageList { messages }) => messages.iter().map(|m| m.content.clone()).collect(),
        Some(DeviceRenderingState::ScheduleLayout { messages, .. }) => {
            messages.iter().map(|m| m.content.clone()).collect()
        }
        None => vec![],
    }
}

#[test]
fn pushing_messages_keeps_the_newest_last() {
    let push = |text: &str| DeviceStateTransition::PushMessage(text.to_string(), DeviceStateMessageOrigin::Unknown);
    let mut state = None;
    for (i, text) in ["a", "b", "c", "d", "e", "f"].iter().enumerate() {
        state = next_rendering_state(state, push(text), i as i64);
    }
    assert_eq!(messages_of(&state), vec!["c", "d", "e", "f"]);
    assert_eq!(messages_of(&state).len(), MAX_MESSAGE_LIST_LEN);
    match &state {
        Some(DeviceRenderingState::MessageList { messages }) => {
            assert_eq!(messages[0].timestamp, Some(2));
            assert_eq!(messages[3].timestamp, Some(5));
        }
        other => panic!("unexpected state {other:?}"),
    }
    assert_eq!(next_rendering_state(state, DeviceStateTransition::Clear, 9), None);
}

#[test]
fn schedules_keep_their_messages() {
    let with_messages = Some(DeviceRenderingState::ScheduleLayout { events: vec![], messages: vec![entry("kept", None)] });
    let next = next_rendering_state(with_messages, DeviceStateTransition::SetSchedule(vec![]), 3);
    assert_eq!(messages_of(&next), vec!["kept"]);
    let from_list = Some(DeviceRenderingState::MessageList { messages: vec![entry("dropped", None)] });
    let next = next_rendering_state(from_list, DeviceStateTransition::SetSchedule(vec![]), 3);
    assert_eq!(next, Some(DeviceRenderingState::ScheduleLayout { events: vec![], messages: vec![] }));
    let stamped = transition_rendering_state(
        None,
        DeviceStateTransition::PushMessage("now".to_string(), DeviceStateMessageOrigin::Unknown),
    );
    match stamped {
        Some(DeviceRenderingState::MessageList { messages }) => assert!(messages[0].timestamp.is_some()),
        other => panic!("unexpected state {other:?}"),
    }
}

#[test]
fn padding_is_applied_on_the_left() {
    let mut component = StylizedMessage::<String>::default();
    apply_padding(&mut component);
    assert_eq!(component.padding, left(10));
    assert_eq!(component.border, left(2));
    assert_eq!(component.margin, None);
}

#[test]
fn message_entries_render_together_or_separately() {
    let mut acc = vec![];
    render_message_entry(&entry("hello", Some(0)), &mut acc, MessageEntryLayout::Together);
    assert_eq!(
        acc,
        vec![
            styled("hello", 34, top(10)),
            styled("unknown (@ January 01, 00:00)", 24, bottom(10)),
        ]
    );
    render_message_entry(&entry("again", Some(60_000)), &mut acc, MessageEntryLayout::Separate);
    assert_eq!(acc.len(), 5);
    assert_eq!(acc[2], styled("again", 34, None));
    assert_eq!(acc[3], styled("unknown", 24, None));
    assert_eq!(acc[4], styled("January 01, 00:01", 24, bottom(10)));
}

#[test]
fn message_lists_fill_four_fifths() {
    let state = DeviceRenderingState::MessageList { messages: vec![entry("hello", None)] };
    match render_state(&state) {
        RenderLayout::Split(split) => {
            assert_eq!(split.ratio, 80);
            assert_eq!(
                split.left,
                SplitContents::Messages(vec![styled("hello", 34, top(10)), styled("unknown", 24, bottom(10))])
            );
            assert_eq!(split.right, SplitContents::Messages(vec![]));
        }
        other => panic!("unexpected layout {other:?}"),
    }
}

#[test]
fn access_follows_the_authority_model() {
    let record = |model: Option<DeviceAuthorityModel>| Some(DeviceAuthorityRecord {
        device_id: "d".to_string(),
        authority_model: model,
    });
    let owner = "owner".to_string();
    let guest = "guest".to_string();
    let exclusive = record(Some(DeviceAuthorityModel::Exclusive { owner: owner.clone() }));
    assert_eq!(access_level(&exclusive, &owner), Some(AccessLevel::All));
    assert_eq!(access_level(&exclusive, &guest), None);
    let shared = record(Some(DeviceAuthorityModel::Shared { owner: owner.clone(), guests: vec![guest.clone()] }));
    assert_eq!(access_level(&shared, &guest), Some(AccessLevel::All));
    assert_eq!(access_level(&shared, &"stranger".to_string()), None);
    let public = record(Some(DeviceAuthorityModel::Public { owner: owner.clone(), guests: vec![] }));
    assert_eq!(access_level(&public, &"stranger".to_string()), Some(AccessLevel::All));
    assert_eq!(access_level(&None, &guest), Some(AccessLevel::All));
}

#[test]
fn availability_changes() {
    let exclusive = Some(DeviceAuthorityModel::Exclusive { owner: "o".to_string() });
    assert_eq!(
        availability_change(&exclusive, true),
        Some(DeviceAuthorityModel::Public { owner: "o".to_string(), guests: vec![] })
    );
    assert_eq!(availability_change(&exclusive, false), None);
    let public = Some(DeviceAuthorityModel::Public { owner: "o".to_string(), guests: vec!["g".to_string()] });
    assert_eq!(
        availability_change(&public, false),
        Some(DeviceAuthorityModel::Shared { owner: "o".to_string(), guests: vec!["g".to_string()] })
    );
    assert_eq!(availability_change(&public, true), None);
    assert_eq!(availability_change(&None, true), None);

    let record = DeviceAuthorityRecord { device_id: "d".to_string(), authority_model: public };
    assert_eq!(
        public_registration(Some(record), &"n".to_string()),
        Some(DeviceAuthorityRecord {
            device_id: "d".to_string(),
            authority_model: Some(DeviceAuthorityModel::Public {
                owner: "o".to_string(),
                guests: vec!["g".to_string(), "n".to_string()],
            }),
        })
    );
    let private = DeviceAuthorityRecord { device_id: "d".to_string(), authority_model: exclusive };
    assert_eq!(public_registration(Some(private), &"n".to_string()), None);
}

#[test]
fn schedules_and_their_nonces() {
    let user = "u".to_string();
    let basic = Some(DeviceScheduleKind::UserEventsBasic { user_oid: "u".to_string() });
    assert_eq!(toggled_kind(true, None, &user), basic);
    let other = Some(DeviceScheduleKind::UserEventsBasic { user_oid: "other".to_string() });
    assert_eq!(toggled_kind(true, other.clone(), &user), other);
    assert_eq!(toggled_kind(false, other, &user), None);

    let n = |s: &str| Some(s.to_string());
    assert!(is_stale_execution(&n("a"), &n("b")));
    assert!(!is_stale_execution(&n("a"), &n("a")));
    assert!(!is_stale_execution(&None, &n("b")));
    assert!(!is_stale_execution(&n("a"), &None));

    let schedule = DeviceSchedule {
        device_id: "d".to_string(),
        last_executed: None,
        kind: None,
        refresh_nonce: None,
        latest_refresh_nonce: None,
    };
    assert!(ready_for_refresh(&schedule));
    let queued = with_queued_refresh(schedule, "n1".to_string());
    assert_eq!(queued.refresh_nonce, n("n1"));
    assert!(!ready_for_refresh(&queued));
    let executed = with_recorded_execution(queued, 77);
    assert_eq!(executed.last_executed, Some(77));
    assert_eq!(executed.latest_refresh_nonce, n("n1"));
    assert!(ready_for_refresh(&executed));
}

#[test]
fn pool_refills_and_acls() {
    assert_eq!(ids_needed(Some(2), 5), 5);
    assert_eq!(ids_needed(Some(5), 5), 0);
    assert_eq!(ids_needed(None, 5), 0);
    let (pop, push) = device_acl_entries(&"abc".to_string());
    assert_eq!(pop.name, "abc");
    assert_eq!(pop.password, Some("abc".to_string()));
    assert_eq!(pop.commands, Some(vec!["lpop".to_string(), "blpop".to_string()]));
    assert_eq!(pop.keys, Some("ob:abc".to_string()));
    assert_eq!(push.commands, Some(vec!["rpush".to_string()]));
    assert_eq!(push.keys, Some("ob:i".to_string()));
}

#[test]
fn registration_codes() {
    assert!(needs_registration_code(&None));
    assert!(needs_registration_code(&Some(DeviceDiagnosticRegistration::Initial)));
    assert!(!needs_registration_code(&Some(DeviceDiagnosticRegistration::PendingRegistration)));
    assert!(!needs_registration_code(&Some(DeviceDiagnosticRegistration::Owned(DeviceDiagnosticOwnership {
        original_owner: "o".to_string(),
    }))));
    match registration_scannable("http://beetle.local/register", "dev 1") {
        Ok(RenderVariant::Layout(container)) => {
            assert!(container.created.is_some());
            match container.layout {
                RenderLayout::Scannable(scannable) => assert_eq!(
                    scannable.contents,
                    "http://beetle.local/register?device_target_id=dev+1"
                ),
                other => panic!("unexpected layout {other:?}"),
            }
        }
        other => panic!("unexpected result {other:?}"),
    }
    assert!(registration_scannable("not a url", "d").is_err());
}

#[test]
fn tokens_and_cutoffs() {
    assert_eq!(token_age_seconds(10_999, 1_000), 9);
    assert_eq!(token_age_seconds(1_000, 10_999), 9);
    assert!(needs_refresh(3600, 2700));
    assert!(!needs_refresh(3600, 2600));
    assert!(needs_refresh(100, 200));
    assert_eq!(schedule_cutoff(1_000_000, None), Ok(700_000));
    assert_eq!(schedule_cutoff(1_000_000, Some(10)), Ok(990_000));
    assert_eq!(
        schedule_cutoff(-8_334_601_315_199_000, Some(2)),
        Err("unable to create cutoff date for device schedule refresh".to_string())
    );
}

#[test]
fn diagnostics_describe_devices() {
    let diagnostic = |first: Option<i64>, last: Option<i64>| DeviceDiagnostic {
        id: "dev".to_string(),
        first_seen: first,
        last_seen: last,
        nickname: None,
        sent_message_count: None,
        registration_state: None,
    };
    assert_eq!(
        diagnostic(Some(0), Some(0)).describe(10_500),
        "[+] dev (00010 seconds ago). Jan 01, 1970 00:00:00 -> Jan 01, 1970 00:00:00"
    );
    assert_eq!(diagnostic(None, None).describe(10_500), "[!] dev (-0001 seconds ago). n/a -> n/a");
    assert_eq!(
        diagnostic(None, Some(0)).describe(61_000),
        "[!] dev (00061 seconds ago). n/a -> Jan 01, 1970 00:00:00"
    );
    assert_eq!(
        diagnostic(None, Some(5_500)).describe(0),
        "[!] dev (-0005 seconds ago). n/a -> Jan 01, 1970 00:00:05"
    );
    assert_eq!(
        diagnostic(None, Some(0)).describe(123_456_000),
        "[!] dev (123456 seconds ago). n/a -> Jan 01, 1970 00:00:00"
    );
}

#[test]
fn job_results_and_pops() {
    assert_eq!(JobResult::recorded(None), JobResult::Success(SuccessfulJobResult::Terminal));
    assert_eq!(JobResult::recorded(Some("boom".to_string())), JobResult::Failure("boom".to_string()));

    let s = |t: &str| QueueValue::String(t.to_string());
    assert_eq!(popped(&QueueResponse::Item(QueueValue::Empty)), Popped::Empty);
    assert_eq!(popped(&QueueResponse::Item(s("job"))), Popped::Payload("job".to_string()));
    assert_eq!(popped(&QueueResponse::Array(vec![s("queue"), s("job")])), Popped::Payload("job".to_string()));
    assert_eq!(popped(&QueueResponse::Array(vec![s("queue")])), Popped::Unexpected);
    assert_eq!(popped(&QueueResponse::Array(vec![s("queue"), QueueValue::Integer(1)])), Popped::Unexpected);
    assert_eq!(popped(&QueueResponse::Item(QueueValue::Integer(1))), Popped::Unexpected);
    assert_eq!(popped(&QueueResponse::Error), Popped::Unexpected);

    assert_eq!(pending_renders(&QueueResponse::Item(QueueValue::Integer(3))), PendingRenders::Stale(3));
    assert_eq!(pending_renders(&QueueResponse::Item(QueueValue::Integer(0))), PendingRenders::Clear);
    assert_eq!(pending_renders(&QueueResponse::Item(QueueValue::Integer(-2))), PendingRenders::Clear);
    assert_eq!(pending_renders(&QueueResponse::Error), PendingRenders::Invalid);
}

#[test]
fn device_id_claims() {
    let config = |user: Option<&str>, password: Option<&str>| RegistrarConfiguration {
        id_consumer_username: user.map(|u| u.to_string()),
        id_consumer_password: password.map(|p| p.to_string()),
        registration_pool_minimum: None,
        active_device_chunk_size: 10,
        initial_scannable_addr: String::new(),
        vendor_api_secret: String::new(),
        device_schedule_refresh_interval_seconds: None,
        interval_delay_ms: None,
    };
    assert_eq!(burn_in_credentials(&config(Some("u"), Some("p"))), Ok(("u".to_string(), "p".to_string())));
    assert_eq!(
        burn_in_credentials(&config(Some("u"), None)),
        Err("Configuration is missing registrar burn-in credentials".to_string())
    );
    assert!(accepted_auth(&QueueResponse::Item(QueueValue::String("OK".to_string()))));
    assert!(!accepted_auth(&QueueResponse::Item(QueueValue::String("NOPE".to_string()))));
    assert!(!accepted_auth(&QueueResponse::Error));
    assert_eq!(taken_id(&QueueResponse::Item(QueueValue::String("id-1".to_string()))), Some("id-1".to_string()));
    assert_eq!(taken_id(&QueueResponse::Item(QueueValue::Empty)), None);
}

#[test]
fn schedules_show_events_on_the_left() {
    let event = ParsedEvent {
        id: "e".to_string(),
        summary: "standup".to_string(),
        start: ParsedEventTimeMarker::DateTime(1_677_942_300_000, 7200),
        end: ParsedEventTimeMarker::DateTime(1_677_945_900_000, 7200),
    };
    let whole_day = ParsedEvent {
        id: "d".to_string(),
        summary: "holiday".to_string(),
        start: ParsedEventTimeMarker::Date(2023, 3, 4),
        end: ParsedEventTimeMarker::Date(2023, 3, 5),
    };
    let state = DeviceRenderingState::ScheduleLayout { events: vec![event, whole_day], messages: vec![] };
    let summary = |text: &str| StylizedMessage {
        message: text.to_string(),
        font: Some(FontSelection::Roboto),
        padding: left(10),
        margin: Some(OptionalBoundingBox { left: Some(10), right: None, top: Some(10), bottom: None }),
        border: left(2),
        size: Some(34),
    };
    match render_state(&state) {
        RenderLayout::Split(split) => {
            assert_eq!(split.ratio, 50);
            assert_eq!(
                split.left,
                SplitContents::Messages(vec![
                    summary("standup"),
                    StylizedMessage {
                        message: "17:05 - 18:05".to_string(),
                        font: Some(FontSelection::Roboto),
                        padding: left(10),
                        margin: left(10),
                        border: left(2),
                        size: Some(24),
                    },
                    summary("holiday"),
                ])
            );
            assert_eq!(split.right, SplitContents::Messages(vec![]));
        }
        other => panic!("unexpected layout {other:?}"),
    }
}

#[test]
fn sealed_jobs_expire_a_day_later() {
    let job = beetle::registrar::RegistrarJob {
        id: "j".to_string(),
        job: beetle::registrar::RegistrarJobKind::Renders(beetle::registrar::jobs::RegistrarRenderKinds::CurrentDeviceState(
            "d".to_string(),
        )),
    };
    let before = std::time::SystemTime::now()
        .duration_since(std::time::UNIX_EPOCH)
        .expect("a clock after the epoch")
        .as_secs() as u32;
    let sealed = job.clone().seal();
    let after = std::time::SystemTime::now()
        .duration_since(std::time::UNIX_EPOCH)
        .expect("a clock after the epoch")
        .as_secs() as u32;
    assert_eq!(sealed.job, job);
    assert!(sealed.exp >= before + 86_400 && sealed.exp <= after + 86_400);
}
