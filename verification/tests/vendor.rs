use beetle::redis::{QueueResponse, QueueValue};
use beetle::registrar::batch::{pool_minimum, queue_length_sample, JobBatch, DEFAULT_JOB_BATCH_SIZE};
use beetle::vendor::google::{
    parse_event, parse_event_date, parse_events, EventListEntry, EventListEntryTimeMarker, EventParseError, ParsedEvent,
    ParsedEventTimeMarker,
};

fn marker(date: Option<&str>, date_time: Option<&str>) -> EventListEntryTimeMarker {
    EventListEntryTimeMarker {
        date: date.map(|d| d.to_string()),
        date_time: date_time.map(|d| d.to_string()),
        time_zone: None,
    }
}

fn event(start: EventListEntryTimeMarker, end: EventListEntryTimeMarker) -> EventListEntry {
    EventListEntry {
        id: "e1".to_string(),
        etag: "tag".to_string(),
        status: "confirmed".to_string(),
        summary: "standup".to_string(),
        start,
        end,
    }
}

#[test]
fn test_parse_event_date() {
    assert_eq!(parse_event_date("2023-01-01").expect("failed parse"), (2023, 1, 1));
}

#[test]
fn event_dates_must_be_dates() {
    assert_eq!(parse_event_date("garbage"), Err(EventParseError::BadDate));
    assert_eq!(parse_event_date("2023-02-30"), Ok((2023, 2, 30)));
}

#[test]
fn whole_day_events() {
    let parsed = parse_event(&event(marker(Some("2023-03-04"), None), marker(Some("2023-03-05"), None)));
    assert_eq!(
        parsed,
        Ok(ParsedEvent {
            id: "e1".to_string(),
            summary: "standup".to_string(),
            start: ParsedEventTimeMarker::Date(2023, 3, 4),
            end: ParsedEventTimeMarker::Date(2023, 3, 5),
        })
    );
    let broken = parse_event(&event(marker(Some("nope"), None), marker(Some("2023-03-05"), None)));
    assert_eq!(broken, Err(EventParseError::BadDate));
}

#[test]
fn timed_events() {
    let parsed = parse_event(&event(
        marker(None, Some("2023-03-04T17:05:00+02:00")),
        marker(None, Some("2023-03-04T18:05:00+02:00")),
    ));
    assert_eq!(
        parsed,
        Ok(ParsedEvent {
            id: "e1".to_string(),
            summary: "standup".to_string(),
            start: ParsedEventTimeMarker::DateTime(1_677_942_300_000, 7200),
            end: ParsedEventTimeMarker::DateTime(1_677_945_900_000, 7200),
        })
    );
    let broken = parse_event(&event(marker(None, Some("later")), marker(None, Some("2023-03-04T18:05:00Z"))));
    assert_eq!(broken, Err(EventParseError::InvalidDate));
}

#[test]
fn mixed_events_are_refused() {
    let mixed = parse_event(&event(marker(Some("2023-03-04"), None), marker(None, Some("2023-03-04T18:05:00Z"))));
    assert_eq!(mixed, Err(EventParseError::InvalidSource));
    let both = parse_event(&event(
        marker(Some("2023-03-04"), Some("2023-03-04T17:05:00Z")),
        marker(Some("2023-03-04"), Some("2023-03-04T18:05:00Z")),
    ));
    assert_eq!(both, Err(EventParseError::InvalidSource));
    let half = parse_event(&event(
        marker(Some("2023-03-04"), Some("2023-03-04T17:05:00Z")),
        marker(Some("2023-03-05"), None),
    ));
    assert_eq!(half, Ok(ParsedEvent {
        id: "e1".to_string(),
        summary: "standup".to_string(),
        start: ParsedEventTimeMarker::Date(2023, 3, 4),
        end: ParsedEventTimeMarker::Date(2023, 3, 5),
    }));
}

#[test]
fn registrar_rounds() {
    assert_eq!(pool_minimum(None), 3);
    assert_eq!(pool_minimum(Some(9)), 9);
    assert_eq!(queue_length_sample(&QueueResponse::Item(QueueValue::Integer(12))), 12);
    assert_eq!(queue_length_sample(&QueueResponse::Item(QueueValue::Integer(65_537))), 1);
    assert_eq!(queue_length_sample(&QueueResponse::Item(QueueValue::Integer(-1))), 65_535);
    assert_eq!(queue_length_sample(&QueueResponse::Error), 0);

    let mut batch = JobBatch::new(4);
    let mut attempts = 0;
    while batch.wants_more() {
        batch = batch.record(Some(1)).expect("a batch");
        attempts += 1;
    }
    assert_eq!(attempts, DEFAULT_JOB_BATCH_SIZE as usize);
    assert_eq!(batch.processed, DEFAULT_JOB_BATCH_SIZE);
    assert!(!JobBatch::new(0).wants_more());
    assert_eq!(JobBatch::new(3).record(None), None);
    assert_eq!(JobBatch::new(3).record(Some(0)), Some(JobBatch { processed: 0, pending: 3 }));
}

#[test]
fn event_lists_keep_the_events_that_read() {
    let mut second = event(marker(Some("2023-03-06"), None), marker(Some("2023-03-07"), None));
    second.id = "e2".to_string();
    let listing = vec![
        event(marker(Some("2023-03-04"), None), marker(Some("2023-03-05"), None)),
        event(marker(Some("nope"), None), marker(Some("2023-03-05"), None)),
        event(marker(None, None), marker(None, None)),
        second,
    ];
    let parsed = parse_events(&listing);
    assert_eq!(parsed.len(), 2);
    assert_eq!(parsed[0].id, "e1");
    assert_eq!(parsed[0].start, ParsedEventTimeMarker::Date(2023, 3, 4));
    assert_eq!(parsed[1].id, "e2");
    assert_eq!(parsed[1].start, ParsedEventTimeMarker::Date(2023, 3, 6));
    assert!(parse_events(&vec![]).is_empty());
}
