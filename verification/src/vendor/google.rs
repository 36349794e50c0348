use vstd::prelude::*;

verus! {

/// An enumerated type meant to distinguish whole-day events from timed events.
#[derive(Debug, Clone, Copy, PartialEq, Eq)]
pub enum ParsedEventTimeMarker {
    /// A whole-day event: year, month and day.
    Date(u32, u32, u32),
    /// An event with a specific time: the instant in milliseconds since the unix epoch, and the
    /// offset from UTC, in seconds, at which the event was written.
    DateTime(i64, i32),
}

/// The schema of an event that our application is concerned with.
#[derive(Debug, Clone, PartialEq)]
pub struct ParsedEvent {
    /// The id of this event.
    pub id: String,
    /// The text associated with this event.
    pub summary: String,
    /// When the event starts.
    pub start: ParsedEventTimeMarker,
    /// When the event ends.
    pub end: ParsedEventTimeMarker,
}

/// The abstract value of an event.
pub struct EventModel {
    /// The id of this event.
    pub id: Seq<char>,
    /// The text associated with this event.
    pub summary: Seq<char>,
    /// When the event starts.
    pub start: ParsedEventTimeMarker,
    /// When the event ends.
    pub end: ParsedEventTimeMarker,
}

impl View for ParsedEvent {
    type V = EventModel;

    open spec fn view(&self) -> EventModel {
        EventModel { id: self.id@, summary: self.summary@, start: self.start, end: self.end }
    }
}

/// The abstract value of a list of events.
pub open spec fn events_view(v: Seq<ParsedEvent>) -> Seq<EventModel> {
    v.map_values(|e: ParsedEvent| e@)
}

} // verus!

verus! {

/// The schema of the vendor's successful code -> token exchange.
#[derive(Debug, Clone, PartialEq, Eq)]
pub struct TokenResponse {
    /// The access token.
    pub access_token: String,
    /// The refresh token, when one was granted.
    pub refresh_token: Option<String>,
    /// How many seconds after it was granted the access token expires.
    pub expires_in: u64,
}

/// Wraps a token with the time at which we received it.
#[derive(Debug, Clone, PartialEq, Eq)]
pub struct TokenHandle {
    /// When we received this token, in milliseconds since the unix epoch.
    pub created: i64,
    /// The underlying token.
    pub token: TokenResponse,
}

/// The start or end of an event, as the vendor writes it.
#[derive(Debug, Clone, PartialEq, Eq)]
pub struct EventListEntryTimeMarker {
    /// For whole-day events, only a `date` is written.
    pub date: Option<String>,
    /// For timed events, the `date_time` carries the time.
    pub date_time: Option<String>,
    /// The time zone of the event.
    pub time_zone: Option<String>,
}

/// An event, as the vendor's event api lists it.
#[derive(Debug, Clone, PartialEq, Eq)]
pub struct EventListEntry {
    /// The id of the event.
    pub id: String,
    /// The version tag of the event.
    pub etag: String,
    /// The status of the event.
    pub status: String,
    /// The text of the event.
    pub summary: String,
    /// When the event starts.
    pub start: EventListEntryTimeMarker,
    /// When the event ends.
    pub end: EventListEntryTimeMarker,
}

/// Why an event could not be read.
#[derive(Debug, Clone, Copy, PartialEq, Eq)]
pub enum EventParseError {
    /// A whole-day date is not a `yyyy-mm-dd` date.
    BadDate,
    /// A whole-day date lacks its year, month or day.
    MissingDateParts,
    /// A date and time is not an rfc3339 date and time.
    InvalidDate,
    /// The event is neither a whole-day event nor a timed one: its start and end do not both
    /// carry a date alone, or both a date and time alone.
    InvalidSource,
}

/// The pattern of whole-day dates.
pub open spec fn date_pattern() -> Seq<char> {
    "%Y-%m-%d"@
}

/// The year, month and day that chrono reads from a text with a strftime pattern, each if the
/// pattern sets it, or `None` when the text does not follow the pattern.
pub uninterp spec fn date_fields(text: Seq<char>, pattern: Seq<char>) -> Option<
    (Option<i32>, Option<u32>, Option<u32>),
>;

/// The instant (in milliseconds since the unix epoch) and the offset from UTC (in seconds) that
/// chrono reads from an rfc3339 date and time, or `None` when the text is not one.
pub uninterp spec fn rfc3339_instant(text: Seq<char>) -> Option<(i64, i32)>;

/// Reads the year, month and day of a text that follows a strftime pattern.
///
/// Calls `chrono::format::parse` with the items of `StrftimeItems::new(pattern)`, then
/// `Parsed::year`, `month` and `day`; the claim is that the outcome depends on the two texts
/// alone.
#[verifier::external_body]
fn parse_date_fields(text: &str, pattern: &str) -> (fields: Option<(Option<i32>, Option<u32>, Option<u32>)>)
    ensures
        fields == date_fields(text@, pattern@),
{
    let mut parsed = chrono::format::Parsed::new();
    match chrono::format::parse(&mut parsed, text, chrono::format::StrftimeItems::new(pattern)) {
        Ok(()) => Some((parsed.year(), parsed.month(), parsed.day())),
        Err(_) => None,
    }
}

/// Reads an rfc3339 date and time.
///
/// Calls `chrono::DateTime::parse_from_rfc3339`, then `timestamp_millis` and
/// `offset().local_minus_utc()`; the claim is that the outcome depends on the text alone.
#[verifier::external_body]
fn parse_rfc3339(text: &str) -> (instant: Option<(i64, i32)>)
    ensures
        instant == rfc3339_instant(text@),
{
    match chrono::DateTime::parse_from_rfc3339(text) {
        Ok(parsed) => Some((parsed.timestamp_millis(), parsed.offset().local_minus_utc())),
        Err(_) => None,
    }
}

/// The `(year, month, day)` of a whole-day date; the year keeps its low 32 bits as an unsigned
/// number.
pub open spec fn spec_event_date(text: Seq<char>) -> Result<(u32, u32, u32), EventParseError> {
    match date_fields(text, date_pattern()) {
        None => Err(EventParseError::BadDate),
        Some((Some(year), Some(month), Some(day))) => Ok((year as u32, month, day)),
        Some(_) => Err(EventParseError::MissingDateParts),
    }
}

/// Reads the `(year, month, day)` of a whole-day date written `yyyy-mm-dd`.
pub fn parse_event_date(text: &str) -> (date: Result<(u32, u32, u32), EventParseError>)
    ensures
        date == spec_event_date(text@),
{
    match parse_date_fields(text, "%Y-%m-%d") {
        None => Err(EventParseError::BadDate),
        Some((Some(year), Some(month), Some(day))) => {
            let y = #[verifier::truncate] (year as u32);
            Ok((y, month, day))
        },
        Some(_) => Err(EventParseError::MissingDateParts),
    }
}

/// The time marker of an rfc3339 date and time.
pub open spec fn spec_timed(text: Seq<char>) -> Result<ParsedEventTimeMarker, EventParseError> {
    match rfc3339_instant(text) {
        Some((millis, offset)) => Ok(ParsedEventTimeMarker::DateTime(millis, offset)),
        None => Err(EventParseError::InvalidDate),
    }
}

/// The time marker of a whole-day date.
pub open spec fn spec_whole_day(text: Seq<char>) -> Result<ParsedEventTimeMarker, EventParseError> {
    match spec_event_date(text) {
        Ok((y, m, d)) => Ok(ParsedEventTimeMarker::Date(y, m, d)),
        Err(e) => Err(e),
    }
}

/// The event read from the vendor's listing: a whole-day event when its start and end both carry
/// a date and neither a date and time, a timed event when both carry a date and time and neither
/// a date; the start is read before the end.
pub open spec fn spec_parse_event(event: EventListEntry) -> Result<EventModel, EventParseError> {
    let dates = event.start.date is Some && event.end.date is Some;
    let times = event.start.date_time is Some && event.end.date_time is Some;
    let read = |start: Result<ParsedEventTimeMarker, EventParseError>, end: Result<ParsedEventTimeMarker, EventParseError>| {
        match (start, end) {
            (Err(e), _) => Err(e),
            (Ok(_), Err(e)) => Err(e),
            (Ok(s), Ok(e)) => Ok(EventModel { id: event.id@, summary: event.summary@, start: s, end: e }),
        }
    };
    if dates && !times {
        read(spec_whole_day(event.start.date->0@), spec_whole_day(event.end.date->0@))
    } else if times && !dates {
        read(spec_timed(event.start.date_time->0@), spec_timed(event.end.date_time->0@))
    } else {
        Err(EventParseError::InvalidSource)
    }
}

/// Reads a whole-day date as a time marker.
fn whole_day(text: &String) -> (marker: Result<ParsedEventTimeMarker, EventParseError>)
    ensures
        marker == spec_whole_day(text@),
{
    match parse_event_date(text.as_str()) {
        Ok((y, m, d)) => Ok(ParsedEventTimeMarker::Date(y, m, d)),
        Err(e) => Err(e),
    }
}

/// Reads an rfc3339 date and time as a time marker.
fn timed(text: &String) -> (marker: Result<ParsedEventTimeMarker, EventParseError>)
    ensures
        marker == spec_timed(text@),
{
    match parse_rfc3339(text.as_str()) {
        Some((millis, offset)) => Ok(ParsedEventTimeMarker::DateTime(millis, offset)),
        None => Err(EventParseError::InvalidDate),
    }
}

/// Normalizes an event of the vendor's listing into the structure the platform uses.
pub fn parse_event(event: &EventListEntry) -> (parsed: Result<ParsedEvent, EventParseError>)
    ensures
        match parsed {
            Ok(e) => spec_parse_event(*event) == Ok::<EventModel, EventParseError>(e@),
            Err(err) => spec_parse_event(*event) == Err::<EventModel, EventParseError>(err),
        },
{
    let (start, end) = match (&event.start.date, &event.end.date, &event.start.date_time, &event.end.date_time) {
        (Some(s), Some(e), None, _) | (Some(s), Some(e), Some(_), None) => (whole_day(s), whole_day(e)),
        (None, _, Some(s), Some(e)) | (Some(_), None, Some(s), Some(e)) => (timed(s), timed(e)),
        _ => return Err(EventParseError::InvalidSource),
    };
    match (start, end) {
        (Err(e), _) => Err(e),
        (Ok(_), Err(e)) => Err(e),
        (Ok(s), Ok(e)) => Ok(ParsedEvent { id: event.id.clone(), summary: event.summary.clone(), start: s, end: e }),
    }
}

/// The events of the vendor's listing that read as events, in their order; the others are
/// dropped.
pub open spec fn spec_parse_events(events: Seq<EventListEntry>) -> Seq<EventModel>
    decreases events.len(),
{
    if events.len() == 0 {
        seq![]
    } else {
        let kept = spec_parse_events(events.drop_last());
        match spec_parse_event(events.last()) {
            Ok(e) => kept.push(e),
            Err(_) => kept,
        }
    }
}

/// Normalizes the events of the vendor's listing, keeping those that read as events, in order.
pub fn parse_events(events: &Vec<EventListEntry>) -> (parsed: Vec<ParsedEvent>)
    ensures
        events_view(parsed@) == spec_parse_events(events@),
{
    let mut parsed: Vec<ParsedEvent> = Vec::new();
    let mut i: usize = 0;
    while i < events.len()
        invariant
            i <= events@.len(),
            events_view(parsed@) == spec_parse_events(events@.take(i as int)),
        decreases events@.len() - i,
    {
        proof {
            assert(events@.take(i + 1).drop_last() =~= events@.take(i as int));
            assert(events@.take(i + 1).last() == events@[i as int]);
        }
        let ghost before = parsed@;
        match parse_event(&events[i]) {
            Ok(event) => {
                parsed.push(event);
                assert(events_view(parsed@) =~= events_view(before).push(event@));
            },
            Err(_) => {},
        }
        i = i + 1;
    }
    assert(events@.take(events@.len() as int) =~= events@);
    parsed
}

} // verus!
