//! The rendered device state: what a device should display, how jobs transition it from one state
//! to another, and how a state becomes a layout.

use vstd::prelude::*;
use crate::rendering::components::{empty_box, OptionalBoundingBox, StylizedMessage};
use crate::rendering::fonts::FontSelection;
use crate::rendering::{messages_view, ContentsModel, LayoutModel, RenderLayout, SplitContents, SplitLayout};
use crate::schema::device_state::{
    entries_view, rendering_view, DeviceRenderingState, DeviceRenderingStateMessageEntry,
    DeviceStateMessageOrigin, EntryModel, OriginModel, RenderingModel,
};
use crate::time::{
    format_hour_minute, format_month_day_time, hour_minute_text, month_day_time_text, now_millis,
    timestamp_in_range,
};
use crate::vendor::google::{events_view, EventModel, ParsedEvent, ParsedEventTimeMarker};

verus! {

/// The most amount of events to display at once when rendering things from a calendar.
pub const MAX_DISPLAYED_EVENTS: usize = 4;

/// The most messages a list keeps; when a new one is added beyond it, the oldest are dropped.
pub const MAX_MESSAGE_LIST_LEN: usize = 4;

/// The height of "secondary" text on the screen.
pub const SECONDARY_TEXT_SIZE: u32 = 24;

/// The height of "primary" text on the screen.
pub const PRIMARY_TEXT_SIZE: u32 = 34;

/// The kinds of mutations supported for the rendered device state.
#[derive(Debug, Clone, PartialEq)]
pub enum DeviceStateTransition {
    /// Clears the current render state.
    Clear,
    /// Sets the state to be viewing a list of events.
    SetSchedule(Vec<ParsedEvent>),
    /// Adds a message to the device state.
    PushMessage(String, DeviceStateMessageOrigin),
}

/// The abstract value of a transition.
pub enum TransitionModel {
    /// Clears the current render state.
    Clear,
    /// Sets the state to be viewing these events.
    SetSchedule(Seq<EventModel>),
    /// Adds this message from this origin.
    PushMessage(Seq<char>, OriginModel),
}

impl View for DeviceStateTransition {
    type V = TransitionModel;

    open spec fn view(&self) -> TransitionModel {
        match self {
            DeviceStateTransition::Clear => TransitionModel::Clear,
            DeviceStateTransition::SetSchedule(events) => TransitionModel::SetSchedule(
                events_view(events@),
            ),
            DeviceStateTransition::PushMessage(content, origin) => TransitionModel::PushMessage(
                content@,
                origin@,
            ),
        }
    }
}

/// The device state transition job kind.
#[derive(Debug, Clone, PartialEq)]
pub struct DeviceStateTransitionRequest {
    /// The id of a device.
    pub device_id: String,
    /// The transition.
    pub transition: DeviceStateTransition,
}

// ---------------------------------------------------------------------------------------------
// Transitions.
// ---------------------------------------------------------------------------------------------

/// A message list cut down to its last `MAX_MESSAGE_LIST_LEN` entries: the oldest are dropped.
pub open spec fn newest(messages: Seq<EntryModel>) -> Seq<EntryModel> {
    if messages.len() > MAX_MESSAGE_LIST_LEN {
        messages.skip(messages.len() - MAX_MESSAGE_LIST_LEN)
    } else {
        messages
    }
}

/// A message list after a new message is added at its end, cut down to its newest entries.
pub open spec fn pushed(messages: Seq<EntryModel>, entry: EntryModel) -> Seq<EntryModel> {
    newest(messages.push(entry))
}

/// The rendering state after a transition, for a transition applied at the instant `now`.
pub open spec fn spec_next_rendering(
    current: Option<RenderingModel>,
    transition: TransitionModel,
    now: i64,
) -> Option<RenderingModel> {
    match transition {
        TransitionModel::Clear => None,
        TransitionModel::PushMessage(content, origin) => {
            let entry = EntryModel { content, origin, timestamp: Some(now) };
            match current {
                None => Some(RenderingModel::MessageList(seq![entry])),
                Some(RenderingModel::MessageList(messages)) => Some(
                    RenderingModel::MessageList(pushed(messages, entry)),
                ),
                Some(RenderingModel::ScheduleLayout(events, messages)) => Some(
                    RenderingModel::ScheduleLayout(events, pushed(messages, entry)),
                ),
            }
        },
        TransitionModel::SetSchedule(events) => match current {
            Some(RenderingModel::ScheduleLayout(_, messages)) => Some(
                RenderingModel::ScheduleLayout(events, messages),
            ),
            _ => Some(RenderingModel::ScheduleLayout(events, seq![])),
        },
    }
}

/// The messages of a rendering state.
pub open spec fn messages_of(state: Option<RenderingModel>) -> Seq<EntryModel> {
    match state {
        None => seq![],
        Some(RenderingModel::MessageList(messages)) => messages,
        Some(RenderingModel::ScheduleLayout(_, messages)) => messages,
    }
}

/// Cuts a message list down to its last `MAX_MESSAGE_LIST_LEN` entries, dropping from the front.
fn keep_newest(messages: &mut Vec<DeviceRenderingStateMessageEntry>)
    ensures
        entries_view(final(messages)@) == newest(entries_view(old(messages)@)),
{
    let ghost full = messages@;
    while messages.len() > MAX_MESSAGE_LIST_LEN
        invariant
            full.len() > MAX_MESSAGE_LIST_LEN ==> messages@.len() >= MAX_MESSAGE_LIST_LEN,
            full.len() <= MAX_MESSAGE_LIST_LEN ==> messages@ == full,
            messages@.len() <= full.len(),
            messages@ =~= full.skip(full.len() - messages@.len()),
        decreases messages@.len(),
    {
        let ghost before = messages@;
        messages.remove(0);
        assert(messages@ =~= full.skip(full.len() - messages@.len()));
    }
    proof {
        if full.len() > MAX_MESSAGE_LIST_LEN {
            assert(entries_view(messages@) =~= entries_view(full).skip(
                full.len() - MAX_MESSAGE_LIST_LEN,
            ));
        }
    }
}

/// Adds a message at the end of a list, then drops the oldest entries beyond
/// `MAX_MESSAGE_LIST_LEN`.
fn push_message(
    messages: &mut Vec<DeviceRenderingStateMessageEntry>,
    entry: DeviceRenderingStateMessageEntry,
)
    ensures
        entries_view(final(messages)@) == pushed(entries_view(old(messages)@), entry@),
{
    let ghost before = messages@;
    messages.push(entry);
    assert(entries_view(messages@) =~= entries_view(before).push(entry@));
    keep_newest(messages);
}

/// The rendering state after a transition applied at the instant `now`.
pub fn next_rendering_state(
    current: Option<DeviceRenderingState>,
    transition: DeviceStateTransition,
    now: i64,
) -> (next: Option<DeviceRenderingState>)
    ensures
        rendering_view(next) == spec_next_rendering(rendering_view(current), transition@, now),
{
    match transition {
        DeviceStateTransition::Clear => None,
        DeviceStateTransition::PushMessage(content, origin) => {
            let entry = DeviceRenderingStateMessageEntry { content, origin, timestamp: Some(now) };
            match current {
                None => {
                    let mut messages = Vec::new();
                    messages.push(entry);
                    assert(entries_view(messages@) =~= seq![entry@]);
                    Some(DeviceRenderingState::MessageList { messages })
                },
                Some(DeviceRenderingState::MessageList { mut messages }) => {
                    push_message(&mut messages, entry);
                    Some(DeviceRenderingState::MessageList { messages })
                },
                Some(DeviceRenderingState::ScheduleLayout { events, mut messages }) => {
                    push_message(&mut messages, entry);
                    Some(DeviceRenderingState::ScheduleLayout { events, messages })
                },
            }
        },
        DeviceStateTransition::SetSchedule(events) => match current {
            Some(DeviceRenderingState::ScheduleLayout { messages, .. }) => Some(
                DeviceRenderingState::ScheduleLayout { events, messages },
            ),
            _ => {
                let messages = Vec::new();
                assert(entries_view(messages@) =~= Seq::<EntryModel>::empty());
                Some(DeviceRenderingState::ScheduleLayout { events, messages })
            },
        },
    }
}

/// The rendering state after a transition applied now: the clock is read once, and the new
/// message, if any, is stamped with that reading.
pub fn transition_rendering_state(
    current: Option<DeviceRenderingState>,
    transition: DeviceStateTransition,
) -> (next: Option<DeviceRenderingState>)
    ensures
        exists|now: i64|
            timestamp_in_range(now) && rendering_view(next) == spec_next_rendering(
                rendering_view(current),
                transition@,
                now,
            ),
{
    let now = now_millis();
    let ghost before = rendering_view(current);
    let ghost change = transition@;
    let next = next_rendering_state(current, transition, now);
    assert(timestamp_in_range(now) && rendering_view(next) == spec_next_rendering(
        before,
        change,
        now,
    ));
    next
}

/// Clearing forgets whatever was rendered; adding a message leaves it as the last message of the
/// state, stamped with the instant of the transition, after the newest messages of the previous
/// list in their order, with never more than `MAX_MESSAGE_LIST_LEN` messages kept; setting a
/// schedule shows the new events and keeps the messages of a previous schedule.
pub proof fn law_transitions(current: Option<RenderingModel>, transition: TransitionModel, now: i64)
    ensures
        transition is Clear ==> spec_next_rendering(current, transition, now) is None,
        transition matches TransitionModel::PushMessage(content, origin) ==> {
            let messages = messages_of(spec_next_rendering(current, transition, now));
            let before = messages_of(current);
            &&& messages.len() <= MAX_MESSAGE_LIST_LEN
            &&& messages.len() == if before.len() < MAX_MESSAGE_LIST_LEN {
                before.len() + 1
            } else {
                MAX_MESSAGE_LIST_LEN as nat
            }
            &&& messages.last() == (EntryModel { content, origin, timestamp: Some(now) })
            &&& messages.drop_last() == before.skip(before.len() - (messages.len() - 1))
        },
        transition matches TransitionModel::SetSchedule(events) ==> {
            &&& spec_next_rendering(current, transition, now) matches Some(
                RenderingModel::ScheduleLayout(shown, _),
            ) && shown == events
            &&& current matches Some(RenderingModel::ScheduleLayout(_, kept)) ==> messages_of(
                spec_next_rendering(current, transition, now),
            ) == kept
        },
        messages_of(current).len() <= MAX_MESSAGE_LIST_LEN ==> messages_of(
            spec_next_rendering(current, transition, now),
        ).len() <= MAX_MESSAGE_LIST_LEN,
{
    if let TransitionModel::PushMessage(content, origin) = transition {
        let messages = messages_of(spec_next_rendering(current, transition, now));
        let before = messages_of(current);
        let entry = EntryModel { content, origin, timestamp: Some(now) };
        assert(messages =~= newest(before.push(entry)));
        assert(messages.drop_last() =~= before.skip(before.len() - (messages.len() - 1)));
    }
}

// ---------------------------------------------------------------------------------------------
// Layouts.
// ---------------------------------------------------------------------------------------------

/// A box with only its left side set.
pub open spec fn left_box(amount: i32) -> OptionalBoundingBox {
    OptionalBoundingBox { left: Some(amount), ..empty_box() }
}

/// A box with only its top side set.
pub open spec fn top_box(amount: i32) -> OptionalBoundingBox {
    OptionalBoundingBox { top: Some(amount), ..empty_box() }
}

/// A box with only its bottom side set.
pub open spec fn bottom_box(amount: i32) -> OptionalBoundingBox {
    OptionalBoundingBox { bottom: Some(amount), ..empty_box() }
}

/// The basic styling shared by every component of a state layout: a left padding of 10 and a
/// left border of 2.
pub open spec fn padded<V>(m: StylizedMessage<V>) -> StylizedMessage<V> {
    StylizedMessage { padding: Some(left_box(10)), border: Some(left_box(2)), ..m }
}

/// Applies the basic styling shared by every component of a state layout.
pub fn apply_padding<S>(component: &mut StylizedMessage<S>)
    ensures
        *final(component) == padded(*old(component)),
{
    component.padding = Some(OptionalBoundingBox { left: Some(10), ..OptionalBoundingBox::default() });
    component.border = Some(OptionalBoundingBox { left: Some(2), ..OptionalBoundingBox::default() });
}

/// When rendering messages, either the origin and timestamp are rendered on the same line, or
/// they are split into two separate lines.
#[derive(Debug, Clone, Copy, PartialEq, Eq)]
pub enum MessageEntryLayout {
    /// Render the timestamp and origin separately.
    Separate,
    /// Render the timestamp and origin together.
    Together,
}

/// The text naming who sent a message.
pub open spec fn origin_text(origin: OriginModel) -> Seq<char> {
    match origin {
        OriginModel::Unknown => "unknown"@,
        OriginModel::User(nickname) => nickname,
    }
}

/// A component of the given text and height in the default font, otherwise unstyled.
pub open spec fn text_component(message: Seq<char>, size: u32) -> StylizedMessage<Seq<char>> {
    StylizedMessage {
        message,
        font: Some(FontSelection::Roboto),
        padding: None,
        margin: None,
        border: None,
        size: Some(size),
    }
}

/// The components a message entry renders to: the content, then who sent it and when, either on
/// one line or on two. The first entry of a list is pushed down by a top margin.
pub open spec fn entry_components(
    entry: EntryModel,
    layout: MessageEntryLayout,
    is_first: bool,
) -> Seq<StylizedMessage<Seq<char>>> {
    let content = padded(
        StylizedMessage {
            margin: if is_first {
                Some(top_box(10))
            } else {
                None
            },
            ..text_component(entry.content, PRIMARY_TEXT_SIZE)
        },
    );
    let origin = padded(
        StylizedMessage {
            margin: Some(bottom_box(10)),
            ..text_component(seq![], SECONDARY_TEXT_SIZE)
        },
    );
    let from = origin_text(entry.origin);
    match layout {
        MessageEntryLayout::Separate => match entry.timestamp {
            Some(ts) => seq![
                content,
                StylizedMessage { message: from, margin: None, ..origin },
                padded(
                    StylizedMessage {
                        margin: Some(bottom_box(10)),
                        ..text_component(month_day_time_text(ts), SECONDARY_TEXT_SIZE)
                    },
                ),
            ],
            None => seq![content, StylizedMessage { message: from, ..origin }],
        },
        MessageEntryLayout::Together => {
            let text = match entry.timestamp {
                Some(ts) => from + " (@ "@ + month_day_time_text(ts) + ")"@,
                None => from,
            };
            seq![content, StylizedMessage { message: text, ..origin }]
        },
    }
}

/// The components of a list of message entries, in order.
pub open spec fn entries_components(
    entries: Seq<EntryModel>,
    layout: MessageEntryLayout,
) -> Seq<StylizedMessage<Seq<char>>>
    decreases entries.len(),
{
    if entries.len() == 0 {
        seq![]
    } else {
        entries_components(entries.drop_last(), layout) + entry_components(
            entries.last(),
            layout,
            entries.len() == 1,
        )
    }
}

/// Builds the text naming who sent a message.
fn origin_name(origin: &DeviceStateMessageOrigin) -> (text: String)
    ensures
        text@ == origin_text(origin@),
{
    match origin {
        DeviceStateMessageOrigin::Unknown => String::from_str("unknown"),
        DeviceStateMessageOrigin::User { nickname } => nickname.clone(),
    }
}

/// Pushes the components of a message entry onto an accumulator, based on the layout desired.
pub fn render_message_entry(
    entry: &DeviceRenderingStateMessageEntry,
    acc: &mut Vec<StylizedMessage<String>>,
    layout: MessageEntryLayout,
)
    ensures
        messages_view(final(acc)@) == messages_view(old(acc)@) + entry_components(
            entry@,
            layout,
            old(acc)@.len() == 0,
        ),
        final(acc)@.len() >= old(acc)@.len() + 2,
{
    let is_first = acc.len() == 0;
    let ghost before = acc@;

    // The main content.
    let mut message_component = StylizedMessage::<String>::default();
    message_component.message = entry.content.clone();
    message_component.size = Some(PRIMARY_TEXT_SIZE);
    apply_padding(&mut message_component);
    if is_first {
        message_component.margin = Some(OptionalBoundingBox { top: Some(10), ..OptionalBoundingBox::default() });
    }
    let ghost content = message_component@;
    acc.push(message_component);

    let mut origin_component = StylizedMessage::<String>::default();
    origin_component.size = Some(SECONDARY_TEXT_SIZE);
    apply_padding(&mut origin_component);
    origin_component.margin = Some(OptionalBoundingBox { bottom: Some(10), ..OptionalBoundingBox::default() });

    // Who sent it, and when.
    match layout {
        MessageEntryLayout::Separate => {
            origin_component.message = origin_name(&entry.origin);
            if let Some(ts) = entry.timestamp {
                origin_component.margin = None;
                let mut time_component = StylizedMessage {
                    message: format_month_day_time(ts),
                    size: Some(SECONDARY_TEXT_SIZE),
                    margin: Some(OptionalBoundingBox { bottom: Some(10), ..OptionalBoundingBox::default() }),
                    ..StylizedMessage::<String>::default()
                };
                apply_padding(&mut time_component);
                let ghost origin_view = origin_component@;
                let ghost time_view = time_component@;
                acc.push(origin_component);
                acc.push(time_component);
                assert(messages_view(acc@) =~= messages_view(before) + seq![
                    content,
                    origin_view,
                    time_view,
                ]);
                return ;
            }
            let ghost origin_view = origin_component@;
            acc.push(origin_component);
            assert(messages_view(acc@) =~= messages_view(before) + seq![content, origin_view]);
        },
        MessageEntryLayout::Together => {
            let from_addr = origin_name(&entry.origin);
            origin_component.message = match entry.timestamp {
                Some(ts) => {
                    let time = format_month_day_time(ts);
                    let text = from_addr.concat(" (@ ").concat(time.as_str()).concat(")");
                    text
                },
                None => from_addr,
            };
            let ghost origin_view = origin_component@;
            acc.push(origin_component);
            assert(messages_view(acc@) =~= messages_view(before) + seq![content, origin_view]);
        },
    }
}

/// The text of the time span of an event with a start and an end time: `"<hh>:<mm> - <hh>:<mm>"`,
/// each read at the offset it was written with.
pub open spec fn span_text(start: (i64, i32), end: (i64, i32)) -> Seq<char> {
    hour_minute_text(start.0, start.1) + " - "@ + hour_minute_text(end.0, end.1)
}

/// The components an event renders to: its summary, then its time span when both its start and
/// end carry a time.
pub open spec fn event_components(event: EventModel) -> Seq<StylizedMessage<Seq<char>>> {
    let summary = StylizedMessage {
        border: Some(left_box(2)),
        margin: Some(OptionalBoundingBox { top: Some(10), left: Some(10), ..empty_box() }),
        padding: Some(left_box(10)),
        ..text_component(event.summary, PRIMARY_TEXT_SIZE)
    };
    match (event.start, event.end) {
        (ParsedEventTimeMarker::DateTime(s, so), ParsedEventTimeMarker::DateTime(e, eo)) => seq![
            summary,
            StylizedMessage {
                border: Some(left_box(2)),
                margin: Some(left_box(10)),
                padding: Some(left_box(10)),
                ..text_component(span_text((s, so), (e, eo)), SECONDARY_TEXT_SIZE)
            },
        ],
        _ => seq![summary],
    }
}

/// The components of a list of events, in order.
pub open spec fn events_components(events: Seq<EventModel>) -> Seq<StylizedMessage<Seq<char>>>
    decreases events.len(),
{
    if events.len() == 0 {
        seq![]
    } else {
        events_components(events.drop_last()) + event_components(events.last())
    }
}

/// The layout of a rendering state: a calendar shows its first `MAX_DISPLAYED_EVENTS` events on
/// the left half and its messages on the right half; a message list fills four fifths of the
/// screen from the left.
pub open spec fn state_layout(state: RenderingModel) -> LayoutModel<Seq<char>> {
    match state {
        RenderingModel::ScheduleLayout(events, messages) => LayoutModel::Split {
            left: ContentsModel::Messages(
                events_components(
                    if events.len() > MAX_DISPLAYED_EVENTS {
                        events.take(MAX_DISPLAYED_EVENTS as int)
                    } else {
                        events
                    },
                ),
            ),
            right: ContentsModel::Messages(
                entries_components(messages, MessageEntryLayout::Separate),
            ),
            ratio: 50,
        },
        RenderingModel::MessageList(messages) => LayoutModel::Split {
            left: ContentsModel::Messages(
                entries_components(messages, MessageEntryLayout::Together),
            ),
            right: ContentsModel::Messages(seq![]),
            ratio: 80,
        },
    }
}

/// Pushes the components of an event onto an accumulator.
fn render_event(event: &ParsedEvent, acc: &mut Vec<StylizedMessage<String>>)
    ensures
        messages_view(final(acc)@) == messages_view(old(acc)@) + event_components(event@),
{
    let ghost before = acc@;
    let summary = StylizedMessage {
        message: event.summary.clone(),
        size: Some(PRIMARY_TEXT_SIZE),
        border: Some(OptionalBoundingBox { left: Some(2), ..OptionalBoundingBox::default() }),
        margin: Some(OptionalBoundingBox { top: Some(10), left: Some(10), ..OptionalBoundingBox::default() }),
        padding: Some(OptionalBoundingBox { left: Some(10), ..OptionalBoundingBox::default() }),
        ..StylizedMessage::<String>::default()
    };
    let ghost summary_view = summary@;
    acc.push(summary);
    match (event.start, event.end) {
        (ParsedEventTimeMarker::DateTime(s, so), ParsedEventTimeMarker::DateTime(e, eo)) => {
            let formatted_start = format_hour_minute(s, so);
            let formatted_end = format_hour_minute(e, eo);
            let text = formatted_start.concat(" - ").concat(formatted_end.as_str());
            let span = StylizedMessage {
                message: text,
                size: Some(SECONDARY_TEXT_SIZE),
                border: Some(OptionalBoundingBox { left: Some(2), ..OptionalBoundingBox::default() }),
                margin: Some(OptionalBoundingBox { left: Some(10), ..OptionalBoundingBox::default() }),
                padding: Some(OptionalBoundingBox { left: Some(10), ..OptionalBoundingBox::default() }),
                ..StylizedMessage::<String>::default()
            };
            let ghost span_view = span@;
            acc.push(span);
            assert(messages_view(acc@) =~= messages_view(before) + seq![summary_view, span_view]);
        },
        _ => {
            assert(messages_view(acc@) =~= messages_view(before) + seq![summary_view]);
        },
    }
}

/// The components of message entries, in order, in the given layout.
fn render_entries(
    entries: &Vec<DeviceRenderingStateMessageEntry>,
    layout: MessageEntryLayout,
) -> (acc: Vec<StylizedMessage<String>>)
    ensures
        messages_view(acc@) == entries_components(entries_view(entries@), layout),
{
    let mut acc: Vec<StylizedMessage<String>> = Vec::new();
    let mut i: usize = 0;
    assert(entries_view(entries@).take(0) =~= Seq::<EntryModel>::empty());
    assert(messages_view(acc@) =~= Seq::<StylizedMessage<Seq<char>>>::empty());
    while i < entries.len()
        invariant
            i <= entries@.len(),
            messages_view(acc@) == entries_components(entries_view(entries@).take(i as int), layout),
            i == 0 <==> acc@.len() == 0,
        decreases entries@.len() - i,
    {
        let ghost prefix = entries_view(entries@).take(i as int);
        render_message_entry(&entries[i], &mut acc, layout);
        proof {
            let next = entries_view(entries@).take(i + 1);
            assert(next.drop_last() =~= prefix);
            assert(next.last() == entries[i as int]@);
        }
        i = i + 1;
    }
    assert(entries_view(entries@).take(entries@.len() as int) =~= entries_view(entries@));
    acc
}

/// Builds the render layout of a rendering state.
pub fn render_state(state: &DeviceRenderingState) -> (layout: RenderLayout<String>)
    ensures
        layout@ == state_layout(state@),
{
    match state {
        DeviceRenderingState::ScheduleLayout { events, messages } => {
            let mut left: Vec<StylizedMessage<String>> = Vec::new();
            let count = if events.len() > MAX_DISPLAYED_EVENTS {
                MAX_DISPLAYED_EVENTS
            } else {
                events.len()
            };
            let ghost shown = if events@.len() > MAX_DISPLAYED_EVENTS {
                events_view(events@).take(MAX_DISPLAYED_EVENTS as int)
            } else {
                events_view(events@)
            };
            assert(shown =~= events_view(events@).take(count as int));
            let mut i: usize = 0;
            assert(events_view(events@).take(0) =~= Seq::<EventModel>::empty());
            assert(messages_view(left@) =~= Seq::<StylizedMessage<Seq<char>>>::empty());
            while i < count
                invariant
                    count <= events@.len(),
                    i <= count,
                    messages_view(left@) == events_components(events_view(events@).take(i as int)),
                decreases count - i,
            {
                let ghost prefix = events_view(events@).take(i as int);
                render_event(&events[i], &mut left);
                proof {
                    let next = events_view(events@).take(i + 1);
                    assert(next.drop_last() =~= prefix);
                    assert(next.last() == events[i as int]@);
                }
                i = i + 1;
            }
            let right = render_entries(messages, MessageEntryLayout::Separate);
            let split = SplitLayout {
                left: SplitContents::Messages(left),
                right: SplitContents::Messages(right),
                ratio: 50,
            };
            RenderLayout::Split(split)
        },
        DeviceRenderingState::MessageList { messages } => {
            let left = render_entries(messages, MessageEntryLayout::Together);
            let right: Vec<StylizedMessage<String>> = Vec::new();
            assert(messages_view(right@) =~= Seq::<StylizedMessage<Seq<char>>>::empty());
            let split = SplitLayout {
                left: SplitContents::Messages(left),
                right: SplitContents::Messages(right),
                ratio: 80,
            };
            RenderLayout::Split(split)
        },
    }
}

// ---------------------------------------------------------------------------------------------
// What a transition keeps showing, and what a layout shows.
// ---------------------------------------------------------------------------------------------

/// The calendar events a rendering state shows, when it shows a schedule.
pub open spec fn shown_events(state: Option<RenderingModel>) -> Option<Seq<EventModel>> {
    match state {
        Some(RenderingModel::ScheduleLayout(events, _)) => Some(events),
        _ => None,
    }
}

/// Whether a rendering state shows a plain list of messages.
pub open spec fn shows_message_list(state: Option<RenderingModel>) -> bool {
    match state {
        Some(RenderingModel::MessageList(_)) => true,
        _ => false,
    }
}

/// Adding a message never changes what kind of screen a device shows: a schedule keeps showing
/// the same calendar events, with the message among its messages, and a device that showed a
/// message list, or nothing, shows a message list.
pub proof fn law_push_keeps_the_screen(
    current: Option<RenderingModel>,
    content: Seq<char>,
    origin: OriginModel,
    now: i64,
)
    ensures
        shown_events(spec_next_rendering(current, TransitionModel::PushMessage(content, origin), now))
            == shown_events(current),
        shown_events(current) is None ==> shows_message_list(
            spec_next_rendering(current, TransitionModel::PushMessage(content, origin), now),
        ),
        messages_of(spec_next_rendering(current, TransitionModel::PushMessage(content, origin), now)).last()
            == (EntryModel { content, origin, timestamp: Some(now) }),
{
    law_transitions(current, TransitionModel::PushMessage(content, origin), now);
}

/// Whether some component of a list draws the given text.
pub open spec fn draws(components: Seq<StylizedMessage<Seq<char>>>, text: Seq<char>) -> bool {
    exists|j: int| 0 <= j < components.len() && components[j].message == text
}

/// What the components of a list of message entries show, whichever way each entry is laid out:
/// at least the content and the sender of each entry, every entry's content, the first entry's
/// content first.
proof fn lemma_entries_shown(entries: Seq<EntryModel>, layout: MessageEntryLayout)
    ensures
        entries_components(entries, layout).len() >= 2 * entries.len(),
        forall|i: int|
            0 <= i < entries.len() ==> #[trigger] draws(
                entries_components(entries, layout),
                entries[i].content,
            ),
        entries.len() > 0 ==> entries_components(entries, layout)[0].message == entries[0].content,
    decreases entries.len(),
{
    if entries.len() > 0 {
        let rest = entries.drop_last();
        lemma_entries_shown(rest, layout);
        let before = entries_components(rest, layout);
        let last = entry_components(entries.last(), layout, entries.len() == 1);
        let all = entries_components(entries, layout);
        assert(all == before + last);
        assert(last[0].message == entries.last().content);
        assert forall|i: int| 0 <= i < entries.len() implies #[trigger] draws(all, entries[i].content) by {
            if i < entries.len() - 1 {
                assert(rest[i] == entries[i]);
                assert(draws(before, rest[i].content));
                let j = choose|j: int| 0 <= j < before.len() && before[j].message == rest[i].content;
                assert(all[j] == before[j]);
            } else {
                assert(all[before.len() as int] == last[0]);
            }
        }
        if entries.len() == 1 {
            assert(before.len() == 0);
            assert(all[0] == last[0]);
        } else {
            assert(rest[0] == entries[0]);
            assert(all[0] == before[0]);
        }
    }
}

/// What the components of a list of events show: one or two components per event, every event's
/// summary, the first event's summary first.
proof fn lemma_events_shown(events: Seq<EventModel>)
    ensures
        events.len() <= events_components(events).len() <= 2 * events.len(),
        forall|i: int|
            0 <= i < events.len() ==> #[trigger] draws(events_components(events), events[i].summary),
        events.len() > 0 ==> events_components(events)[0].message == events[0].summary,
    decreases events.len(),
{
    if events.len() > 0 {
        let rest = events.drop_last();
        lemma_events_shown(rest);
        let before = events_components(rest);
        let last = event_components(events.last());
        let all = events_components(events);
        assert(all == before + last);
        assert(last[0].message == events.last().summary);
        assert forall|i: int| 0 <= i < events.len() implies #[trigger] draws(all, events[i].summary) by {
            if i < events.len() - 1 {
                assert(rest[i] == events[i]);
                assert(draws(before, rest[i].summary));
                let j = choose|j: int| 0 <= j < before.len() && before[j].message == rest[i].summary;
                assert(all[j] == before[j]);
            } else {
                assert(all[before.len() as int] == last[0]);
            }
        }
        if events.len() == 1 {
            assert(all[0] == last[0]);
        } else {
            assert(rest[0] == events[0]);
            assert(all[0] == before[0]);
        }
    }
}

/// The messages a split layout draws on its right side, when it is a split of messages.
pub open spec fn right_messages(layout: LayoutModel<Seq<char>>) -> Option<Seq<StylizedMessage<Seq<char>>>> {
    match layout {
        LayoutModel::Split { right: ContentsModel::Messages(r), .. } => Some(r),
        _ => None,
    }
}

/// The messages a split layout draws on its left side, when it is a split of messages.
pub open spec fn left_messages(layout: LayoutModel<Seq<char>>) -> Option<Seq<StylizedMessage<Seq<char>>>> {
    match layout {
        LayoutModel::Split { left: ContentsModel::Messages(l), .. } => Some(l),
        _ => None,
    }
}

/// Whether a list of components shows every message of a list: at least two components (content
/// and sender) for each message, every message's content, the first message's content first.
pub open spec fn shows_messages(components: Seq<StylizedMessage<Seq<char>>>, messages: Seq<EntryModel>) -> bool {
    &&& components.len() >= 2 * messages.len()
    &&& forall|i: int| 0 <= i < messages.len() ==> #[trigger] draws(components, messages[i].content)
    &&& messages.len() > 0 ==> components[0].message == messages[0].content
}

/// The share of the width a split layout gives its left side.
pub open spec fn split_ratio(layout: LayoutModel<Seq<char>>) -> Option<u8> {
    match layout {
        LayoutModel::Split { ratio, .. } => Some(ratio),
        _ => None,
    }
}

/// The number of events a schedule shows.
pub open spec fn displayed_count(events: Seq<EventModel>) -> int {
    if events.len() > MAX_DISPLAYED_EVENTS {
        MAX_DISPLAYED_EVENTS as int
    } else {
        events.len() as int
    }
}

/// Whether a list of components shows the first events of a schedule: one or two components for
/// each, every shown event's summary, the first event's summary first.
pub open spec fn shows_events(components: Seq<StylizedMessage<Seq<char>>>, events: Seq<EventModel>) -> bool {
    &&& displayed_count(events) <= components.len() <= 2 * displayed_count(events)
    &&& forall|i: int| 0 <= i < displayed_count(events) ==> #[trigger] draws(components, events[i].summary)
    &&& events.len() > 0 ==> components[0].message == events[0].summary
}

/// The layout of a schedule splits the screen in halves: its first `MAX_DISPLAYED_EVENTS` events
/// on the left, every one of its messages on the right. A message list gives four fifths of the
/// screen to every one of its messages, with nothing on the right.
pub proof fn law_layouts_show_the_messages(state: RenderingModel)
    ensures
        state matches RenderingModel::ScheduleLayout(_, messages) ==> right_messages(state_layout(state))
            matches Some(r) && shows_messages(r, messages),
        state matches RenderingModel::MessageList(messages) ==> left_messages(state_layout(state))
            matches Some(l) && shows_messages(l, messages),
        state matches RenderingModel::ScheduleLayout(events, _) ==> left_messages(state_layout(state))
            matches Some(l) && shows_events(l, events),
        state is MessageList ==> right_messages(state_layout(state)) == Some(
            Seq::<StylizedMessage<Seq<char>>>::empty(),
        ),
        split_ratio(state_layout(state)) == Some(if state is ScheduleLayout { 50u8 } else { 80u8 }),
{
    match state {
        RenderingModel::ScheduleLayout(events, messages) => {
            lemma_entries_shown(messages, MessageEntryLayout::Separate);
            let shown = if events.len() > MAX_DISPLAYED_EVENTS {
                events.take(MAX_DISPLAYED_EVENTS as int)
            } else {
                events
            };
            lemma_events_shown(shown);
            assert(shown.len() == displayed_count(events));
            assert forall|i: int| 0 <= i < displayed_count(events) implies shown[i] == events[i] by {}
        },
        RenderingModel::MessageList(messages) => {
            lemma_entries_shown(messages, MessageEntryLayout::Together);
        },
    }
}

} // verus!
