use vstd::prelude::*;
use crate::vendor::google::{events_view, EventModel, ParsedEvent};

verus! {

/// The various kinds of origins messages can come from.
#[derive(Debug, Clone, PartialEq)]
pub enum DeviceStateMessageOrigin {
    /// An anonymous message.
    Unknown,
    /// This message came from a user.
    User {
        /// The nickname of the user.
        nickname: String,
    },
}

/// The abstract value of a message origin.
pub enum OriginModel {
    /// An anonymous message.
    Unknown,
    /// A message from the user with this nickname.
    User(Seq<char>),
}

impl View for DeviceStateMessageOrigin {
    type V = OriginModel;

    open spec fn view(&self) -> OriginModel {
        match self {
            DeviceStateMessageOrigin::Unknown => OriginModel::Unknown,
            DeviceStateMessageOrigin::User { nickname } => OriginModel::User(nickname@),
        }
    }
}

/// Entries in our device rendering state that are messages.
#[derive(Debug, Clone, PartialEq)]
pub struct DeviceRenderingStateMessageEntry {
    /// The string to be rendered.
    pub content: String,
    /// Who/what sent this message.
    pub origin: DeviceStateMessageOrigin,
    /// When the message was added to our list, in milliseconds since the unix epoch.
    pub timestamp: Option<i64>,
}

/// The abstract value of a message entry.
pub struct EntryModel {
    /// The string to be rendered.
    pub content: Seq<char>,
    /// Who/what sent this message.
    pub origin: OriginModel,
    /// When the message was added.
    pub timestamp: Option<i64>,
}

impl View for DeviceRenderingStateMessageEntry {
    type V = EntryModel;

    open spec fn view(&self) -> EntryModel {
        EntryModel { content: self.content@, origin: self.origin@, timestamp: self.timestamp }
    }
}

/// The abstract value of a list of message entries.
pub open spec fn entries_view(v: Seq<DeviceRenderingStateMessageEntry>) -> Seq<EntryModel> {
    v.map_values(|e: DeviceRenderingStateMessageEntry| e@)
}

/// This schema is the long-lived representation of what is being rendered to a device.
#[derive(Debug, Clone, PartialEq)]
pub enum DeviceRenderingState {
    /// The layout of our state for rendering a calendar.
    ScheduleLayout {
        /// The latest list of events that will be rendered.
        events: Vec<ParsedEvent>,
        /// The latest list of messages that will be rendered.
        messages: Vec<DeviceRenderingStateMessageEntry>,
    },
    /// Just a list of messages.
    MessageList {
        /// The list of messages.
        messages: Vec<DeviceRenderingStateMessageEntry>,
    },
}

/// The abstract value of a rendering state.
pub enum RenderingModel {
    /// A calendar: the events, then the messages.
    ScheduleLayout(Seq<EventModel>, Seq<EntryModel>),
    /// Just a list of messages.
    MessageList(Seq<EntryModel>),
}

impl View for DeviceRenderingState {
    type V = RenderingModel;

    open spec fn view(&self) -> RenderingModel {
        match self {
            DeviceRenderingState::ScheduleLayout { events, messages } => RenderingModel::ScheduleLayout(
                events_view(events@),
                entries_view(messages@),
            ),
            DeviceRenderingState::MessageList { messages } => RenderingModel::MessageList(
                entries_view(messages@),
            ),
        }
    }
}

/// The abstract value of an optional rendering state.
pub open spec fn rendering_view(r: Option<DeviceRenderingState>) -> Option<RenderingModel> {
    match r {
        Some(state) => Some(state@),
        None => None,
    }
}

/// This schema is the long-lived representation of what is being rendered to a device.
#[derive(Debug, Clone, PartialEq)]
pub struct DeviceState {
    /// The id of a device.
    pub device_id: String,
    /// The last time we were updated, in milliseconds since the unix epoch.
    pub updated_at: Option<i64>,
    /// The render state.
    pub rendering: Option<DeviceRenderingState>,
}

} // verus!
