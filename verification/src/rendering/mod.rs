use vstd::prelude::*;

/// Defines all of the fonts available.
pub mod fonts;
pub use fonts::FontSelection;

/// Defines the components that can be used within a layout.
pub mod components;
pub use components::{OptionalBoundingBox, Scannable, StylizedMessage};

/// Where the parts of a message land once its text is measured.
pub mod geometry;

/// The queue of renders waiting to be rasterized and sent to devices.
pub mod queue;
pub use queue::{Queue, QueuedRender, QueuedRenderAuthority};

/// What the renderer worker does with each render it pops.
pub mod renderer;

verus! {

/// The types of things that a split can contain.
#[derive(Debug, Clone, PartialEq)]
pub enum SplitContents<S> {
    /// A list of messages.
    Messages(Vec<StylizedMessage<S>>),
    /// Embeds a qr code onto the split side.
    Scannable(Scannable<S>),
}

/// The abstract value of what a split contains.
pub enum ContentsModel<V> {
    /// A list of messages.
    Messages(Seq<StylizedMessage<V>>),
    /// The contents of a qr code.
    Scannable(V),
}

/// The abstract value of a list of messages.
pub open spec fn messages_view<S: View>(v: Seq<StylizedMessage<S>>) -> Seq<StylizedMessage<S::V>> {
    v.map_values(|m: StylizedMessage<S>| m@)
}

impl<S: View> View for SplitContents<S> {
    type V = ContentsModel<S::V>;

    open spec fn view(&self) -> ContentsModel<S::V> {
        match self {
            SplitContents::Messages(messages) => ContentsModel::Messages(messages_view(messages@)),
            SplitContents::Scannable(scannable) => ContentsModel::Scannable(scannable.contents@),
        }
    }
}

/// A layout that has content on the left and right.
#[derive(Debug, Clone, PartialEq)]
pub struct SplitLayout<S> {
    /// What gets rendered on the left.
    pub left: SplitContents<S>,
    /// What gets rendered on the right.
    pub right: SplitContents<S>,
    /// A 0-100 value of how much space the _left_ split should take.
    pub ratio: u8,
}

/// The render layout represents the various kinds of layouts that can be rasterized into an image
/// and sent to the devices.
#[derive(Debug, Clone, PartialEq)]
pub enum RenderLayout<S> {
    /// Clears the screen.
    Clear,
    /// A single stylized message, rendered in the middle of the display.
    StylizedMessage(StylizedMessage<S>),
    /// A layout that has content on the left, and content on the right.
    Split(SplitLayout<S>),
    /// A single qr code that will be rendered to the whole dimensions.
    Scannable(Scannable<S>),
}

/// The abstract value of a render layout.
pub enum LayoutModel<V> {
    /// Clears the screen.
    Clear,
    /// A single stylized message.
    StylizedMessage(StylizedMessage<V>),
    /// Content on the left and on the right, and the share of the width given to the left.
    Split { left: ContentsModel<V>, right: ContentsModel<V>, ratio: u8 },
    /// A single qr code.
    Scannable(V),
}

impl<S: View> View for RenderLayout<S> {
    type V = LayoutModel<S::V>;

    open spec fn view(&self) -> LayoutModel<S::V> {
        match self {
            RenderLayout::Clear => LayoutModel::Clear,
            RenderLayout::StylizedMessage(m) => LayoutModel::StylizedMessage(m@),
            RenderLayout::Split(split) => LayoutModel::Split {
                left: split.left@,
                right: split.right@,
                ratio: split.ratio,
            },
            RenderLayout::Scannable(scannable) => LayoutModel::Scannable(scannable.contents@),
        }
    }
}

/// The width given to the left side of a split layout of the given ratio: a quarter, a third,
/// half, two thirds, three quarters or four fifths of the whole, and half for any other ratio.
pub open spec fn spec_left_split_width(ratio: u8, width: u32) -> u32 {
    if ratio == 25 {
        width / 4
    } else if ratio == 33 {
        width / 3
    } else if ratio == 66 {
        (width - width / 3) as u32
    } else if ratio == 75 {
        (width - width / 4) as u32
    } else if ratio == 80 {
        (width - width / 5) as u32
    } else {
        width / 2
    }
}

/// The width, in pixels, given to the left side of a split layout when it is rasterized.
pub fn left_split_width(ratio: u8, width: u32) -> (left: u32)
    ensures
        left == spec_left_split_width(ratio, width),
        left <= width,
{
    match ratio {
        25 => width / 4,
        33 => width / 3,
        50 => width / 2,
        66 => width - (width / 3),
        75 => width - (width / 4),
        80 => width - (width / 5),
        _ => width / 2,
    }
}

/// "Rendering" commands associated with the lights on a device.
#[derive(Debug, Clone, Copy, PartialEq, Eq)]
pub enum LightingLayout {
    /// Requests the device to turn the lights off.
    Off,
    /// Requests the device to turn the lights on.
    On,
}

/// The text of the command that asks a device to change its lights: `lighting:on` or
/// `lighting:off`.
pub open spec fn spec_lighting_command(layout: LightingLayout) -> Seq<char> {
    match layout {
        LightingLayout::On => "lighting:on"@,
        LightingLayout::Off => "lighting:off"@,
    }
}

/// Builds the command pushed onto a device queue to change its lights.
pub fn lighting_command(layout: LightingLayout) -> (command: String)
    ensures
        command@ == spec_lighting_command(layout),
{
    let prefix = String::from_str(crate::constants::LIGHTING_PREFIX);
    let state = match layout {
        LightingLayout::On => ":on",
        LightingLayout::Off => ":off",
    };
    proof {
        reveal_strlit("lighting");
        reveal_strlit(":on");
        reveal_strlit(":off");
        reveal_strlit("lighting:on");
        reveal_strlit("lighting:off");
    }
    let command = prefix.concat(state);
    assert(command@ =~= spec_lighting_command(layout));
    command
}

/// Wraps a layout together with when it was created.
#[derive(Debug, Clone, PartialEq)]
pub struct RenderLayoutContainer<L> {
    /// The wrapped layout.
    pub layout: L,
    /// When this layout was created, in milliseconds since the unix epoch.
    pub created: Option<i64>,
}

/// Wraps the lighting and display of the device.
#[derive(Debug, Clone, PartialEq)]
pub enum RenderVariant<S> {
    /// Requests a layout be rendered to the screen.
    Layout(RenderLayoutContainer<RenderLayout<S>>),
    /// Requests some change in the lighting.
    Lighting(RenderLayoutContainer<LightingLayout>),
}

/// Whether a render variant carries the given layout and a creation time read from the clock.
pub open spec fn is_layout_variant<S: View>(v: RenderVariant<S>, layout: LayoutModel<S::V>) -> bool {
    match v {
        RenderVariant::Layout(container) => {
            &&& container.layout@ == layout
            &&& container.created matches Some(t) && crate::time::timestamp_in_range(t)
        },
        RenderVariant::Lighting(_) => false,
    }
}

/// Whether a render variant asks for the given lighting, with a creation time read from the
/// clock.
pub open spec fn is_lighting_variant<S>(v: RenderVariant<S>, lighting: LightingLayout) -> bool {
    match v {
        RenderVariant::Lighting(container) => {
            &&& container.layout == lighting
            &&& container.created matches Some(t) && crate::time::timestamp_in_range(t)
        },
        RenderVariant::Layout(_) => false,
    }
}

impl<S: View> RenderVariant<S> {
    /// Requests the lights be turned on.
    pub fn on() -> (v: Self)
        ensures
            is_lighting_variant(v, LightingLayout::On),
    {
        let created = crate::time::now_millis();
        Self::Lighting(RenderLayoutContainer { created: Some(created), layout: LightingLayout::On })
    }

    /// Requests the lights be turned off.
    pub fn off() -> (v: Self)
        ensures
            is_lighting_variant(v, LightingLayout::Off),
    {
        let created = crate::time::now_millis();
        Self::Lighting(RenderLayoutContainer { created: Some(created), layout: LightingLayout::Off })
    }

    /// Wraps a qr code of the contents in the container types.
    pub fn scannable(contents: S) -> (v: Self)
        ensures
            is_layout_variant(v, LayoutModel::Scannable(contents@)),
    {
        let layout = RenderLayout::Scannable(Scannable { contents });
        let created = crate::time::now_millis();
        Self::Layout(RenderLayoutContainer { layout, created: Some(created) })
    }

    /// Wraps a layout in the container types.
    pub fn layout(layout: RenderLayout<S>) -> (v: Self)
        ensures
            is_layout_variant(v, layout@),
    {
        let created = crate::time::now_millis();
        Self::Layout(RenderLayoutContainer { layout, created: Some(created) })
    }

    /// Wraps a single message, drawn in the Barlow font, in the container types.
    pub fn message(message: S) -> (v: Self)
        ensures
            is_layout_variant(
                v,
                LayoutModel::StylizedMessage(
                    StylizedMessage {
                        message: message@,
                        font: Some(FontSelection::Barlow),
                        padding: None,
                        margin: None,
                        border: None,
                        size: None,
                    },
                ),
            ),
    {
        let layout = RenderLayout::StylizedMessage(
            StylizedMessage {
                border: None,
                margin: None,
                padding: None,
                font: Some(FontSelection::Barlow),
                message,
                size: None,
            },
        );
        let created = crate::time::now_millis();
        Self::Layout(RenderLayoutContainer { layout, created: Some(created) })
    }
}

} // verus!
