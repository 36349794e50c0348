//! The decisions of the renderer worker: which render a pop from the rendering queue hands over,
//! where the result of a render goes and in what form, and the sizes it draws at.

use vstd::prelude::*;
use super::{lighting_command, spec_lighting_command, LightingLayout, RenderLayout, RenderVariant};
use super::queue::QueuedRender;
use crate::redis::{device_message_queue_id, popped, spec_device_message_queue_id, spec_popped};
use crate::redis::{Popped, QueueResponse};

verus! {

/// The width of a device's display, which every render is drawn at.
pub const DISPLAY_WIDTH: u32 = 400;

/// The height of a device's display, which every render is drawn at.
pub const DISPLAY_HEIGHT: u32 = 300;

/// The widest image the rasterizer agrees to draw: a device's display.
pub const MAX_WIDTH: u32 = DISPLAY_WIDTH;

/// The tallest image the rasterizer agrees to draw: a device's display.
pub const MAX_HEIGHT: u32 = DISPLAY_HEIGHT;

/// Whether the rasterizer agrees to draw an image of these dimensions: neither side may exceed
/// the reasonable resolution.
pub fn within_resolution(dimensions: (u32, u32)) -> (fits: bool)
    ensures
        fits == (dimensions.0 <= MAX_WIDTH && dimensions.1 <= MAX_HEIGHT),
{
    dimensions.0 <= MAX_WIDTH && dimensions.1 <= MAX_HEIGHT
}

/// The sealed render a pop from the rendering queue handed over, if any.
pub open spec fn spec_sealed_render(response: QueueResponse) -> Option<String> {
    match spec_popped(response) {
        Popped::Payload(payload) => Some(payload),
        _ => None,
    }
}

/// Reads the sealed render out of the response to a pop from the rendering queue: an empty
/// queue, or a response of another shape, hands over nothing.
pub fn sealed_render(response: &QueueResponse) -> (sealed: Option<String>)
    ensures
        sealed == spec_sealed_render(*response),
{
    match popped(response) {
        Popped::Payload(payload) => Some(payload),
        _ => None,
    }
}

/// What is pushed onto a device's queue for a render.
#[derive(Debug, Clone, PartialEq)]
pub enum Delivery<S> {
    /// The text of a command that changes the lights.
    Lights(String),
    /// A layout to rasterize at the given dimensions, whose image is pushed.
    Raster {
        /// The layout.
        layout: RenderLayout<S>,
        /// The width of the image.
        width: u32,
        /// The height of the image.
        height: u32,
    },
}

/// Where and how one render popped from the rendering queue is delivered.
#[derive(Debug, Clone, PartialEq)]
pub struct RenderPlan<S> {
    /// The id of the render, under which its result is recorded.
    pub id: String,
    /// The queue of the device the render is for.
    pub queue_id: String,
    /// What is pushed onto that queue.
    pub delivery: Delivery<S>,
}

/// Whether a delivery is the lighting command for a lighting layout.
pub open spec fn delivers_lights<S>(delivery: Delivery<S>, layout: LightingLayout) -> bool {
    match delivery {
        Delivery::Lights(command) => command@ == spec_lighting_command(layout),
        _ => false,
    }
}

/// Whether a delivery rasterizes a layout at the dimensions of a device's display.
pub open spec fn delivers_raster<S>(delivery: Delivery<S>, layout: RenderLayout<S>) -> bool {
    delivery == (Delivery::Raster { layout, width: DISPLAY_WIDTH, height: DISPLAY_HEIGHT })
}

/// Plans the delivery of a render: it goes to the queue of its device; a lighting change is sent
/// as its command text, and a layout is rasterized at the dimensions of a device's display.
pub fn plan_render(render: QueuedRender<String>) -> (plan: RenderPlan<String>)
    ensures
        plan.id == render.id,
        plan.queue_id@ == spec_device_message_queue_id(render.device_id@),
        match render.layout {
            RenderVariant::Lighting(container) => delivers_lights(plan.delivery, container.layout),
            RenderVariant::Layout(container) => delivers_raster(plan.delivery, container.layout),
        },
{
    let queue_id = device_message_queue_id(render.device_id.as_str());
    let delivery = match render.layout {
        RenderVariant::Lighting(container) => Delivery::Lights(lighting_command(container.layout)),
        RenderVariant::Layout(container) => Delivery::Raster {
            layout: container.layout,
            width: DISPLAY_WIDTH,
            height: DISPLAY_HEIGHT,
        },
    };
    RenderPlan { id: render.id, queue_id, delivery }
}

} // verus!
