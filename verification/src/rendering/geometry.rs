//! Where the parts of a stylized message land once the size of its text is known.

use vstd::prelude::*;
use super::components::{OptionalBoundingBox, StylizedMessage};

verus! {

/// A rectangle: its top left corner and its size.
#[derive(Debug, Clone, Copy, PartialEq, Eq)]
pub struct Rectangle {
    /// The left edge.
    pub left: i32,
    /// The top edge.
    pub top: i32,
    /// The width.
    pub width: i32,
    /// The height.
    pub height: i32,
}

/// Where a message is drawn and how much room it takes.
#[derive(Debug, Clone, Copy, PartialEq, Eq)]
pub struct MessageGeometry {
    /// The left edge of the text.
    pub text_left: i32,
    /// The top edge of the text.
    pub text_top: i32,
    /// With a border: the dark rectangle, then the light rectangle drawn over it, whose offset
    /// to the right leaves the left border visible.
    pub border: Option<(Rectangle, Rectangle)>,
    /// The width the message takes, margins and padding included.
    pub width: i32,
    /// The height the message takes, margins and padding included.
    pub height: i32,
}

/// The sides of an optional box, each zero when unset: left, right, top, bottom.
pub open spec fn sides(b: Option<OptionalBoundingBox>) -> (int, int, int, int) {
    match b {
        Some(inner) => (
            match inner.left {
                Some(v) => v as int,
                None => 0,
            },
            match inner.right {
                Some(v) => v as int,
                None => 0,
            },
            match inner.top {
                Some(v) => v as int,
                None => 0,
            },
            match inner.bottom {
                Some(v) => v as int,
                None => 0,
            },
        ),
        None => (0, 0, 0, 0),
    }
}

/// Whether every quantity of the geometry of a message fits an `i32`, for a message placed at
/// `(left, top)` whose text measures `text_width` by `text_height`.
pub open spec fn geometry_fits<S>(
    m: StylizedMessage<S>,
    left: i32,
    top: i32,
    text_width: i32,
    text_height: i32,
) -> bool {
    let (ml, mr, mt, mb) = sides(m.margin);
    let (pl, pr, pt, pb) = sides(m.padding);
    let (bl, _, _, _) = sides(m.border);
    let fits = |v: int| i32::MIN <= v <= i32::MAX;
    &&& fits(left + ml) && fits(top + mt)
    &&& fits(left + ml + pl) && fits(top + mt + pt)
    &&& fits(left + ml + bl)
    &&& fits(text_width + pl) && fits(text_width + pl + pr)
    &&& fits(text_height + pt) && fits(text_height + pt + pb)
    &&& fits(text_width + ml) && fits(text_width + ml + mr) && fits(text_width + ml + mr + pl)
        && fits(text_width + ml + mr + pl + pr)
    &&& fits(text_height + mt) && fits(text_height + mt + mb) && fits(text_height + mt + mb + pt)
        && fits(text_height + mt + mb + pt + pb)
}

/// The geometry of a message placed at `(left, top)` whose text measures `text_width` by
/// `text_height`: the margins move the message, the padding moves the text inside its border,
/// and the room taken adds margins and padding on every side to the text.
pub open spec fn spec_geometry<S>(
    m: StylizedMessage<S>,
    left: i32,
    top: i32,
    text_width: i32,
    text_height: i32,
) -> MessageGeometry {
    let (ml, mr, mt, mb) = sides(m.margin);
    let (pl, pr, pt, pb) = sides(m.padding);
    let (bl, _, _, _) = sides(m.border);
    let x = left + ml;
    let y = top + mt;
    let box_width = (text_width + pl + pr) as i32;
    let box_height = (text_height + pt + pb) as i32;
    MessageGeometry {
        text_left: (x + pl) as i32,
        text_top: (y + pt) as i32,
        border: match m.border {
            Some(_) => Some(
                (
                    Rectangle { left: x as i32, top: y as i32, width: box_width, height: box_height },
                    Rectangle {
                        left: (x + bl) as i32,
                        top: y as i32,
                        width: box_width,
                        height: box_height,
                    },
                ),
            ),
            None => None,
        },
        width: (text_width + ml + mr + pl + pr) as i32,
        height: (text_height + mt + mb + pt + pb) as i32,
    }
}

/// A side of an optional box, zero when unset.
fn side_or_zero(value: Option<i32>) -> (v: i32)
    ensures
        v == match value {
            Some(inner) => inner as int,
            None => 0,
        },
{
    match value {
        Some(inner) => inner,
        None => 0,
    }
}

/// The sides of an optional box, each zero when unset.
fn box_sides(b: &Option<OptionalBoundingBox>) -> (s: (i32, i32, i32, i32))
    ensures
        (s.0 as int, s.1 as int, s.2 as int, s.3 as int) == sides(*b),
{
    match b {
        Some(inner) => (
            side_or_zero(inner.left),
            side_or_zero(inner.right),
            side_or_zero(inner.top),
            side_or_zero(inner.bottom),
        ),
        None => (0, 0, 0, 0),
    }
}

/// Places a message at `(left, top)` once its text is known to measure `text_width` by
/// `text_height`.
pub fn message_geometry<S>(
    m: &StylizedMessage<S>,
    left: i32,
    top: i32,
    text_width: i32,
    text_height: i32,
) -> (g: MessageGeometry)
    requires
        geometry_fits(*m, left, top, text_width, text_height),
    ensures
        g == spec_geometry(*m, left, top, text_width, text_height),
{
    let (ml, mr, mt, mb) = box_sides(&m.margin);
    let (pl, pr, pt, pb) = box_sides(&m.padding);
    let (bl, _, _, _) = box_sides(&m.border);
    let x = left + ml;
    let y = top + mt;
    let box_width = text_width + pl + pr;
    let box_height = text_height + pt + pb;
    let border = match &m.border {
        Some(_) => Some(
            (
                Rectangle { left: x, top: y, width: box_width, height: box_height },
                Rectangle { left: left + ml + bl, top: y, width: box_width, height: box_height },
            ),
        ),
        None => None,
    };
    MessageGeometry {
        text_left: x + pl,
        text_top: y + pt,
        border,
        width: text_width + ml + mr + pl + pr,
        height: text_height + mt + mb + pt + pb,
    }
}

/// Whether a value fits an `i32`.
fn fits_i32(v: i64) -> (b: bool)
    ensures
        b == (i32::MIN <= v <= i32::MAX),
{
    i32::MIN as i64 <= v && v <= i32::MAX as i64
}

/// Whether every quantity of the geometry of a message fits an `i32`.
pub fn fits_geometry<S>(
    m: &StylizedMessage<S>,
    left: i32,
    top: i32,
    text_width: i32,
    text_height: i32,
) -> (b: bool)
    ensures
        b == geometry_fits(*m, left, top, text_width, text_height),
{
    let (ml, mr, mt, mb) = box_sides(&m.margin);
    let (pl, pr, pt, pb) = box_sides(&m.padding);
    let (bl, _, _, _) = box_sides(&m.border);
    let (ml, mr, mt, mb) = (ml as i64, mr as i64, mt as i64, mb as i64);
    let (pl, pr, pt, pb, bl) = (pl as i64, pr as i64, pt as i64, pb as i64, bl as i64);
    let (x, y, w, h) = (left as i64, top as i64, text_width as i64, text_height as i64);
    fits_i32(x + ml) && fits_i32(y + mt) && fits_i32(x + ml + pl) && fits_i32(y + mt + pt)
        && fits_i32(x + ml + bl) && fits_i32(w + pl) && fits_i32(w + pl + pr) && fits_i32(h + pt)
        && fits_i32(h + pt + pb) && fits_i32(w + ml) && fits_i32(w + ml + mr) && fits_i32(
        w + ml + mr + pl,
    ) && fits_i32(w + ml + mr + pl + pr) && fits_i32(h + mt) && fits_i32(h + mt + mb) && fits_i32(
        h + mt + mb + pt,
    ) && fits_i32(h + mt + mb + pt + pb)
}

/// Dimensional constants of a bordered layout.
#[derive(Debug, Clone, Copy, PartialEq, Eq)]
pub struct BoundingConstants {
    /// The width of the border around the content.
    pub border_width: i32,
    /// The space between the outside of the border and the content.
    pub content_padding: i32,
    /// The space between the content and the screen's edge.
    pub content_margin: i32,
}

/// The two rectangles that leave a border of the constants' width around content placed at
/// `location` with the given dimensions: the outer one grows the content by the padding on every
/// side, and the inner one shrinks the outer one by the border on every side.
pub open spec fn spec_border_rectangles(
    c: BoundingConstants,
    location: (i32, i32),
    dimensions: (i32, i32),
) -> (Rectangle, Rectangle) {
    let x = location.0 - c.content_padding;
    let y = location.1 - c.content_padding;
    let width = dimensions.0 + 2 * c.content_padding;
    let height = dimensions.1 + 2 * c.content_padding;
    (
        Rectangle { left: x as i32, top: y as i32, width: width as i32, height: height as i32 },
        Rectangle {
            left: (x + c.border_width) as i32,
            top: (y + c.border_width) as i32,
            width: (width - 2 * c.border_width) as i32,
            height: (height - 2 * c.border_width) as i32,
        },
    )
}

/// Whether every quantity of the border rectangles fits an `i32`.
pub open spec fn border_fits(c: BoundingConstants, location: (i32, i32), dimensions: (i32, i32)) -> bool {
    let fits = |v: int| i32::MIN <= v <= i32::MAX;
    let x = location.0 - c.content_padding;
    let y = location.1 - c.content_padding;
    let width = dimensions.0 + 2 * c.content_padding;
    let height = dimensions.1 + 2 * c.content_padding;
    &&& fits(2 * c.content_padding) && fits(2 * c.border_width)
    &&& fits(x) && fits(y) && fits(width) && fits(height)
    &&& fits(x + c.border_width) && fits(y + c.border_width)
    &&& fits(width - 2 * c.border_width) && fits(height - 2 * c.border_width)
}

impl BoundingConstants {
    /// Computes the two rectangles that produce a border of the constants' width around content.
    pub fn border_rectangles(&self, location: (i32, i32), dimensions: (i32, i32)) -> (r: (
        Rectangle,
        Rectangle,
    ))
        requires
            border_fits(*self, location, dimensions),
        ensures
            r == spec_border_rectangles(*self, location, dimensions),
    {
        let full_padding = self.content_padding * 2;
        let full_border = self.border_width * 2;
        let bounding_width = dimensions.0 + full_padding;
        let bounding_height = dimensions.1 + full_padding;
        let inner_width = bounding_width - full_border;
        let inner_height = bounding_height - full_border;
        let x = location.0 - self.content_padding;
        let y = location.1 - self.content_padding;
        (
            Rectangle { left: x, top: y, width: bounding_width, height: bounding_height },
            Rectangle {
                left: x + self.border_width,
                top: y + self.border_width,
                width: inner_width,
                height: inner_height,
            },
        )
    }
}

} // verus!
