use vstd::prelude::*;
use super::fonts::FontSelection;

verus! {

/// A bounding box where everything is optional.
#[derive(Debug, Clone, Copy, PartialEq, Eq)]
pub struct OptionalBoundingBox {
    /// The optional left of this box.
    pub left: Option<i32>,
    /// The optional right of this box.
    pub right: Option<i32>,
    /// The optional top of this box.
    pub top: Option<i32>,
    /// The optional bottom of this box.
    pub bottom: Option<i32>,
}

/// The box with no side set.
pub open spec fn empty_box() -> OptionalBoundingBox {
    OptionalBoundingBox { left: None, right: None, top: None, bottom: None }
}

impl Default for OptionalBoundingBox {
    fn default() -> (b: Self)
        ensures
            b == empty_box(),
    {
        OptionalBoundingBox { left: None, right: None, top: None, bottom: None }
    }
}

/// Wraps a string _and_ a font.
#[derive(Debug, Clone, PartialEq)]
pub struct StylizedMessage<S> {
    /// The text to draw.
    pub message: S,
    /// The font to use.
    pub font: Option<FontSelection>,
    /// The amount of padding, if any.
    pub padding: Option<OptionalBoundingBox>,
    /// The amount of margin, if any.
    pub margin: Option<OptionalBoundingBox>,
    /// The amount of border, if any.
    pub border: Option<OptionalBoundingBox>,
    /// The height, in pixels, at which the font is drawn.
    pub size: Option<u32>,
}

impl<S: View> View for StylizedMessage<S> {
    type V = StylizedMessage<S::V>;

    open spec fn view(&self) -> StylizedMessage<S::V> {
        StylizedMessage {
            message: self.message@,
            font: self.font,
            padding: self.padding,
            margin: self.margin,
            border: self.border,
            size: self.size,
        }
    }
}

/// A message with the default font and no styling.
pub open spec fn plain_message<S>(message: S) -> StylizedMessage<S> {
    StylizedMessage {
        message,
        font: Some(FontSelection::Roboto),
        padding: None,
        margin: None,
        border: None,
        size: None,
    }
}

impl Default for StylizedMessage<String> {
    fn default() -> (m: Self)
        ensures
            m@ == plain_message(Seq::<char>::empty()),
    {
        StylizedMessage {
            message: String::new(),
            font: Some(FontSelection::default()),
            size: None,
            margin: None,
            padding: None,
            border: None,
        }
    }
}

/// Wraps a string that will be rendered as a qr code.
#[derive(Debug, Clone, PartialEq)]
pub struct Scannable<S> {
    /// The thing to make a qr code of.
    pub contents: S,
}

} // verus!
