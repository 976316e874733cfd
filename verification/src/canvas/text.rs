//! Text to lay over a frame.

use vstd::prelude::*;

use crate::primitive::{
    Font, HorizontalAlignment, Position, Primitive, PrimitiveView, Rectangle, Rgba,
    VerticalAlignment, INFINITY,
};

verus! {

/// A bunch of text that can be drawn to a frame.
#[derive(Debug)]
pub struct Text {
    /// The contents of the text
    pub content: String,
    /// The position where to begin drawing the text (top-left corner
    /// coordinates), in the coordinate system of the frame.
    pub position: iced_native::Point,
    /// The color of the text
    pub color: Rgba,
    /// The size of the text, as the bit pattern of a single-precision
    /// number
    pub size: u32,
    /// The font of the text
    pub font: Font,
    /// The horizontal alignment of the text
    pub horizontal_alignment: HorizontalAlignment,
    /// The vertical alignment of the text
    pub vertical_alignment: VerticalAlignment,
}

impl Text {
    /// The text primitive that draws this text from `anchor` on: its bounds
    /// begin there and are infinitely wide and high, and all else is as the
    /// text has it.
    pub open spec fn placed(self, anchor: Position) -> PrimitiveView {
        PrimitiveView::Text {
            content: self.content@,
            bounds: Rectangle { x: anchor.x, y: anchor.y, width: INFINITY, height: INFINITY },
            color: self.color,
            size: self.size,
            font: self.font,
            horizontal_alignment: self.horizontal_alignment,
            vertical_alignment: self.vertical_alignment,
        }
    }

    /// Turns the text into the primitive that draws it from `anchor` on.
    ///
    /// The bounds of the primitive do not end: to clip or to wrap the text
    /// is left to whoever lays it out.
    pub fn into_primitive(self, anchor: Position) -> (primitive: Primitive)
        ensures
            primitive@ == self.placed(anchor),
    {
        Primitive::Text {
            content: self.content,
            bounds: Rectangle { x: anchor.x, y: anchor.y, width: INFINITY, height: INFINITY },
            color: self.color,
            size: self.size,
            font: self.font,
            horizontal_alignment: self.horizontal_alignment,
            vertical_alignment: self.vertical_alignment,
        }
    }
}

} // verus!
