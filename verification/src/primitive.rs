//! The tree of drawing primitives that a renderer consumes.
//!
//! Every number in it, but for the width of a border and the indices of a
//! mesh, is the bit pattern of a single-precision value.

use vstd::prelude::*;

use crate::triangle::{Mesh2D, Vertex2D};

verus! {

/// The bit pattern of positive infinity.
pub const INFINITY: u32 = 0x7f80_0000;

/// A point, as the bit patterns of its two coordinates.
#[derive(Clone, Copy, Debug, PartialEq, Eq, Structural)]
pub struct Position {
    /// The X coordinate.
    pub x: u32,
    /// The Y coordinate.
    pub y: u32,
}

impl Position {
    /// The origin, `(0.0, 0.0)`.
    pub open spec fn spec_origin() -> Position {
        Position { x: 0, y: 0 }
    }

    /// The origin, `(0.0, 0.0)`.
    #[verifier::when_used_as_spec(spec_origin)]
    pub fn origin() -> (origin: Position)
        ensures
            origin == Position::spec_origin(),
    {
        Position { x: 0, y: 0 }
    }
}

/// A rectangle, as the bit patterns of its four numbers.
#[derive(Clone, Copy, Debug, PartialEq, Eq, Structural)]
pub struct Rectangle {
    /// X coordinate of the top-left corner.
    pub x: u32,
    /// Y coordinate of the top-left corner.
    pub y: u32,
    /// Width of the rectangle.
    pub width: u32,
    /// Height of the rectangle.
    pub height: u32,
}

/// A color in the sRGB color space, as the bit patterns of its four
/// components.
#[derive(Clone, Copy, Debug, PartialEq, Eq, Structural)]
pub struct Rgba {
    /// Red.
    pub r: u32,
    /// Green.
    pub g: u32,
    /// Blue.
    pub b: u32,
    /// Alpha.
    pub a: u32,
}

/// The background of some element.
#[derive(Clone, Copy, Debug, PartialEq, Eq, Structural)]
pub enum Background {
    /// A solid color.
    Color(Rgba),
}

/// A font.
#[derive(Clone, Copy, Debug, PartialEq, Eq)]
pub enum Font {
    /// The default font.
    Default,
    /// An external font.
    External {
        /// The name of the external font
        name: &'static str,
        /// The bytes of the external font
        bytes: &'static [u8],
    },
}

/// The horizontal alignment of some resource.
#[derive(Clone, Copy, Debug, PartialEq, Eq, Structural)]
pub enum HorizontalAlignment {
    /// Align left
    Left,
    /// Horizontally centered
    Center,
    /// Align right
    Right,
}

/// The vertical alignment of some resource.
#[derive(Clone, Copy, Debug, PartialEq, Eq, Structural)]
pub enum VerticalAlignment {
    /// Align top
    Top,
    /// Vertically centered
    Center,
    /// Align bottom
    Bottom,
}

/// A rendering primitive.
#[derive(Debug, PartialEq)]
pub enum Primitive {
    /// An empty primitive
    Empty,
    /// A group of primitives
    Group {
        /// The primitives of the group
        primitives: Vec<Primitive>,
    },
    /// A text primitive
    Text {
        /// The contents of the text
        content: String,
        /// The bounds of the text
        bounds: Rectangle,
        /// The color of the text
        color: Rgba,
        /// The size of the text, as a bit pattern
        size: u32,
        /// The font of the text
        font: Font,
        /// The horizontal alignment of the text
        horizontal_alignment: HorizontalAlignment,
        /// The vertical alignment of the text
        vertical_alignment: VerticalAlignment,
    },
    /// A quad primitive
    Quad {
        /// The bounds of the quad
        bounds: Rectangle,
        /// The background of the quad
        background: Background,
        /// The border width of the quad
        border_width: u16,
        /// The border color of the quad
        border_color: Rgba,
    },
    /// A low-level primitive to render a mesh of triangles.
    Mesh2D {
        /// The top-left coordinate of the mesh
        origin: Position,
        /// The vertex and index buffers of the mesh
        buffers: Mesh2D,
    },
}

/// What a [`Primitive`] is, with sequences in place of vectors and strings.
pub ghost enum PrimitiveView {
    Empty,
    Group { primitives: Seq<PrimitiveView> },
    Text {
        content: Seq<char>,
        bounds: Rectangle,
        color: Rgba,
        size: u32,
        font: Font,
        horizontal_alignment: HorizontalAlignment,
        vertical_alignment: VerticalAlignment,
    },
    Quad { bounds: Rectangle, background: Background, border_width: u16, border_color: Rgba },
    Mesh2D { origin: Position, vertices: Seq<Vertex2D>, indices: Seq<u32> },
}

impl PrimitiveView {
    /// Where the bounds of a text primitive begin; the origin for any
    /// other primitive.
    pub open spec fn anchor(self) -> Position {
        match self {
            PrimitiveView::Text { bounds, .. } => Position { x: bounds.x, y: bounds.y },
            _ => Position::spec_origin(),
        }
    }
}

impl View for Primitive {
    type V = PrimitiveView;

    open spec fn view(&self) -> PrimitiveView {
        view_of(*self)
    }
}

/// What a primitive is, with sequences in place of vectors and strings.
pub open spec fn view_of(primitive: Primitive) -> PrimitiveView
    decreases primitive, 0nat,
{
    match primitive {
        Primitive::Empty => PrimitiveView::Empty,
        Primitive::Group { primitives } => PrimitiveView::Group {
            primitives: views(primitives@, primitives@.len()),
        },
        Primitive::Text {
            content,
            bounds,
            color,
            size,
            font,
            horizontal_alignment,
            vertical_alignment,
        } => PrimitiveView::Text {
            content: content@,
            bounds,
            color,
            size,
            font,
            horizontal_alignment,
            vertical_alignment,
        },
        Primitive::Quad { bounds, background, border_width, border_color } => PrimitiveView::Quad {
            bounds,
            background,
            border_width,
            border_color,
        },
        Primitive::Mesh2D { origin, buffers } => PrimitiveView::Mesh2D {
            origin,
            vertices: buffers.vertices@,
            indices: buffers.indices@,
        },
    }
}

/// What the first `n` of `primitives` are, one for one; nothing where
/// there are fewer than `n`.
pub open spec fn views(primitives: Seq<Primitive>, n: nat) -> Seq<PrimitiveView>
    decreases primitives, n,
{
    if n == 0 || n > primitives.len() {
        Seq::empty()
    } else {
        views(primitives, (n - 1) as nat).push(view_of(primitives[n - 1]))
    }
}

/// The first `n` of `primitives` are seen as `n` views, the view of each
/// in its place.
pub proof fn lemma_views(primitives: Seq<Primitive>, n: nat)
    requires
        n <= primitives.len(),
    ensures
        views(primitives, n).len() == n,
        forall|i: int| 0 <= i < n ==> #[trigger] views(primitives, n)[i] == primitives[i]@,
    decreases n,
{
    if n > 0 {
        lemma_views(primitives, (n - 1) as nat);
    }
}

/// A group is seen as the group of what its members are seen as, one for
/// one.
pub proof fn lemma_group_view(primitives: Vec<Primitive>)
    ensures
        (Primitive::Group { primitives })@ is Group,
        (Primitive::Group { primitives })@->Group_primitives.len() == primitives@.len(),
        forall|i: int|
            0 <= i < primitives@.len() ==> #[trigger] (Primitive::Group {
                primitives,
            })@->Group_primitives[i] == primitives@[i]@,
{
    lemma_views(primitives@, primitives@.len());
}

impl Default for Primitive {
    fn default() -> (primitive: Primitive)
        ensures
            primitive@ == PrimitiveView::Empty,
    {
        Primitive::Empty
    }
}

} // verus!
