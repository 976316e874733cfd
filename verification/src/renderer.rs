//! The renderer: what is painted for a tree of primitives, and in what
//! order.

use vstd::prelude::*;

use crate::primitive::{
    lemma_group_view, Background, Primitive, PrimitiveView, Rectangle, Rgba,
};

verus! {

/// One rectangle to paint in one color.
#[derive(Clone, Copy, Debug, PartialEq, Eq, Structural)]
pub struct Paint {
    /// The rectangle that the paint is about.
    pub bounds: Rectangle,
    /// How far the painted area reaches beyond `bounds` on each of the four
    /// sides, in units of the target.
    pub outset: u16,
    /// The color to paint with.
    pub color: Rgba,
}

/// What is painted for a quad: its bounds in the color of the background,
/// and before them, where the border has a width, the bounds grown by that
/// width in the color of the border.
pub open spec fn quad_paints(
    bounds: Rectangle,
    background: Background,
    border_width: u16,
    border_color: Rgba,
) -> Seq<Paint> {
    let inner = Paint { bounds, outset: 0, color: background->Color_0 };
    if border_width > 0 {
        seq![Paint { bounds, outset: border_width, color: border_color }, inner]
    } else {
        seq![inner]
    }
}

/// What is painted for a primitive, in the order of painting: the quads of
/// the tree from first to last, a group standing for its members. Text and
/// meshes are not painted by this renderer.
pub open spec fn paints(primitive: PrimitiveView) -> Seq<Paint>
    decreases primitive, 0nat,
{
    match primitive {
        PrimitiveView::Group { primitives } => paints_of(primitives, primitives.len()),
        PrimitiveView::Quad { bounds, background, border_width, border_color } => quad_paints(
            bounds,
            background,
            border_width,
            border_color,
        ),
        _ => Seq::empty(),
    }
}

/// What is painted for the first `n` of `primitives`, one after the other.
pub open spec fn paints_of(primitives: Seq<PrimitiveView>, n: nat) -> Seq<Paint>
    decreases primitives, n,
{
    if n == 0 || n > primitives.len() {
        Seq::empty()
    } else {
        paints_of(primitives, (n - 1) as nat) + paints(primitives[n - 1])
    }
}

/// A `quicksilver` renderer for `iced`.
#[derive(Debug)]
pub struct Renderer {}

impl Renderer {
    /// Creates a new renderer.
    pub fn new() -> (renderer: Renderer)
        ensures
            renderer == (Renderer {  }),
    {
        Renderer {  }
    }

    /// Lists what is to be painted for the provided primitive, in the order
    /// of painting, and hands back the mouse cursor that came with it.
    pub fn draw(&mut self, output: &(Primitive, iced_native::MouseCursor)) -> (drawn: (
        Vec<Paint>,
        iced_native::MouseCursor,
    ))
        ensures
            drawn.0@ == paints(output.0@),
            drawn.1 == output.1,
            *final(self) == *old(self),
    {
        let mut list: Vec<Paint> = Vec::new();
        self.draw_primitive(&mut list, &output.0);
        (list, output.1)
    }

    /// Adds to `list` what is to be painted for `primitive`.
    fn draw_primitive(&mut self, list: &mut Vec<Paint>, primitive: &Primitive)
        ensures
            final(list)@ == old(list)@ + paints(primitive@),
            *final(self) == *old(self),
        decreases primitive,
    {
        match primitive {
            Primitive::Group { primitives } => {
                let ghost members = primitive@->Group_primitives;
                proof {
                    lemma_group_view(*primitives);
                }
                let mut i: usize = 0;
                while i < primitives.len()
                    invariant
                        primitive->Group_primitives == *primitives,
                        primitive is Group,
                        i <= primitives@.len(),
                        members.len() == primitives@.len(),
                        forall|k: int|
                            0 <= k < primitives@.len() ==> #[trigger] members[k] == primitives@[k]@,
                        list@ == old(list)@ + paints_of(members, i as nat),
                        *self == *old(self),
                    decreases primitives@.len() - i,
                {
                    proof {
                        assert(decreases_to!(primitive => primitive->Group_primitives));
                        assert(decreases_to!(primitives => primitives[i as int]));
                    }
                    self.draw_primitive(list, &primitives[i]);
                    i += 1;
                    proof {
                        assert(list@ =~= old(list)@ + paints_of(members, i as nat));
                    }
                }
            },
            Primitive::Quad { bounds, background, border_width, border_color } => {
                if *border_width > 0 {
                    list.push(Paint { bounds: *bounds, outset: *border_width, color: *border_color });
                }
                let background_color = match background {
                    Background::Color(color) => *color,
                };
                list.push(Paint { bounds: *bounds, outset: 0, color: background_color });
                proof {
                    assert(list@ =~= old(list)@ + paints(primitive@));
                }
            },
            _ => {
                proof {
                    assert(list@ =~= old(list)@ + paints(primitive@));
                }
            },
        }
    }
}

} // verus!
