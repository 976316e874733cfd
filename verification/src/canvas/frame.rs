//! The frame of a canvas.

use vstd::prelude::*;

use crate::canvas::style::{Fill, Stroke, TessellationFailure};
use crate::canvas::text::Text;
use crate::canvas::transform::{
    lemma_restore_undoes_scoped_changes, Transforms, TransformsView,
};
use crate::native::{
    coordinates, empty_buffers, fill_gives, into_linear, into_linear_gives, is_identity_matrix,
    negated, point_bits, pre_rotate_gives, pre_scale_gives, pre_translate_gives, stroke_gives,
    tessellate_fill, tessellate_stroke, transform_point, transform_point_gives, transformed,
    transformed_gives,
};
use crate::primitive::{lemma_group_view, Position, Primitive, PrimitiveView};
use crate::triangle::{
    added_positions, added_triangles, well_formed, Mesh2D, Vertex2D, LIMIT,
};

verus! {

/// The width and the height of a frame, as the bit patterns of two
/// single-precision numbers.
#[derive(Clone, Copy, Debug, PartialEq, Eq, Structural)]
pub struct Size {
    /// The width.
    pub width: u32,
    /// The height.
    pub height: u32,
}

/// What a [`Frame`] holds.
pub ghost struct FrameView {
    /// The bit pattern of the width.
    pub width: u32,
    /// The bit pattern of the height.
    pub height: u32,
    /// The vertices of everything filled and stroked so far.
    pub vertices: Seq<Vertex2D>,
    /// The triangles over `vertices`, three indices each.
    pub indices: Seq<u32>,
    /// The text primitives queued so far, in the order of the calls.
    pub texts: Seq<PrimitiveView>,
    /// The transform in force and the saved ones.
    pub transforms: TransformsView,
}

impl FrameView {
    /// Whether the frame is one that drawing can have made: its indices
    /// describe whole triangles over its vertices, and what it has queued
    /// is text.
    pub open spec fn well_formed(self) -> bool {
        &&& well_formed(self.vertices, self.indices)
        &&& forall|i: int| 0 <= i < self.texts.len() ==> (#[trigger] self.texts[i]) is Text
    }

    /// Whether the mesh holds no more vertices and no more indices than an
    /// index can count, so that more can be drawn into it.
    pub open spec fn has_room(self) -> bool {
        self.vertices.len() <= LIMIT && self.indices.len() <= LIMIT
    }

    /// The mesh primitive of the frame: one where a triangle has been
    /// drawn, none otherwise.
    pub open spec fn mesh(self) -> Seq<PrimitiveView> {
        if self.indices.len() > 0 {
            seq![
                PrimitiveView::Mesh2D {
                    origin: Position::spec_origin(),
                    vertices: self.vertices,
                    indices: self.indices,
                },
            ]
        } else {
            Seq::empty()
        }
    }

    /// Whether the frame is `before` with more geometry in its mesh and
    /// all else as it was: what `before` held stays in front, the new
    /// indices come in threes and name new vertices only, and the new
    /// vertices have one color.
    pub open spec fn draws_over(self, before: FrameView) -> bool {
        &&& self.width == before.width
        &&& self.height == before.height
        &&& self.texts == before.texts
        &&& self.transforms == before.transforms
        &&& before.vertices.is_prefix_of(self.vertices)
        &&& before.indices.is_prefix_of(self.indices)
        &&& (self.indices.len() - before.indices.len()) % 3 == 0
        &&& forall|i: int|
            before.indices.len() <= i < self.indices.len() ==> before.vertices.len() <= (
            #[trigger] self.indices[i]) < self.vertices.len()
        &&& forall|i: int, j: int|
            before.vertices.len() <= i < self.vertices.len() && before.vertices.len() <= j
                < self.vertices.len() ==> (#[trigger] self.vertices[i]).color == (
            #[trigger] self.vertices[j]).color
    }

    /// Whether `handed` is a path that can be tessellated when `path` is
    /// drawn: `path` itself under a transform that counts as the identity,
    /// and else an image of it under the matrix in force.
    pub open spec fn hands(self, path: lyon::path::Path, handed: lyon::path::Path) -> bool {
        if self.transforms.current.is_identity {
            handed == path
        } else {
            transformed_gives(path, self.transforms.current.raw, handed)
        }
    }

    /// Whether text that is to stand at `position` can be anchored at
    /// `anchor`: it is `position` itself under a transform that counts as
    /// the identity, and else an image of it under the matrix in force.
    pub open spec fn anchors(self, position: iced_native::Point, anchor: Position) -> bool {
        if self.transforms.current.is_identity {
            anchor == (Position { x: point_bits(position).0, y: point_bits(position).1 })
        } else {
            exists|image: iced_native::Point| #[trigger]
                transform_point_gives(self.transforms.current.raw, position, image) && anchor == (
                Position { x: point_bits(image).0, y: point_bits(image).1 })
        }
    }

    /// The geometry that the mesh holds behind that of `before`: the
    /// positions of the new vertices, and the new indices counted from the
    /// first new vertex.
    pub open spec fn geometry_over(self, before: FrameView) -> (Seq<(u32, u32)>, Seq<u32>) {
        (
            added_positions(before.vertices, self.vertices),
            added_triangles(before.indices, self.indices, before.vertices.len()),
        )
    }

    /// Whether the new vertices have a color that the linear color of
    /// `color` can be.
    pub open spec fn colors_over(self, before: FrameView, color: iced_native::Color) -> bool {
        forall|i: int|
            before.vertices.len() <= i < self.vertices.len() ==> into_linear_gives(
                color,
                (#[trigger] self.vertices[i]).color,
            )
    }

    /// Whether the fill tessellator can deal in the way of `outcome` with
    /// what it is handed when `path` is filled on this frame.
    pub open spec fn fill_can_give(
        self,
        path: lyon::path::Path,
        outcome: Option<
            Result<(Seq<(u32, u32)>, Seq<u32>), lyon::tessellation::TessellationError>,
        >,
    ) -> bool {
        exists|handed: lyon::path::Path|
            self.hands(path, handed) && #[trigger] fill_gives(
                handed,
                self.vertices.len(),
                self.indices.len(),
                outcome,
            )
    }

    /// Whether the stroke tessellator can deal in the way of `outcome` with
    /// what it is handed when `path` is stroked on this frame: the width
    /// and the join are those of the stroke, and its cap is the cap at both
    /// ends.
    pub open spec fn stroke_can_give(
        self,
        path: lyon::path::Path,
        stroke: Stroke,
        outcome: Option<
            Result<(Seq<(u32, u32)>, Seq<u32>), lyon::tessellation::TessellationError>,
        >,
    ) -> bool {
        exists|handed: lyon::path::Path|
            self.hands(path, handed) && #[trigger] stroke_gives(
                handed,
                stroke.width,
                stroke.line_cap.tessellator_cap(),
                stroke.line_cap.tessellator_cap(),
                stroke.line_join.tessellator_join(),
                self.vertices.len(),
                self.indices.len(),
                outcome,
            )
    }

    /// Whether the fill tessellator comes back with geometry, whatever it
    /// does with what it is handed when `path` is filled on this frame.
    pub open spec fn fill_draws(self, path: lyon::path::Path) -> bool {
        forall|
            outcome: Option<
                Result<(Seq<(u32, u32)>, Seq<u32>), lyon::tessellation::TessellationError>,
            >,
        | #[trigger]
            self.fill_can_give(path, outcome) ==> outcome matches Some(Ok(_))
    }

    /// Whether the stroke tessellator comes back with geometry, whatever it
    /// does with what it is handed when `path` is stroked on this frame.
    pub open spec fn stroke_draws(self, path: lyon::path::Path, stroke: Stroke) -> bool {
        forall|
            outcome: Option<
                Result<(Seq<(u32, u32)>, Seq<u32>), lyon::tessellation::TessellationError>,
            >,
        | #[trigger]
            self.stroke_can_give(path, stroke, outcome) ==> outcome matches Some(Ok(_))
    }

    /// Whether the frame and `result` are what filling `path` can leave of
    /// `before`. A frame without room refuses and stays as it was. Geometry
    /// that the tessellator comes back with stands behind what the mesh
    /// held, in the linear color of the fill. An error that it comes back
    /// with is returned, and the frame stays as it was.
    pub open spec fn filled(
        self,
        before: FrameView,
        path: lyon::path::Path,
        fill: Fill,
        result: Result<(), TessellationFailure>,
    ) -> bool {
        if !before.has_room() {
            result == Err::<(), TessellationFailure>(TessellationFailure::TooManyVertices) && self
                == before
        } else {
            match result {
                Ok(_) => {
                    &&& before.fill_can_give(path, Some(Ok(self.geometry_over(before))))
                    &&& self.colors_over(before, fill->Color_0)
                    &&& self.draws_over(before)
                },
                Err(failure) => {
                    &&& self == before
                    &&& exists|error: lyon::tessellation::TessellationError| #[trigger]
                        before.fill_can_give(path, Some(Err(error))) && failure
                            == TessellationFailure::of(error)
                },
            }
        }
    }

    /// Whether the frame and `result` are what stroking `path` can leave of
    /// `before`: as for a fill, with the color, the width, the cap and the
    /// join of the stroke.
    pub open spec fn stroked(
        self,
        before: FrameView,
        path: lyon::path::Path,
        stroke: Stroke,
        result: Result<(), TessellationFailure>,
    ) -> bool {
        if !before.has_room() {
            result == Err::<(), TessellationFailure>(TessellationFailure::TooManyVertices) && self
                == before
        } else {
            match result {
                Ok(_) => {
                    &&& before.stroke_can_give(path, stroke, Some(Ok(self.geometry_over(before))))
                    &&& self.colors_over(before, stroke.color)
                    &&& self.draws_over(before)
                },
                Err(failure) => {
                    &&& self == before
                    &&& exists|error: lyon::tessellation::TessellationError| #[trigger]
                        before.stroke_can_give(path, stroke, Some(Err(error))) && failure
                            == TessellationFailure::of(error)
                },
            }
        }
    }

    /// The frame with `transforms` in place of its own.
    pub open spec fn with_transforms(self, transforms: TransformsView) -> FrameView {
        FrameView { transforms, ..self }
    }

    /// The frame with one more text primitive queued.
    pub open spec fn with_text(self, text: PrimitiveView) -> FrameView {
        FrameView { texts: self.texts.push(text), ..self }
    }
}

/// Drawing geometry over a well-formed frame gives a well-formed frame.
pub proof fn lemma_drawing_keeps_well_formed(before: FrameView, after: FrameView)
    requires
        before.well_formed(),
        after.draws_over(before),
    ensures
        after.well_formed(),
{
    assert forall|i: int| 0 <= i < after.indices.len() implies (#[trigger] after.indices[i])
        < after.vertices.len() by {
        if i < before.indices.len() {
            assert(after.indices[i] == before.indices[i]);
        }
    }
}

/// The mesh of a well-formed frame is made of whole triangles over its own
/// vertices: its indices come in threes, and each is below the number of
/// vertices.
pub proof fn lemma_mesh_is_whole_triangles(frame: FrameView)
    requires
        frame.well_formed(),
    ensures
        forall|i: int|
            0 <= i < frame.mesh().len() ==> {
                &&& #[trigger] frame.mesh()[i] is Mesh2D
                &&& frame.mesh()[i]->Mesh2D_indices.len() % 3 == 0
                &&& forall|k: int|
                    0 <= k < frame.mesh()[i]->Mesh2D_indices.len() ==> (
                    #[trigger] frame.mesh()[i]->Mesh2D_indices[k])
                        < frame.mesh()[i]->Mesh2D_vertices.len()
            },
{
}

/// In what a well-formed frame becomes, there is at most one mesh, it comes
/// first, and all that follows is text in the order in which it was drawn.
pub proof fn lemma_mesh_precedes_text(frame: FrameView)
    requires
        frame.well_formed(),
    ensures
        frame.mesh().len() <= 1,
        forall|i: int|
            0 <= i < frame.mesh().len() ==> #[trigger] (frame.mesh() + frame.texts)[i] is Mesh2D,
        forall|i: int|
            0 <= i < frame.texts.len() ==> {
                &&& #[trigger] (frame.mesh() + frame.texts)[frame.mesh().len() + i] is Text
                &&& (frame.mesh() + frame.texts)[frame.mesh().len() + i] == frame.texts[i]
            },
{
}

/// A frame on which no triangle and no text has been drawn becomes a group
/// of nothing.
pub proof fn lemma_blank_frame_is_empty_group(frame: FrameView)
    requires
        frame.indices.len() == 0,
        frame.texts.len() == 0,
    ensures
        frame.mesh() + frame.texts == Seq::<PrimitiveView>::empty(),
{
    assert(frame.mesh() + frame.texts =~= Seq::<PrimitiveView>::empty());
}

/// The frame of a canvas.
#[derive(Debug)]
pub struct Frame {
    width: u32,
    height: u32,
    buffers: lyon::tessellation::VertexBuffers<Vertex2D, u32>,
    primitives: Vec<Primitive>,
    transforms: Transforms,
}

impl View for Frame {
    type V = FrameView;

    closed spec fn view(&self) -> FrameView {
        FrameView {
            width: self.width,
            height: self.height,
            vertices: self.buffers.vertices@,
            indices: self.buffers.indices@,
            texts: Seq::new(self.primitives@.len(), |i: int| self.primitives@[i]@),
            transforms: self.transforms@,
        }
    }
}

impl Frame {
    /// Creates a new empty frame with the given dimensions.
    ///
    /// The default coordinate system of a frame has its origin at the
    /// top-left corner of its bounds. The dimensions are taken as they
    /// are.
    pub fn new(width: u32, height: u32) -> (frame: Frame)
        ensures
            frame@.well_formed(),
            frame@.width == width,
            frame@.height == height,
            frame@.vertices.len() == 0,
            frame@.indices.len() == 0,
            frame@.texts.len() == 0,
            frame@.transforms.current.is_identity,
            is_identity_matrix(frame@.transforms.current.raw),
            frame@.transforms.depth() == 0,
    {
        Frame {
            width,
            height,
            buffers: empty_buffers(),
            primitives: Vec::new(),
            transforms: Transforms::new(),
        }
    }

    /// Returns the width of the frame.
    pub fn width(&self) -> (width: u32)
        ensures
            width == self@.width,
    {
        self.width
    }

    /// Returns the height of the frame.
    pub fn height(&self) -> (height: u32)
        ensures
            height == self@.height,
    {
        self.height
    }

    /// Returns the dimensions of the frame.
    pub fn size(&self) -> (size: Size)
        ensures
            size == (Size { width: self@.width, height: self@.height }),
    {
        Size { width: self.width, height: self.height }
    }

    /// Applies a translation to the current transform of the frame.
    pub fn translate(&mut self, translation: iced_native::Vector)
        ensures
            final(self)@ == old(self)@.with_transforms(
                old(self)@.transforms.with_matrix(final(self)@.transforms.current.raw),
            ),
            pre_translate_gives(
                old(self)@.transforms.current.raw,
                translation,
                final(self)@.transforms.current.raw,
            ),
            old(self)@.well_formed() ==> final(self)@.well_formed(),
    {
        self.transforms.translate(translation);
    }

    /// Applies a rotation to the current transform of the frame.
    pub fn rotate(&mut self, angle: lyon::math::Angle)
        ensures
            final(self)@ == old(self)@.with_transforms(
                old(self)@.transforms.with_matrix(final(self)@.transforms.current.raw),
            ),
            pre_rotate_gives(
                old(self)@.transforms.current.raw,
                negated(angle),
                final(self)@.transforms.current.raw,
            ),
            old(self)@.well_formed() ==> final(self)@.well_formed(),
    {
        self.transforms.rotate(angle);
    }

    /// Applies a scaling to the current transform of the frame.
    pub fn scale(&mut self, scale: lyon::math::Scale)
        ensures
            final(self)@ == old(self)@.with_transforms(
                old(self)@.transforms.with_matrix(final(self)@.transforms.current.raw),
            ),
            pre_scale_gives(
                old(self)@.transforms.current.raw,
                scale,
                final(self)@.transforms.current.raw,
            ),
            old(self)@.well_formed() ==> final(self)@.well_formed(),
    {
        self.transforms.scale(scale);
    }

    /// Draws the given path on the frame by filling it with the provided
    /// style.
    ///
    /// The path is tessellated at once, under the transform in force, into
    /// the one mesh of the frame; the color of the new vertices is the fill
    /// color in linear space.
    ///
    /// The frame has to have room for it and the tessellator has to come
    /// back with geometry: to fill a path that it rejects is an error of
    /// the caller. [`Frame::try_fill`] tells instead.
    pub fn fill(&mut self, path: &lyon::path::Path, fill: Fill)
        requires
            old(self)@.has_room(),
            old(self)@.fill_draws(*path),
        ensures
            old(self)@.fill_can_give(*path, Some(Ok(final(self)@.geometry_over(old(self)@)))),
            final(self)@.colors_over(old(self)@, fill->Color_0),
            final(self)@.draws_over(old(self)@),
            old(self)@.well_formed() ==> final(self)@.well_formed(),
    {
        let _ = self.try_fill(path, fill);
    }

    /// Draws the given path on the frame as [`Frame::fill`] does, where the
    /// frame has room for it and the tessellator accepts it; else the frame
    /// is left as it was and the failure is returned.
    ///
    /// The tessellator has to come back from the path: built with its
    /// assertions, it stops the program on some paths whose geometry it
    /// cannot make sense of.
    pub fn try_fill(&mut self, path: &lyon::path::Path, fill: Fill) -> (result: Result<
        (),
        TessellationFailure,
    >)
        requires
            old(self)@.has_room() ==> !old(self)@.fill_can_give(*path, None),
        ensures
            final(self)@.filled(old(self)@, *path, fill, result),
            final(self)@.draws_over(old(self)@),
            old(self)@.well_formed() ==> final(self)@.well_formed(),
    {
        if self.buffers.vertices.len() > LIMIT || self.buffers.indices.len() > LIMIT {
            return Err(TessellationFailure::TooManyVertices);
        }
        let color = match fill {
            Fill::Color(color) => into_linear(color),
        };
        let current = self.transforms.current();
        let image = if current.is_identity {
            None
        } else {
            Some(transformed(path, &current.raw))
        };
        let handed = match &image {
            Some(image) => image,
            None => path,
        };
        proof {
            assert(old(self)@.hands(*path, *handed));
            if fill_gives(*handed, old(self)@.vertices.len(), old(self)@.indices.len(), None) {
                assert(old(self)@.fill_can_give(*path, None));
            }
        }
        let result = tessellate_fill(handed, color, &mut self.buffers);
        proof {
            if old(self)@.well_formed() {
                lemma_drawing_keeps_well_formed(old(self)@, self@);
            }
        }
        match result {
            Ok(_) => {
                proof {
                    assert(fill_gives(
                        *handed,
                        old(self)@.vertices.len(),
                        old(self)@.indices.len(),
                        Some(Ok(self@.geometry_over(old(self)@))),
                    ));
                    assert(old(self)@.fill_can_give(
                        *path,
                        Some(Ok(self@.geometry_over(old(self)@))),
                    ));
                }
                Ok(())
            },
            Err(error) => {
                proof {
                    assert(fill_gives(
                        *handed,
                        old(self)@.vertices.len(),
                        old(self)@.indices.len(),
                        Some(Err(error)),
                    ));
                    assert(old(self)@.fill_can_give(*path, Some(Err(error))));
                }
                Err(TessellationFailure::from_tessellator(error))
            },
        }
    }

    /// Draws the stroke of the given path on the frame with the provided
    /// style.
    ///
    /// The outline is tessellated at once, under the transform in force,
    /// into the one mesh of the frame, with the width and the join of the
    /// style and its cap at both ends; the color of the new vertices is the
    /// stroke color in linear space.
    ///
    /// The frame has to have room for it and the tessellator has to come
    /// back with geometry: to stroke a path that it rejects is an error of
    /// the caller. [`Frame::try_stroke`] tells instead.
    pub fn stroke(&mut self, path: &lyon::path::Path, stroke: Stroke)
        requires
            old(self)@.has_room(),
            old(self)@.stroke_draws(*path, stroke),
        ensures
            old(self)@.stroke_can_give(
                *path,
                stroke,
                Some(Ok(final(self)@.geometry_over(old(self)@))),
            ),
            final(self)@.colors_over(old(self)@, stroke.color),
            final(self)@.draws_over(old(self)@),
            old(self)@.well_formed() ==> final(self)@.well_formed(),
    {
        let _ = self.try_stroke(path, stroke);
    }

    /// Draws the stroke of the given path on the frame as [`Frame::stroke`]
    /// does, where the frame has room for it and the tessellator accepts
    /// the path; else the frame is left as it was and the failure is
    /// returned.
    ///
    /// The tessellator has to come back from the path, as for
    /// [`Frame::try_fill`].
    pub fn try_stroke(&mut self, path: &lyon::path::Path, stroke: Stroke) -> (result: Result<
        (),
        TessellationFailure,
    >)
        requires
            old(self)@.has_room() ==> !old(self)@.stroke_can_give(*path, stroke, None),
        ensures
            final(self)@.stroked(old(self)@, *path, stroke, result),
            final(self)@.draws_over(old(self)@),
            old(self)@.well_formed() ==> final(self)@.well_formed(),
    {
        if self.buffers.vertices.len() > LIMIT || self.buffers.indices.len() > LIMIT {
            return Err(TessellationFailure::TooManyVertices);
        }
        let color = into_linear(stroke.color);
        let cap = stroke.line_cap.into_tessellator();
        let join = stroke.line_join.into_tessellator();
        let current = self.transforms.current();
        let image = if current.is_identity {
            None
        } else {
            Some(transformed(path, &current.raw))
        };
        let handed = match &image {
            Some(image) => image,
            None => path,
        };
        proof {
            assert(old(self)@.hands(*path, *handed));
            if stroke_gives(
                *handed,
                stroke.width,
                cap,
                cap,
                join,
                old(self)@.vertices.len(),
                old(self)@.indices.len(),
                None,
            ) {
                assert(old(self)@.stroke_can_give(*path, stroke, None));
            }
        }
        let result = tessellate_stroke(
            handed,
            stroke.width,
            cap,
            cap,
            join,
            color,
            &mut self.buffers,
        );
        proof {
            if old(self)@.well_formed() {
                lemma_drawing_keeps_well_formed(old(self)@, self@);
            }
        }
        match result {
            Ok(_) => {
                proof {
                    assert(stroke_gives(
                        *handed,
                        stroke.width,
                        cap,
                        cap,
                        join,
                        old(self)@.vertices.len(),
                        old(self)@.indices.len(),
                        Some(Ok(self@.geometry_over(old(self)@))),
                    ));
                    assert(old(self)@.stroke_can_give(
                        *path,
                        stroke,
                        Some(Ok(self@.geometry_over(old(self)@))),
                    ));
                }
                Ok(())
            },
            Err(error) => {
                proof {
                    assert(stroke_gives(
                        *handed,
                        stroke.width,
                        cap,
                        cap,
                        join,
                        old(self)@.vertices.len(),
                        old(self)@.indices.len(),
                        Some(Err(error)),
                    ));
                    assert(old(self)@.stroke_can_give(*path, stroke, Some(Err(error))));
                }
                Err(TessellationFailure::from_tessellator(error))
            },
        }
    }

    /// Draws the characters of the given text on the frame, filling them
    /// with the given color.
    ///
    /// Nothing is tessellated: a text primitive is queued behind those
    /// queued before. Its bounds begin at the position of the text, taken
    /// through the transform in force unless that is the identity, and do
    /// not end.
    ///
    /// __Warning:__ Text currently does not work well with rotations and
    /// scale transforms! The position will be correctly transformed, but
    /// the resulting glyphs will not be rotated or scaled properly.
    ///
    /// Additionally, all text will be rendered on top of all the layers of
    /// a canvas. Therefore, it is currently only meant to be used for
    /// overlays, which is the most common use case.
    pub fn fill_text(&mut self, text: Text)
        ensures
            final(self)@ == old(self)@.with_text(
                text.placed(final(self)@.texts.last().anchor()),
            ),
            old(self)@.anchors(text.position, final(self)@.texts.last().anchor()),
            old(self)@.well_formed() ==> final(self)@.well_formed(),
    {
        let current = self.transforms.current();
        let position = if current.is_identity {
            text.position
        } else {
            transform_point(&current.raw, text.position)
        };
        let (x, y) = coordinates(position);
        let primitive = text.into_primitive(Position { x, y });
        self.primitives.push(primitive);
        proof {
            assert(final(self)@.texts =~= old(self)@.texts.push(primitive@));
        }
    }

    /// Stores the current transform of the frame and executes the given
    /// drawing operations, restoring the transform afterwards.
    ///
    /// This method is useful to compose transforms and perform drawing
    /// operations in different coordinate systems. What `f` draws stays;
    /// what it does to the transform in force is undone. `f` has to leave
    /// the saved transforms as it finds them.
    pub fn with_save<F: FnOnce(&mut Frame)>(&mut self, f: F)
        requires
            forall|frame: &mut Frame|
                frame@ == old(self)@.with_transforms(old(self)@.transforms.save())
                    ==> #[trigger] call_requires(f, (frame,)),
            forall|frame: &mut Frame| #[trigger]
                call_ensures(f, (frame,), ()) ==> final(frame)@.transforms.saved
                    == frame@.transforms.saved,
        ensures
            final(self)@.transforms == old(self)@.transforms,
            exists|frame: &mut Frame|
                frame@ == old(self)@.with_transforms(old(self)@.transforms.save())
                    && #[trigger] call_ensures(f, (frame,), ())
                    && final(self)@ == final(frame)@.with_transforms(old(self)@.transforms),
            (forall|frame: &mut Frame| #[trigger]
                call_ensures(f, (frame,), ()) ==> final(frame)@.well_formed())
                ==> final(self)@.well_formed(),
    {
        self.transforms.save();
        f(self);
        proof {
            lemma_restore_undoes_scoped_changes(old(self)@.transforms, self@.transforms);
        }
        self.transforms.restore();
    }

    /// Produces the primitive representing everything drawn on the frame:
    /// a group of the mesh, if a triangle has been drawn, and then of the
    /// texts in the order in which they were drawn.
    pub fn into_primitive(self) -> (primitive: Primitive)
        ensures
            primitive@ == (PrimitiveView::Group { primitives: self@.mesh() + self@.texts }),
    {
        let ghost view = self@;
        let Frame { buffers, primitives, .. } = self;
        let mut primitives = primitives;
        let mut all: Vec<Primitive> = Vec::new();
        if buffers.indices.len() > 0 {
            all.push(
                Primitive::Mesh2D {
                    origin: Position::origin(),
                    buffers: Mesh2D { vertices: buffers.vertices, indices: buffers.indices },
                },
            );
        }
        all.append(&mut primitives);
        proof {
            lemma_group_view(all);
            assert((Primitive::Group { primitives: all })@->Group_primitives =~= view.mesh()
                + view.texts);
        }
        Primitive::Group { primitives: all }
    }
}

} // verus!
