//! The geometry kernel: the types of `euclid`, `lyon` and `iced_native`
//! that hold single-precision numbers, and the calls that compute with them.
//!
//! Nothing in this module is proved. Each function states about the call it
//! makes what the source of the called crate shows. What a call computes
//! from single-precision numbers is not written out, nor is it taken to be
//! the same from call to call: a relation between the arguments and the
//! result says that the call can give this result for these arguments, and
//! contracts speak of that relation.

use vstd::prelude::*;

use crate::triangle::{added_positions, added_triangles, Vertex2D, LIMIT};

verus! {

/// `euclid::Transform2D`, the matrix behind `lyon::math::Transform`; opaque.
#[verifier::external_type_specification]
#[verifier::external_body]
#[verifier::reject_recursive_types(T)]
#[verifier::reject_recursive_types(Src)]
#[verifier::reject_recursive_types(Dst)]
pub struct ExTransform2D<T, Src, Dst>(lyon::geom::euclid::Transform2D<T, Src, Dst>);

/// `euclid::UnknownUnit`, the unit of the types of `lyon::math`; opaque.
#[verifier::external_type_specification]
#[verifier::external_body]
pub struct ExUnknownUnit(lyon::geom::euclid::UnknownUnit);

/// `euclid::Scale`, the one number behind `lyon::math::Scale`; opaque.
#[verifier::external_type_specification]
#[verifier::external_body]
#[verifier::reject_recursive_types(T)]
#[verifier::reject_recursive_types(Src)]
#[verifier::reject_recursive_types(Dst)]
pub struct ExScale<T, Src, Dst>(lyon::geom::euclid::Scale<T, Src, Dst>);

/// `euclid::Angle`, the angle in radians behind `lyon::math::Angle`;
/// opaque.
#[verifier::external_type_specification]
#[verifier::external_body]
#[verifier::reject_recursive_types(T)]
pub struct ExAngle<T>(lyon::geom::euclid::Angle<T>);

/// `lyon::path::Path`, a path made of lines and curves; opaque.
#[verifier::external_type_specification]
#[verifier::external_body]
pub struct ExPath(lyon::path::Path);

/// `iced_native::Point`; opaque.
#[verifier::external_type_specification]
#[verifier::external_body]
pub struct ExPoint(iced_native::Point);

/// `iced_native::Vector`; opaque.
#[verifier::external_type_specification]
#[verifier::external_body]
#[verifier::reject_recursive_types(T)]
pub struct ExVector<T>(iced_native::Vector<T>);

/// `iced_native::Color`; opaque.
#[verifier::external_type_specification]
#[verifier::external_body]
pub struct ExColor(iced_native::Color);

/// `iced_native::MouseCursor`, with its variants.
#[verifier::external_type_specification]
pub struct ExCursor(iced_native::MouseCursor);

/// `lyon::tessellation::LineCap`, with its variants.
#[verifier::external_type_specification]
pub struct ExLineCap(lyon::tessellation::LineCap);

/// `lyon::tessellation::LineJoin`, with its variants.
#[verifier::external_type_specification]
pub struct ExLineJoin(lyon::tessellation::LineJoin);

/// `lyon::tessellation::InternalError`, with its variants.
#[verifier::external_type_specification]
pub struct ExInternalError(lyon::tessellation::InternalError);

/// `lyon::tessellation::TessellationError`, with its variants.
#[verifier::external_type_specification]
pub struct ExTessellationError(lyon::tessellation::TessellationError);

/// `lyon::tessellation::Count`, the two numbers that a tessellation
/// returns; opaque.
#[verifier::external_type_specification]
#[verifier::external_body]
pub struct ExCount(lyon::tessellation::Count);

/// `lyon::tessellation::VertexBuffers`, with its two public vectors.
#[verifier::external_type_specification]
#[verifier::reject_recursive_types(V)]
#[verifier::reject_recursive_types(I)]
pub struct ExVertexBuffers<V, I>(lyon::tessellation::VertexBuffers<V, I>);

/// The bit patterns of the two coordinates of a point, `(x, y)`.
pub uninterp spec fn point_bits(point: iced_native::Point) -> (u32, u32);

/// Whether a matrix is the one that `Transform2D::identity` returns.
pub uninterp spec fn is_identity_matrix(matrix: lyon::math::Transform) -> bool;

/// What `Neg::neg` of `euclid::Angle` returns for an angle.
pub uninterp spec fn negated(angle: lyon::math::Angle) -> lyon::math::Angle;

/// Whether `Transform2D::pre_translate` can give `product` for a matrix and
/// a vector.
pub uninterp spec fn pre_translate_gives(
    matrix: lyon::math::Transform,
    by: iced_native::Vector,
    product: lyon::math::Transform,
) -> bool;

/// Whether `Transform2D::pre_rotate` can give `product` for a matrix and an
/// angle.
pub uninterp spec fn pre_rotate_gives(
    matrix: lyon::math::Transform,
    angle: lyon::math::Angle,
    product: lyon::math::Transform,
) -> bool;

/// Whether `Transform2D::pre_scale` can give `product` for a matrix and one
/// factor for both axes.
pub uninterp spec fn pre_scale_gives(
    matrix: lyon::math::Transform,
    factor: lyon::math::Scale,
    product: lyon::math::Transform,
) -> bool;

/// Whether `Transform2D::transform_point` can give `image` for a matrix and
/// a point.
pub uninterp spec fn transform_point_gives(
    matrix: lyon::math::Transform,
    point: iced_native::Point,
    image: iced_native::Point,
) -> bool;

/// Whether `Path::transformed` can give `image` for a path and a matrix.
pub uninterp spec fn transformed_gives(
    path: lyon::path::Path,
    matrix: lyon::math::Transform,
    image: lyon::path::Path,
) -> bool;

/// Whether `Color::into_linear` can give the numbers of the bit patterns
/// `rgba` for a color.
pub uninterp spec fn into_linear_gives(color: iced_native::Color, rgba: [u32; 4]) -> bool;

/// Whether the fill tessellator, with its default options, can deal in
/// this way with a path when the buffers it writes to hold `vertices`
/// vertices and `indices` indices.
///
/// `Some(Ok(..))` is to come back with geometry: the positions of the
/// vertices that it adds, as bit patterns, and for each triangle three of
/// their numbers, counted from 0. `Some(Err(..))` is to come back with an
/// error. `None` is not to come back, as happens on some paths when the
/// tessellator is built with its assertions, and when the indices outgrow
/// what it counts.
pub uninterp spec fn fill_gives(
    path: lyon::path::Path,
    vertices: nat,
    indices: nat,
    outcome: Option<Result<(Seq<(u32, u32)>, Seq<u32>), lyon::tessellation::TessellationError>>,
) -> bool;

/// Whether the stroke tessellator, with the default options but for the
/// given width, caps and join, can deal in this way with a path when the
/// buffers it writes to hold `vertices` vertices and `indices` indices: as
/// for the fill.
pub uninterp spec fn stroke_gives(
    path: lyon::path::Path,
    width: lyon::math::Scale,
    start_cap: lyon::tessellation::LineCap,
    end_cap: lyon::tessellation::LineCap,
    line_join: lyon::tessellation::LineJoin,
    vertices: nat,
    indices: nat,
    outcome: Option<Result<(Seq<(u32, u32)>, Seq<u32>), lyon::tessellation::TessellationError>>,
) -> bool;

/// Reads the two coordinates of a point with `to_bits`: the result is the
/// pair of their bit patterns.
#[verifier::external_body]
pub(crate) fn coordinates(point: iced_native::Point) -> (bits: (u32, u32))
    ensures
        bits == point_bits(point),
{
    (point.x.to_bits(), point.y.to_bits())
}

/// Calls `Transform2D::identity`: the result is the identity matrix.
#[verifier::external_body]
pub(crate) fn identity() -> (matrix: lyon::math::Transform)
    ensures
        is_identity_matrix(matrix),
{
    lyon::math::Transform::identity()
}

/// Calls `Transform2D::pre_translate` with the vector `(by.x, by.y)`: the
/// result is one that the call can give for the two.
#[verifier::external_body]
pub(crate) fn pre_translate(matrix: &lyon::math::Transform, by: iced_native::Vector) -> (product:
    lyon::math::Transform)
    ensures
        pre_translate_gives(*matrix, by, product),
{
    matrix.pre_translate(lyon::math::Vector::new(by.x, by.y))
}

/// Calls `Neg::neg` of `euclid::Angle`, which turns the sign of the angle:
/// the result is what the call returns for the angle.
#[verifier::external_body]
pub(crate) fn negate(angle: lyon::math::Angle) -> (opposite: lyon::math::Angle)
    ensures
        opposite == negated(angle),
{
    -angle
}

/// Calls `Transform2D::pre_rotate`: the result is one that the call can
/// give for the two.
#[verifier::external_body]
pub(crate) fn pre_rotate(matrix: &lyon::math::Transform, angle: lyon::math::Angle) -> (product:
    lyon::math::Transform)
    ensures
        pre_rotate_gives(*matrix, angle, product),
{
    matrix.pre_rotate(angle)
}

/// Calls `Transform2D::pre_scale` with the one factor for both axes: the
/// result is one that the call can give for the two.
#[verifier::external_body]
pub(crate) fn pre_scale(matrix: &lyon::math::Transform, factor: lyon::math::Scale) -> (product:
    lyon::math::Transform)
    ensures
        pre_scale_gives(*matrix, factor, product),
{
    matrix.pre_scale(factor.0, factor.0)
}

/// Calls `Transform2D::transform_point` on the point `(point.x, point.y)`:
/// the result is one that the call can give for the two.
#[verifier::external_body]
pub(crate) fn transform_point(matrix: &lyon::math::Transform, point: iced_native::Point) -> (image:
    iced_native::Point)
    ensures
        transform_point_gives(*matrix, point, image),
{
    let image = matrix.transform_point(lyon::math::Point::new(point.x, point.y));
    iced_native::Point::new(image.x, image.y)
}

/// Calls `Path::transformed` of `lyon_path`: the result is one that the
/// call can give for the two.
#[verifier::external_body]
pub(crate) fn transformed(path: &lyon::path::Path, matrix: &lyon::math::Transform) -> (image:
    lyon::path::Path)
    ensures
        transformed_gives(*path, *matrix, image),
{
    path.transformed(matrix)
}

/// Calls `Color::into_linear` and reads the four components with
/// `to_bits`: the result holds the bit patterns of numbers that the call
/// can give for the color.
#[verifier::external_body]
pub(crate) fn into_linear(color: iced_native::Color) -> (rgba: [u32; 4])
    ensures
        into_linear_gives(color, rgba),
{
    let [r, g, b, a] = color.into_linear();
    [r.to_bits(), g.to_bits(), b.to_bits(), a.to_bits()]
}

/// Calls `VertexBuffers::new`: both vectors of the result are empty.
#[verifier::external_body]
pub(crate) fn empty_buffers() -> (buffers: lyon::tessellation::VertexBuffers<Vertex2D, u32>)
    ensures
        buffers.vertices@.len() == 0,
        buffers.indices@.len() == 0,
{
    lyon::tessellation::VertexBuffers::new()
}

/// Calls `FillTessellator::tessellate_path` with the default options and a
/// `BuffersBuilder` over `buffers` that makes each vertex with
/// `Vertex2D::new` from the position it is given and `color`.
///
/// `BuffersBuilder` keeps the two lengths that it finds as `u32`, which is
/// why they may not be beyond [`LIMIT`]. The call has to be one that comes
/// back: built with its assertions, the tessellator stops on some paths
/// whose geometry it cannot make sense of, and the builder stops when the
/// indices outgrow a `u32`.
///
/// What has come back is something that the tessellator can do with the
/// path. As the source of `BuffersBuilder` shows, what the buffers held
/// stays in front; a vertex is pushed for each position that the
/// tessellator adds; every index is pushed by `add_triangle`, three at a
/// time, as the number of a vertex made in this call plus the number of
/// vertices held before; and on an error `abort_geometry` cuts both vectors
/// back to what they held. That a triangle only names vertices made in the
/// same call is the documented duty of a tessellator towards its
/// `GeometryBuilder`.
#[verifier::external_body]
pub(crate) fn tessellate_fill(
    path: &lyon::path::Path,
    color: [u32; 4],
    buffers: &mut lyon::tessellation::VertexBuffers<Vertex2D, u32>,
) -> (result: Result<lyon::tessellation::Count, lyon::tessellation::TessellationError>)
    requires
        old(buffers).vertices@.len() <= LIMIT,
        old(buffers).indices@.len() <= LIMIT,
        !fill_gives(*path, old(buffers).vertices@.len(), old(buffers).indices@.len(), None),
    ensures
        match result {
            Ok(_) => fill_gives(
                *path,
                old(buffers).vertices@.len(),
                old(buffers).indices@.len(),
                Some(
                    Ok(
                        (
                            added_positions(old(buffers).vertices@, final(buffers).vertices@),
                            added_triangles(
                                old(buffers).indices@,
                                final(buffers).indices@,
                                old(buffers).vertices@.len(),
                            ),
                        ),
                    ),
                ),
            ),
            Err(error) => fill_gives(
                *path,
                old(buffers).vertices@.len(),
                old(buffers).indices@.len(),
                Some(Err(error)),
            ) && final(buffers).vertices@ == old(buffers).vertices@ && final(buffers).indices@
                == old(buffers).indices@,
        },
        old(buffers).vertices@.is_prefix_of(final(buffers).vertices@),
        old(buffers).indices@.is_prefix_of(final(buffers).indices@),
        (final(buffers).indices@.len() - old(buffers).indices@.len()) % 3 == 0,
        forall|i: int|
            old(buffers).vertices@.len() <= i < final(buffers).vertices@.len()
                ==> (#[trigger] final(buffers).vertices@[i]).color == color,
        forall|i: int|
            old(buffers).indices@.len() <= i < final(buffers).indices@.len()
                ==> old(buffers).vertices@.len() <= (#[trigger] final(buffers).indices@[i])
                < final(buffers).vertices@.len(),
{
    let mut builder = lyon::tessellation::BuffersBuilder::new(
        buffers,
        |position: lyon::math::Point, _: lyon::tessellation::FillAttributes| {
            Vertex2D::new(position.x.to_bits(), position.y.to_bits(), color)
        },
    );
    let options = lyon::tessellation::FillOptions::default();
    let mut tessellator = lyon::tessellation::FillTessellator::new();
    tessellator.tessellate_path(path, &options, &mut builder)
}

/// Calls `StrokeTessellator::tessellate_path` with a
/// `StrokeOptions::default()` that holds the given width, caps and join,
/// and a `BuffersBuilder` over `buffers` that makes each vertex with
/// `Vertex2D::new` from the position it is given and `color`.
///
/// The demands and the clauses are those of the fill, on the same grounds;
/// the stroke tessellator stops, built with its assertions, on some widths
/// as well.
#[verifier::external_body]
pub(crate) fn tessellate_stroke(
    path: &lyon::path::Path,
    width: lyon::math::Scale,
    start_cap: lyon::tessellation::LineCap,
    end_cap: lyon::tessellation::LineCap,
    line_join: lyon::tessellation::LineJoin,
    color: [u32; 4],
    buffers: &mut lyon::tessellation::VertexBuffers<Vertex2D, u32>,
) -> (result: Result<lyon::tessellation::Count, lyon::tessellation::TessellationError>)
    requires
        old(buffers).vertices@.len() <= LIMIT,
        old(buffers).indices@.len() <= LIMIT,
        !stroke_gives(
            *path,
            width,
            start_cap,
            end_cap,
            line_join,
            old(buffers).vertices@.len(),
            old(buffers).indices@.len(),
            None,
        ),
    ensures
        match result {
            Ok(_) => stroke_gives(
                *path,
                width,
                start_cap,
                end_cap,
                line_join,
                old(buffers).vertices@.len(),
                old(buffers).indices@.len(),
                Some(
                    Ok(
                        (
                            added_positions(old(buffers).vertices@, final(buffers).vertices@),
                            added_triangles(
                                old(buffers).indices@,
                                final(buffers).indices@,
                                old(buffers).vertices@.len(),
                            ),
                        ),
                    ),
                ),
            ),
            Err(error) => stroke_gives(
                *path,
                width,
                start_cap,
                end_cap,
                line_join,
                old(buffers).vertices@.len(),
                old(buffers).indices@.len(),
                Some(Err(error)),
            ) && final(buffers).vertices@ == old(buffers).vertices@ && final(buffers).indices@
                == old(buffers).indices@,
        },
        old(buffers).vertices@.is_prefix_of(final(buffers).vertices@),
        old(buffers).indices@.is_prefix_of(final(buffers).indices@),
        (final(buffers).indices@.len() - old(buffers).indices@.len()) % 3 == 0,
        forall|i: int|
            old(buffers).vertices@.len() <= i < final(buffers).vertices@.len()
                ==> (#[trigger] final(buffers).vertices@[i]).color == color,
        forall|i: int|
            old(buffers).indices@.len() <= i < final(buffers).indices@.len()
                ==> old(buffers).vertices@.len() <= (#[trigger] final(buffers).indices@[i])
                < final(buffers).vertices@.len(),
{
    let mut options = lyon::tessellation::StrokeOptions::default();
    options.line_width = width.0;
    options.start_cap = start_cap;
    options.end_cap = end_cap;
    options.line_join = line_join;
    let mut builder = lyon::tessellation::BuffersBuilder::new(
        buffers,
        |position: lyon::math::Point, _: lyon::tessellation::StrokeAttributes| {
            Vertex2D::new(position.x.to_bits(), position.y.to_bits(), color)
        },
    );
    lyon::tessellation::StrokeTessellator::new().tessellate_path(path, &options, &mut builder)
}

} // verus!
