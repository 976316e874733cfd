//! How geometry is filled and stroked, and how tessellating it can fail.

use vstd::prelude::*;

verus! {

/// The style used to fill geometry.
#[derive(Clone, Copy, Debug)]
pub enum Fill {
    /// Fill with a color.
    Color(iced_native::Color),
}

/// The shape used at the end of open subpaths when they are stroked.
#[derive(Clone, Copy, Debug, PartialEq, Eq, Structural)]
pub enum CapStyle {
    /// The stroke for each sub-path does not extend beyond its two endpoints.
    Butt,
    /// At the end of each sub-path, the shape representing the stroke will be
    /// extended by a square.
    Square,
    /// At the end of each sub-path, the shape representing the stroke will be
    /// extended by a semicircle.
    Round,
}

impl CapStyle {
    /// The cap of the tessellator that stands for this one.
    pub open spec fn tessellator_cap(self) -> lyon::tessellation::LineCap {
        match self {
            CapStyle::Butt => lyon::tessellation::LineCap::Butt,
            CapStyle::Square => lyon::tessellation::LineCap::Square,
            CapStyle::Round => lyon::tessellation::LineCap::Round,
        }
    }

    /// Returns the cap of the tessellator that stands for this one.
    pub fn into_tessellator(self) -> (cap: lyon::tessellation::LineCap)
        ensures
            cap == self.tessellator_cap(),
    {
        match self {
            CapStyle::Butt => lyon::tessellation::LineCap::Butt,
            CapStyle::Square => lyon::tessellation::LineCap::Square,
            CapStyle::Round => lyon::tessellation::LineCap::Round,
        }
    }
}

impl Default for CapStyle {
    fn default() -> (cap: CapStyle)
        ensures
            cap == CapStyle::Butt,
    {
        CapStyle::Butt
    }
}

/// The shape used at the corners of paths or basic shapes when they are
/// stroked.
#[derive(Clone, Copy, Debug, PartialEq, Eq, Structural)]
pub enum JoinStyle {
    /// A sharp corner.
    Miter,
    /// A round corner.
    Round,
    /// A bevelled corner.
    Bevel,
}

impl JoinStyle {
    /// The join of the tessellator that stands for this one.
    pub open spec fn tessellator_join(self) -> lyon::tessellation::LineJoin {
        match self {
            JoinStyle::Miter => lyon::tessellation::LineJoin::Miter,
            JoinStyle::Round => lyon::tessellation::LineJoin::Round,
            JoinStyle::Bevel => lyon::tessellation::LineJoin::Bevel,
        }
    }

    /// Returns the join of the tessellator that stands for this one.
    pub fn into_tessellator(self) -> (join: lyon::tessellation::LineJoin)
        ensures
            join == self.tessellator_join(),
    {
        match self {
            JoinStyle::Miter => lyon::tessellation::LineJoin::Miter,
            JoinStyle::Round => lyon::tessellation::LineJoin::Round,
            JoinStyle::Bevel => lyon::tessellation::LineJoin::Bevel,
        }
    }
}

impl Default for JoinStyle {
    fn default() -> (join: JoinStyle)
        ensures
            join == JoinStyle::Miter,
    {
        JoinStyle::Miter
    }
}

/// The style of a stroke.
#[derive(Clone, Copy, Debug)]
pub struct Stroke {
    /// The color of the stroke.
    pub color: iced_native::Color,
    /// The distance between the two edges of the stroke, as a factor of
    /// one unit of the frame.
    pub width: lyon::math::Scale,
    /// The shape to be used at the end of open subpaths when they are
    /// stroked.
    pub line_cap: CapStyle,
    /// The shape to be used at the corners of paths or basic shapes when they
    /// are stroked.
    pub line_join: JoinStyle,
}

/// Why a path could not be turned into triangles.
#[derive(Clone, Copy, Debug, PartialEq, Eq)]
pub enum TessellationFailure {
    /// The tessellator was given a parameter that it does not support.
    UnsupportedParameter,
    /// The geometry builder refused a vertex.
    InvalidVertex,
    /// The mesh would hold more vertices than its indices can name.
    TooManyVertices,
    /// The tessellator gave up on the geometry of the path.
    Internal(lyon::tessellation::InternalError),
}

impl TessellationFailure {
    /// The failure that stands for an error of the tessellator.
    pub open spec fn of(error: lyon::tessellation::TessellationError) -> TessellationFailure {
        match error {
            lyon::tessellation::TessellationError::UnsupportedParamater =>
                TessellationFailure::UnsupportedParameter,
            lyon::tessellation::TessellationError::InvalidVertex => TessellationFailure::InvalidVertex,
            lyon::tessellation::TessellationError::TooManyVertices =>
                TessellationFailure::TooManyVertices,
            lyon::tessellation::TessellationError::Internal(error) => TessellationFailure::Internal(
                error,
            ),
        }
    }

    /// Returns the failure that stands for an error of the tessellator.
    pub fn from_tessellator(error: lyon::tessellation::TessellationError) -> (failure:
        TessellationFailure)
        ensures
            failure == TessellationFailure::of(error),
    {
        match error {
            lyon::tessellation::TessellationError::UnsupportedParamater =>
                TessellationFailure::UnsupportedParameter,
            lyon::tessellation::TessellationError::InvalidVertex => TessellationFailure::InvalidVertex,
            lyon::tessellation::TessellationError::TooManyVertices =>
                TessellationFailure::TooManyVertices,
            lyon::tessellation::TessellationError::Internal(error) => TessellationFailure::Internal(
                error,
            ),
        }
    }
}

} // verus!
