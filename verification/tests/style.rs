use iced_quicksilver_renderer::canvas::{CapStyle, JoinStyle, TessellationFailure};
use iced_quicksilver_renderer::primitive::Primitive;
use lyon::tessellation::{InternalError, LineCap, LineJoin, TessellationError};

#[test]
fn caps_map_onto_the_caps_of_the_tessellator() {
    assert_eq!(CapStyle::Butt.into_tessellator(), LineCap::Butt);
    assert_eq!(CapStyle::Square.into_tessellator(), LineCap::Square);
    assert_eq!(CapStyle::Round.into_tessellator(), LineCap::Round);
}

#[test]
fn joins_map_onto_the_joins_of_the_tessellator() {
    assert_eq!(JoinStyle::Miter.into_tessellator(), LineJoin::Miter);
    assert_eq!(JoinStyle::Round.into_tessellator(), LineJoin::Round);
    assert_eq!(JoinStyle::Bevel.into_tessellator(), LineJoin::Bevel);
}

#[test]
fn the_default_styles_are_butt_and_miter() {
    assert_eq!(CapStyle::default(), CapStyle::Butt);
    assert_eq!(JoinStyle::default(), JoinStyle::Miter);
}

#[test]
fn an_unsupported_parameter_is_told_apart() {
    assert_eq!(
        TessellationFailure::from_tessellator(TessellationError::UnsupportedParamater),
        TessellationFailure::UnsupportedParameter
    );
}

#[test]
fn an_invalid_vertex_is_told_apart() {
    assert_eq!(
        TessellationFailure::from_tessellator(TessellationError::InvalidVertex),
        TessellationFailure::InvalidVertex
    );
}

#[test]
fn too_many_vertices_are_told_apart() {
    assert_eq!(
        TessellationFailure::from_tessellator(TessellationError::TooManyVertices),
        TessellationFailure::TooManyVertices
    );
}

#[test]
fn an_internal_error_keeps_its_cause() {
    assert_eq!(
        TessellationFailure::from_tessellator(TessellationError::Internal(
            InternalError::ErrorCode(7)
        )),
        TessellationFailure::Internal(InternalError::ErrorCode(7))
    );
    assert_eq!(
        TessellationFailure::from_tessellator(TessellationError::Internal(
            InternalError::MergeVertexOutside
        )),
        TessellationFailure::Internal(InternalError::MergeVertexOutside)
    );
}

#[test]
fn the_default_primitive_is_empty() {
    assert_eq!(Primitive::default(), Primitive::Empty);
}
