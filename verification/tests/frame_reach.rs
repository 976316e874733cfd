use iced_native::Color;
use iced_quicksilver_renderer::canvas::{CapStyle, Fill, Frame, JoinStyle, Stroke};
use iced_quicksilver_renderer::primitive::Primitive;
use iced_quicksilver_renderer::triangle::LIMIT;
use lyon::math::{point, Scale};
use lyon::path::Path;

fn segment() -> Path {
    let mut builder = Path::builder();
    builder.move_to(point(0.0, 0.0));
    builder.line_to(point(10.0, 0.0));
    builder.build()
}

fn triangle_to(far: f32) -> Path {
    let mut builder = Path::builder();
    builder.move_to(point(0.0, 0.0));
    builder.line_to(point(far, 0.0));
    builder.line_to(point(0.0, 10.0));
    builder.close();
    builder.build()
}

/// A polygon on a circle, of the given number of points.
fn polygon(corners: usize) -> Path {
    let mut builder = Path::builder();
    for corner in 0..corners {
        let angle = corner as f32 / corners as f32 * std::f32::consts::PI * 2.0;
        let to = point(1000.0 * angle.cos(), 1000.0 * angle.sin());
        if corner == 0 {
            builder.move_to(to);
        } else {
            builder.line_to(to);
        }
    }
    builder.close();
    builder.build()
}

fn stroke_of(width: f32, line_cap: CapStyle, line_join: JoinStyle) -> Stroke {
    Stroke { color: Color::BLACK, width: Scale::new(width), line_cap, line_join }
}

fn vertices(frame: Frame) -> usize {
    match frame.into_primitive() {
        Primitive::Group { primitives } => match primitives.first() {
            Some(Primitive::Mesh2D { buffers, .. }) => buffers.vertices.len(),
            _ => 0,
        },
        _ => 0,
    }
}

#[test]
fn a_mesh_has_room_for_as_much_as_an_index_counts() {
    assert_eq!(LIMIT, u32::MAX as usize);
}

#[test]
fn fill_and_stroke_draw_what_the_tessellator_accepts() {
    let mut frame = Frame::new(100f32.to_bits(), 100f32.to_bits());
    frame.fill(&triangle_to(10.0), Fill::Color(Color::WHITE));
    frame.stroke(&segment(), stroke_of(2.0, CapStyle::Butt, JoinStyle::Miter));
    assert_eq!(vertices(frame), 3 + 4);
}

#[test]
fn a_polygon_of_many_points_is_filled() {
    let mut frame = Frame::new(100f32.to_bits(), 100f32.to_bits());
    assert_eq!(frame.try_fill(&polygon(32768), Fill::Color(Color::BLACK)), Ok(()));
    assert_eq!(vertices(frame), 32768);
}

#[test]
fn a_triangle_that_reaches_far_is_filled() {
    let mut frame = Frame::new(100f32.to_bits(), 100f32.to_bits());
    assert_eq!(frame.try_fill(&triangle_to(16777218.0), Fill::Color(Color::BLACK)), Ok(()));
    assert_eq!(vertices(frame), 3);
}

#[test]
fn a_very_wide_stroke_is_drawn() {
    let mut frame = Frame::new(100f32.to_bits(), 100f32.to_bits());
    let wide = stroke_of(100000.0, CapStyle::Butt, JoinStyle::Miter);
    assert_eq!(frame.try_stroke(&segment(), wide), Ok(()));
    match frame.into_primitive() {
        Primitive::Group { primitives } => match &primitives[0] {
            Primitive::Mesh2D { buffers, .. } => {
                let mut heights: Vec<f32> =
                    buffers.vertices.iter().map(|v| f32::from_bits(v.position[1])).collect();
                heights.sort_by(|a, b| a.partial_cmp(b).unwrap());
                heights.dedup();
                assert_eq!(heights, vec![-50000.0, 50000.0]);
            }
            other => panic!("not a mesh: {:?}", other),
        },
        other => panic!("not a group: {:?}", other),
    }
}

#[test]
fn a_hairline_is_drawn() {
    for width in [0.0, 0.05, 1.0e-30] {
        let mut frame = Frame::new(100f32.to_bits(), 100f32.to_bits());
        for line_join in [JoinStyle::Miter, JoinStyle::Bevel] {
            assert_eq!(
                frame.try_stroke(&triangle_to(10.0), stroke_of(width, CapStyle::Round, line_join)),
                Ok(())
            );
        }
        assert!(vertices(frame) > 0);
    }
}
