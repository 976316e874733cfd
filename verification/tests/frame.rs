use iced_native::{Color, Vector};
use iced_quicksilver_renderer::canvas::{CapStyle, Fill, Frame, JoinStyle, Size, Stroke};
use iced_quicksilver_renderer::primitive::{Position, Primitive};
use iced_quicksilver_renderer::Mesh2D;
use lyon::math::{point, Angle, Scale};
use lyon::path::Path;

fn triangle() -> Path {
    let mut builder = Path::builder();
    builder.move_to(point(0.0, 0.0));
    builder.line_to(point(10.0, 0.0));
    builder.line_to(point(0.0, 10.0));
    builder.close();
    builder.build()
}

fn square(side: f32) -> Path {
    let mut builder = Path::builder();
    builder.move_to(point(0.0, 0.0));
    builder.line_to(point(side, 0.0));
    builder.line_to(point(side, side));
    builder.line_to(point(0.0, side));
    builder.close();
    builder.build()
}

fn thin(color: Color) -> Stroke {
    Stroke { color, width: Scale::new(1.0), line_cap: CapStyle::Butt, line_join: JoinStyle::Miter }
}

fn members(primitive: Primitive) -> Vec<Primitive> {
    match primitive {
        Primitive::Group { primitives } => primitives,
        other => panic!("not a group: {:?}", other),
    }
}

fn mesh(primitive: &Primitive) -> &Mesh2D {
    match primitive {
        Primitive::Mesh2D { buffers, .. } => buffers,
        other => panic!("not a mesh: {:?}", other),
    }
}

fn whole_triangles(mesh: &Mesh2D) -> bool {
    mesh.indices.len() % 3 == 0
        && mesh.indices.iter().all(|index| (*index as usize) < mesh.vertices.len())
}

#[test]
fn a_new_frame_keeps_its_dimensions() {
    let frame = Frame::new(800f32.to_bits(), 600f32.to_bits());
    assert_eq!(f32::from_bits(frame.width()), 800.0);
    assert_eq!(f32::from_bits(frame.height()), 600.0);
    assert_eq!(frame.size(), Size { width: 800f32.to_bits(), height: 600f32.to_bits() });
}

#[test]
fn dimensions_are_taken_as_given() {
    let frame = Frame::new((-1f32).to_bits(), f32::NAN.to_bits());
    assert_eq!(frame.width(), (-1f32).to_bits());
    assert_eq!(frame.height(), f32::NAN.to_bits());
}

#[test]
fn size_is_the_same_at_every_call() {
    let mut frame = Frame::new(3.5f32.to_bits(), 7.25f32.to_bits());
    let first = frame.size();
    assert_eq!(frame.size(), first);
    assert_eq!(frame.size(), first);
    frame.try_fill(&triangle(), Fill::Color(Color::BLACK)).expect("Tessellate path");
    frame.translate(Vector::new(1.0, 1.0));
    assert_eq!(frame.size(), first);
    assert_eq!(frame.width(), first.width);
    assert_eq!(frame.height(), first.height);
}

#[test]
fn a_blank_frame_becomes_an_empty_group() {
    let frame = Frame::new(100f32.to_bits(), 100f32.to_bits());
    assert_eq!(frame.into_primitive(), Primitive::Group { primitives: Vec::new() });
}

#[test]
fn transforms_alone_draw_nothing() {
    let mut frame = Frame::new(100f32.to_bits(), 100f32.to_bits());
    frame.translate(Vector::new(4.0, 4.0));
    frame.rotate(Angle::radians(0.3));
    frame.scale(Scale::new(2.0));
    assert_eq!(frame.into_primitive(), Primitive::Group { primitives: Vec::new() });
}

#[test]
fn fill_gives_one_mesh_of_whole_triangles() {
    let mut frame = Frame::new(100f32.to_bits(), 100f32.to_bits());
    frame.try_fill(&triangle(), Fill::Color(Color::WHITE)).expect("Tessellate path");
    let primitives = members(frame.into_primitive());
    assert_eq!(primitives.len(), 1);
    let mesh = mesh(&primitives[0]);
    assert_eq!(mesh.vertices.len(), 3);
    assert_eq!(mesh.indices.len(), 3);
    assert!(whole_triangles(mesh));
    let mut corners: Vec<(f32, f32)> = mesh
        .vertices
        .iter()
        .map(|vertex| (f32::from_bits(vertex.position[0]), f32::from_bits(vertex.position[1])))
        .collect();
    corners.sort_by(|a, b| a.partial_cmp(b).unwrap());
    assert_eq!(corners, vec![(0.0, 0.0), (0.0, 10.0), (10.0, 0.0)]);
}

#[test]
fn the_mesh_begins_at_the_origin() {
    let mut frame = Frame::new(100f32.to_bits(), 100f32.to_bits());
    frame.translate(Vector::new(50.0, 50.0));
    frame.try_fill(&triangle(), Fill::Color(Color::WHITE)).expect("Tessellate path");
    let primitives = members(frame.into_primitive());
    match &primitives[0] {
        Primitive::Mesh2D { origin, .. } => {
            assert_eq!(*origin, Position { x: 0f32.to_bits(), y: 0f32.to_bits() });
            assert_eq!(*origin, Position::origin());
        }
        other => panic!("not a mesh: {:?}", other),
    }
}

#[test]
fn vertices_carry_the_fill_color_in_linear_space() {
    let color = Color { r: 0.5, g: 0.02, b: 1.0, a: 0.25 };
    let mut frame = Frame::new(100f32.to_bits(), 100f32.to_bits());
    frame.try_fill(&triangle(), Fill::Color(color)).expect("Tessellate path");
    let primitives = members(frame.into_primitive());
    let linear = color.into_linear();
    assert_ne!(linear[0], color.r);
    for vertex in &mesh(&primitives[0]).vertices {
        let found: Vec<f32> = vertex.color.iter().map(|bits| f32::from_bits(*bits)).collect();
        assert_eq!(found, linear.to_vec());
    }
}

#[test]
fn every_call_appends_to_the_one_mesh() {
    let red = Color::from_rgb(1.0, 0.0, 0.0);
    let blue = Color::from_rgb(0.0, 0.0, 1.0);
    let mut frame = Frame::new(100f32.to_bits(), 100f32.to_bits());
    frame.try_fill(&triangle(), Fill::Color(red)).expect("Tessellate path");
    frame.try_stroke(&square(20.0), thin(blue)).expect("Stroke path");
    frame.try_fill(&square(5.0), Fill::Color(red)).expect("Tessellate path");
    let primitives = members(frame.into_primitive());
    assert_eq!(primitives.len(), 1);
    let mesh = mesh(&primitives[0]);
    assert!(whole_triangles(mesh));
    assert!(mesh.vertices.len() > 3 + 4);
    assert_eq!(&mesh.indices[..3].iter().map(|i| *i < 3).collect::<Vec<bool>>(), &[true; 3]);
    let first: Vec<f32> = red.into_linear().to_vec();
    for vertex in &mesh.vertices[..3] {
        let found: Vec<f32> = vertex.color.iter().map(|bits| f32::from_bits(*bits)).collect();
        assert_eq!(found, first);
    }
    let second: Vec<f32> = blue.into_linear().to_vec();
    let found: Vec<f32> = mesh.vertices[3].color.iter().map(|bits| f32::from_bits(*bits)).collect();
    assert_eq!(found, second);
    assert!(mesh.indices[3..].iter().all(|index| *index >= 3));
}

#[test]
fn what_was_drawn_before_stays_in_front() {
    let mut first = Frame::new(100f32.to_bits(), 100f32.to_bits());
    first.try_fill(&triangle(), Fill::Color(Color::BLACK)).expect("Tessellate path");
    let alone = members(first.into_primitive());
    let mut second = Frame::new(100f32.to_bits(), 100f32.to_bits());
    second.try_fill(&triangle(), Fill::Color(Color::BLACK)).expect("Tessellate path");
    second.try_stroke(&triangle(), thin(Color::WHITE)).expect("Stroke path");
    let both = members(second.into_primitive());
    let (alone, both) = (mesh(&alone[0]), mesh(&both[0]));
    assert_eq!(&both.vertices[..alone.vertices.len()], &alone.vertices[..]);
    assert_eq!(&both.indices[..alone.indices.len()], &alone.indices[..]);
    assert!(both.indices.len() > alone.indices.len());
}

#[test]
fn an_empty_path_leaves_no_mesh() {
    let mut frame = Frame::new(100f32.to_bits(), 100f32.to_bits());
    let empty = Path::builder().build();
    assert_eq!(frame.try_fill(&empty, Fill::Color(Color::BLACK)), Ok(()));
    assert_eq!(frame.try_stroke(&empty, thin(Color::BLACK)), Ok(()));
    assert_eq!(frame.into_primitive(), Primitive::Group { primitives: Vec::new() });
}
