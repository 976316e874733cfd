use iced_native::Vector;
use iced_quicksilver_renderer::canvas::Transforms;
use lyon::math::{Angle, Point, Scale, Transform};

fn close(a: f32, b: f32) -> bool {
    (a - b).abs() < 1e-4
}

#[test]
fn a_new_stack_holds_the_identity_and_no_save() {
    let transforms = Transforms::new();
    assert!(transforms.current().is_identity);
    assert_eq!(transforms.current().raw, Transform::identity());
    assert_eq!(transforms.depth(), 0);
}

#[test]
fn a_translation_clears_the_identity_mark() {
    let mut transforms = Transforms::new();
    transforms.translate(Vector::new(0.0, 0.0));
    assert!(!transforms.current().is_identity);
    assert_eq!(transforms.depth(), 0);
}

#[test]
fn translate_moves_the_origin() {
    let mut transforms = Transforms::new();
    transforms.translate(Vector::new(3.0, -2.0));
    let image = transforms.current().raw.transform_point(Point::new(1.0, 1.0));
    assert_eq!(image, Point::new(4.0, -1.0));
}

#[test]
fn scale_is_uniform() {
    let mut transforms = Transforms::new();
    transforms.scale(Scale::new(2.5));
    let image = transforms.current().raw.transform_point(Point::new(2.0, -4.0));
    assert_eq!(image, Point::new(5.0, -10.0));
    assert!(!transforms.current().is_identity);
}

#[test]
fn rotate_hands_on_the_negated_angle() {
    let mut transforms = Transforms::new();
    transforms.rotate(Angle::radians(std::f32::consts::FRAC_PI_2));
    let expected = Transform::identity().pre_rotate(Angle::radians(-std::f32::consts::FRAC_PI_2));
    assert_eq!(transforms.current().raw, expected);
    assert!(!transforms.current().is_identity);
}

#[test]
fn translate_then_rotate_turns_about_the_new_origin() {
    let mut transforms = Transforms::new();
    transforms.translate(Vector::new(10.0, 0.0));
    transforms.rotate(Angle::radians(std::f32::consts::FRAC_PI_2));
    let image = transforms.current().raw.transform_point(Point::new(1.0, 0.0));
    assert!(close(image.x, 10.0), "x = {}", image.x);
    assert!(close(image.y, 1.0), "y = {}", image.y);
    let origin = transforms.current().raw.transform_point(Point::new(0.0, 0.0));
    assert!(close(origin.x, 10.0));
    assert!(close(origin.y, 0.0));
}

#[test]
fn operations_compose_in_the_local_frame() {
    let mut transforms = Transforms::new();
    transforms.scale(Scale::new(2.0));
    transforms.translate(Vector::new(1.0, 1.0));
    let image = transforms.current().raw.transform_point(Point::new(0.0, 0.0));
    assert_eq!(image, Point::new(2.0, 2.0));
}

#[test]
fn save_and_restore_give_back_the_transform() {
    let mut transforms = Transforms::new();
    transforms.translate(Vector::new(5.0, 6.0));
    let before = transforms.current();
    transforms.save();
    assert_eq!(transforms.depth(), 1);
    assert_eq!(transforms.current().raw, before.raw);
    transforms.scale(Scale::new(3.0));
    transforms.rotate(Angle::radians(1.0));
    assert_ne!(transforms.current().raw, before.raw);
    transforms.restore();
    assert_eq!(transforms.depth(), 0);
    assert_eq!(transforms.current().raw, before.raw);
    assert_eq!(transforms.current().is_identity, before.is_identity);
}

#[test]
fn restore_brings_back_the_identity_mark() {
    let mut transforms = Transforms::new();
    transforms.save();
    transforms.translate(Vector::new(1.0, 0.0));
    assert!(!transforms.current().is_identity);
    transforms.restore();
    assert!(transforms.current().is_identity);
    assert_eq!(transforms.current().raw, Transform::identity());
}

#[test]
fn nested_saves_are_restored_last_in_first_out() {
    let mut transforms = Transforms::new();
    transforms.translate(Vector::new(1.0, 0.0));
    let first = transforms.current().raw;
    transforms.save();
    transforms.translate(Vector::new(0.0, 2.0));
    let second = transforms.current().raw;
    transforms.save();
    transforms.scale(Scale::new(4.0));
    assert_eq!(transforms.depth(), 2);
    transforms.restore();
    assert_eq!(transforms.current().raw, second);
    transforms.restore();
    assert_eq!(transforms.current().raw, first);
    assert_eq!(transforms.depth(), 0);
}

#[test]
fn a_restore_without_a_save_is_refused() {
    let mut transforms = Transforms::new();
    transforms.translate(Vector::new(7.0, 8.0));
    let before = transforms.current();
    assert!(!transforms.try_restore());
    assert_eq!(transforms.depth(), 0);
    assert_eq!(transforms.current().raw, before.raw);
    assert_eq!(transforms.current().is_identity, before.is_identity);
}

#[test]
fn try_restore_restores_where_there_is_a_save() {
    let mut transforms = Transforms::new();
    transforms.save();
    transforms.translate(Vector::new(7.0, 8.0));
    assert!(transforms.try_restore());
    assert!(transforms.current().is_identity);
    assert!(!transforms.try_restore());
}

#[test]
fn set_matrix_puts_the_matrix_in_force() {
    let mut transforms = Transforms::new();
    transforms.save();
    let matrix = Transform::create_translation(2.0, 3.0);
    transforms.set_matrix(matrix);
    assert_eq!(transforms.current().raw, matrix);
    assert!(!transforms.current().is_identity);
    assert_eq!(transforms.depth(), 1);
}
