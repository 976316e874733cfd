use iced_native::input::mouse::Button;
use iced_native::input::ButtonState as InputState;
use iced_native::MouseCursor;
use iced_quicksilver_renderer::conversion::{convert_button_state, convert_mouse_cursor};
use quicksilver::input::{ButtonState, MouseButton, MouseCursor as WindowCursor};

#[test]
fn every_cursor_of_the_interface_has_one_of_the_window() {
    assert_eq!(convert_mouse_cursor(MouseCursor::OutOfBounds), WindowCursor::Default);
    assert_eq!(convert_mouse_cursor(MouseCursor::Idle), WindowCursor::Default);
    assert_eq!(convert_mouse_cursor(MouseCursor::Pointer), WindowCursor::Hand);
    assert_eq!(convert_mouse_cursor(MouseCursor::Working), WindowCursor::Progress);
    assert_eq!(convert_mouse_cursor(MouseCursor::Grab), WindowCursor::Grab);
    assert_eq!(convert_mouse_cursor(MouseCursor::Grabbing), WindowCursor::Grabbing);
    assert_eq!(convert_mouse_cursor(MouseCursor::Text), WindowCursor::Text);
    assert_eq!(convert_mouse_cursor(MouseCursor::ResizingHorizontally), WindowCursor::EwResize);
    assert_eq!(convert_mouse_cursor(MouseCursor::ResizingVertically), WindowCursor::NsResize);
}

#[test]
fn a_press_and_a_release_are_inputs() {
    assert_eq!(
        convert_button_state(MouseButton::Left, ButtonState::Pressed),
        Some((InputState::Pressed, Button::Left))
    );
    assert_eq!(
        convert_button_state(MouseButton::Right, ButtonState::Released),
        Some((InputState::Released, Button::Right))
    );
    assert_eq!(
        convert_button_state(MouseButton::Middle, ButtonState::Pressed),
        Some((InputState::Pressed, Button::Middle))
    );
}

#[test]
fn a_button_that_has_not_changed_is_no_input() {
    for button in [MouseButton::Left, MouseButton::Right, MouseButton::Middle] {
        assert_eq!(convert_button_state(button, ButtonState::Held), None);
        assert_eq!(convert_button_state(button, ButtonState::NotPressed), None);
    }
}
