//! Convert `iced_native` types into `quicksilver` types, and vice versa.

use vstd::prelude::*;

verus! {

/// `quicksilver::input::MouseCursor`, with its variants.
#[verifier::external_type_specification]
pub struct ExWindowCursor(quicksilver::input::MouseCursor);

/// `quicksilver::input::ButtonState`, with its variants.
#[verifier::external_type_specification]
pub struct ExButtonState(quicksilver::input::ButtonState);

/// `quicksilver::input::MouseButton`, with its variants.
#[verifier::external_type_specification]
pub struct ExMouseButton(quicksilver::input::MouseButton);

/// `iced_native::input::ButtonState`, with its variants.
#[verifier::external_type_specification]
pub struct ExInputState(iced_native::input::ButtonState);

/// `iced_native::input::mouse::Button`, with its variants.
#[verifier::external_type_specification]
pub struct ExButton(iced_native::input::mouse::Button);

/// The cursor of the window that shows the state of the cursor of the user
/// interface.
pub open spec fn window_cursor(mouse_cursor: iced_native::MouseCursor)
    -> quicksilver::input::MouseCursor {
    match mouse_cursor {
        iced_native::MouseCursor::OutOfBounds => quicksilver::input::MouseCursor::Default,
        iced_native::MouseCursor::Idle => quicksilver::input::MouseCursor::Default,
        iced_native::MouseCursor::Pointer => quicksilver::input::MouseCursor::Hand,
        iced_native::MouseCursor::Working => quicksilver::input::MouseCursor::Progress,
        iced_native::MouseCursor::Grab => quicksilver::input::MouseCursor::Grab,
        iced_native::MouseCursor::Grabbing => quicksilver::input::MouseCursor::Grabbing,
        iced_native::MouseCursor::Text => quicksilver::input::MouseCursor::Text,
        iced_native::MouseCursor::ResizingHorizontally => quicksilver::input::MouseCursor::EwResize,
        iced_native::MouseCursor::ResizingVertically => quicksilver::input::MouseCursor::NsResize,
    }
}

/// Converts the state of the cursor of the user interface into the cursor
/// that the window is to show.
pub fn convert_mouse_cursor(mouse_cursor: iced_native::MouseCursor) -> (cursor:
    quicksilver::input::MouseCursor)
    ensures
        cursor == window_cursor(mouse_cursor),
{
    match mouse_cursor {
        iced_native::MouseCursor::OutOfBounds => quicksilver::input::MouseCursor::Default,
        iced_native::MouseCursor::Idle => quicksilver::input::MouseCursor::Default,
        iced_native::MouseCursor::Pointer => quicksilver::input::MouseCursor::Hand,
        iced_native::MouseCursor::Working => quicksilver::input::MouseCursor::Progress,
        iced_native::MouseCursor::Grab => quicksilver::input::MouseCursor::Grab,
        iced_native::MouseCursor::Grabbing => quicksilver::input::MouseCursor::Grabbing,
        iced_native::MouseCursor::Text => quicksilver::input::MouseCursor::Text,
        iced_native::MouseCursor::ResizingHorizontally => quicksilver::input::MouseCursor::EwResize,
        iced_native::MouseCursor::ResizingVertically => quicksilver::input::MouseCursor::NsResize,
    }
}

/// The state of a button of the user interface that a change of a button
/// of the window amounts to: a press or a release; a button that is held
/// or at rest has not changed.
pub open spec fn input_state(state: quicksilver::input::ButtonState) -> Option<
    iced_native::input::ButtonState,
> {
    match state {
        quicksilver::input::ButtonState::Pressed => Some(iced_native::input::ButtonState::Pressed),
        quicksilver::input::ButtonState::Released => Some(
            iced_native::input::ButtonState::Released,
        ),
        quicksilver::input::ButtonState::Held => None,
        quicksilver::input::ButtonState::NotPressed => None,
    }
}

/// The button of the user interface that stands for a button of the
/// window.
pub open spec fn input_button(button: quicksilver::input::MouseButton)
    -> iced_native::input::mouse::Button {
    match button {
        quicksilver::input::MouseButton::Left => iced_native::input::mouse::Button::Left,
        quicksilver::input::MouseButton::Right => iced_native::input::mouse::Button::Right,
        quicksilver::input::MouseButton::Middle => iced_native::input::mouse::Button::Middle,
    }
}

/// Converts what the window reports of a mouse button into the state and
/// the button of a mouse input of the user interface, where it reports a
/// change.
pub fn convert_button_state(
    button: quicksilver::input::MouseButton,
    state: quicksilver::input::ButtonState,
) -> (input: Option<(iced_native::input::ButtonState, iced_native::input::mouse::Button)>)
    ensures
        input == match input_state(state) {
            Some(state) => Some((state, input_button(button))),
            None => None,
        },
{
    let state = match state {
        quicksilver::input::ButtonState::Pressed => iced_native::input::ButtonState::Pressed,
        quicksilver::input::ButtonState::Released => iced_native::input::ButtonState::Released,
        quicksilver::input::ButtonState::Held => {
            return None;
        },
        quicksilver::input::ButtonState::NotPressed => {
            return None;
        },
    };
    let button = match button {
        quicksilver::input::MouseButton::Left => iced_native::input::mouse::Button::Left,
        quicksilver::input::MouseButton::Right => iced_native::input::mouse::Button::Right,
        quicksilver::input::MouseButton::Middle => iced_native::input::mouse::Button::Middle,
    };
    Some((state, button))
}

} // verus!
