//! Event-stream scenarios: every test drives the verifier through a fixed
//! sequence of events and checks which ones it accepts.

use input_verifier::Button;
use input_verifier::DeviceId;
use input_verifier::InputVerifier;
use input_verifier::MotionButton;
use input_verifier::MotionFlags;
use input_verifier::RustPointerProperties;
use input_verifier::Source;
use input_verifier::ACTION_BUTTON_PRESS;
use input_verifier::ACTION_BUTTON_RELEASE;
use input_verifier::ACTION_CANCEL;
use input_verifier::ACTION_DOWN;
use input_verifier::ACTION_HOVER_ENTER;
use input_verifier::ACTION_HOVER_EXIT;
use input_verifier::ACTION_HOVER_MOVE;
use input_verifier::ACTION_MOVE;
use input_verifier::ACTION_POINTER_DOWN;
use input_verifier::ACTION_POINTER_INDEX_SHIFT;
use input_verifier::ACTION_POINTER_UP;
use input_verifier::ACTION_UP;

/// Send a DOWN event with 2 pointers and ensure that it's marked as invalid.
#[test]
fn bad_down_event() {
    let mut verifier = InputVerifier::new("Test", /*should_log*/ true);
    let pointer_properties =
        Vec::from([RustPointerProperties { id: 0 }, RustPointerProperties { id: 1 }]);
    assert!(verifier
        .process_movement(
            DeviceId(1),
            Source::Touchscreen,
            ACTION_DOWN,
            MotionButton::empty(),
            &pointer_properties,
            MotionFlags::empty(),
            MotionButton::empty(),
        )
        .is_err());
}

#[test]
fn single_pointer_stream() {
    let mut verifier = InputVerifier::new("Test", /*should_log*/ false);
    let pointer_properties = Vec::from([RustPointerProperties { id: 0 }]);
    assert!(verifier
        .process_movement(
            DeviceId(1),
            Source::Touchscreen,
            ACTION_DOWN,
            MotionButton::empty(),
            &pointer_properties,
            MotionFlags::empty(),
            MotionButton::empty(),
        )
        .is_ok());
    assert!(verifier
        .process_movement(
            DeviceId(1),
            Source::Touchscreen,
            ACTION_MOVE,
            MotionButton::empty(),
            &pointer_properties,
            MotionFlags::empty(),
            MotionButton::empty(),
        )
        .is_ok());
    assert!(verifier
        .process_movement(
            DeviceId(1),
            Source::Touchscreen,
            ACTION_UP,
            MotionButton::empty(),
            &pointer_properties,
            MotionFlags::empty(),
            MotionButton::empty(),
        )
        .is_ok());
}

#[test]
fn two_pointer_stream() {
    let mut verifier = InputVerifier::new("Test", /*should_log*/ false);
    let pointer_properties = Vec::from([RustPointerProperties { id: 0 }]);
    assert!(verifier
        .process_movement(
            DeviceId(1),
            Source::Touchscreen,
            ACTION_DOWN,
            MotionButton::empty(),
            &pointer_properties,
            MotionFlags::empty(),
            MotionButton::empty(),
        )
        .is_ok());
    // POINTER 1 DOWN
    let two_pointer_properties =
        Vec::from([RustPointerProperties { id: 0 }, RustPointerProperties { id: 1 }]);
    assert!(verifier
        .process_movement(
            DeviceId(1),
            Source::Touchscreen,
            ACTION_POINTER_DOWN | (1 << ACTION_POINTER_INDEX_SHIFT),
            MotionButton::empty(),
            &two_pointer_properties,
            MotionFlags::empty(),
            MotionButton::empty(),
        )
        .is_ok());
    // POINTER 0 UP
    assert!(verifier
        .process_movement(
            DeviceId(1),
            Source::Touchscreen,
            ACTION_POINTER_UP | (0 << ACTION_POINTER_INDEX_SHIFT),
            MotionButton::empty(),
            &two_pointer_properties,
            MotionFlags::empty(),
            MotionButton::empty(),
        )
        .is_ok());
    // ACTION_UP for pointer id=1
    let pointer_1_properties = Vec::from([RustPointerProperties { id: 1 }]);
    assert!(verifier
        .process_movement(
            DeviceId(1),
            Source::Touchscreen,
            ACTION_UP,
            MotionButton::empty(),
            &pointer_1_properties,
            MotionFlags::empty(),
            MotionButton::empty(),
        )
        .is_ok());
}

#[test]
fn multi_device_stream() {
    let mut verifier = InputVerifier::new("Test", /*should_log*/ false);
    let pointer_properties = Vec::from([RustPointerProperties { id: 0 }]);
    assert!(verifier
        .process_movement(
            DeviceId(1),
            Source::Touchscreen,
            ACTION_DOWN,
            MotionButton::empty(),
            &pointer_properties,
            MotionFlags::empty(),
            MotionButton::empty(),
        )
        .is_ok());
    assert!(verifier
        .process_movement(
            DeviceId(1),
            Source::Touchscreen,
            ACTION_MOVE,
            MotionButton::empty(),
            &pointer_properties,
            MotionFlags::empty(),
            MotionButton::empty(),
        )
        .is_ok());
    assert!(verifier
        .process_movement(
            DeviceId(2),
            Source::Touchscreen,
            ACTION_DOWN,
            MotionButton::empty(),
            &pointer_properties,
            MotionFlags::empty(),
            MotionButton::empty(),
        )
        .is_ok());
    assert!(verifier
        .process_movement(
            DeviceId(2),
            Source::Touchscreen,
            ACTION_MOVE,
            MotionButton::empty(),
            &pointer_properties,
            MotionFlags::empty(),
            MotionButton::empty(),
        )
        .is_ok());
    assert!(verifier
        .process_movement(
            DeviceId(1),
            Source::Touchscreen,
            ACTION_UP,
            MotionButton::empty(),
            &pointer_properties,
            MotionFlags::empty(),
            MotionButton::empty(),
        )
        .is_ok());
}

#[test]
fn action_cancel() {
    let mut verifier = InputVerifier::new("Test", /*should_log*/ false);
    let pointer_properties = Vec::from([RustPointerProperties { id: 0 }]);
    assert!(verifier
        .process_movement(
            DeviceId(1),
            Source::Touchscreen,
            ACTION_DOWN,
            MotionButton::empty(),
            &pointer_properties,
            MotionFlags::empty(),
            MotionButton::empty(),
        )
        .is_ok());
    assert!(verifier
        .process_movement(
            DeviceId(1),
            Source::Touchscreen,
            ACTION_CANCEL,
            MotionButton::empty(),
            &pointer_properties,
            MotionFlags::canceled(),
            MotionButton::empty(),
        )
        .is_ok());
}

#[test]
fn invalid_action_cancel() {
    let mut verifier = InputVerifier::new("Test", /*should_log*/ false);
    let pointer_properties = Vec::from([RustPointerProperties { id: 0 }]);
    assert!(verifier
        .process_movement(
            DeviceId(1),
            Source::Touchscreen,
            ACTION_DOWN,
            MotionButton::empty(),
            &pointer_properties,
            MotionFlags::empty(),
            MotionButton::empty(),
        )
        .is_ok());
    assert!(verifier
        .process_movement(
            DeviceId(1),
            Source::Touchscreen,
            ACTION_CANCEL,
            MotionButton::empty(),
            &pointer_properties,
            MotionFlags::empty(), // forgot to set the CANCELED flag
            MotionButton::empty(),
        )
        .is_err());
}

#[test]
fn invalid_up() {
    let mut verifier = InputVerifier::new("Test", /*should_log*/ false);
    let pointer_properties = Vec::from([RustPointerProperties { id: 0 }]);
    assert!(verifier
        .process_movement(
            DeviceId(1),
            Source::Touchscreen,
            ACTION_UP,
            MotionButton::empty(),
            &pointer_properties,
            MotionFlags::empty(),
            MotionButton::empty(),
        )
        .is_err());
}

#[test]
fn correct_hover_sequence() {
    let mut verifier = InputVerifier::new("Test", /*should_log*/ false);
    let pointer_properties = Vec::from([RustPointerProperties { id: 0 }]);
    assert!(verifier
        .process_movement(
            DeviceId(1),
            Source::Touchscreen,
            ACTION_HOVER_ENTER,
            MotionButton::empty(),
            &pointer_properties,
            MotionFlags::empty(),
            MotionButton::empty(),
        )
        .is_ok());
    assert!(verifier
        .process_movement(
            DeviceId(1),
            Source::Touchscreen,
            ACTION_HOVER_MOVE,
            MotionButton::empty(),
            &pointer_properties,
            MotionFlags::empty(),
            MotionButton::empty(),
        )
        .is_ok());
    assert!(verifier
        .process_movement(
            DeviceId(1),
            Source::Touchscreen,
            ACTION_HOVER_EXIT,
            MotionButton::empty(),
            &pointer_properties,
            MotionFlags::empty(),
            MotionButton::empty(),
        )
        .is_ok());
    assert!(verifier
        .process_movement(
            DeviceId(1),
            Source::Touchscreen,
            ACTION_HOVER_ENTER,
            MotionButton::empty(),
            &pointer_properties,
            MotionFlags::empty(),
            MotionButton::empty(),
        )
        .is_ok());
}

#[test]
fn double_hover_enter() {
    let mut verifier = InputVerifier::new("Test", /*should_log*/ false);
    let pointer_properties = Vec::from([RustPointerProperties { id: 0 }]);
    assert!(verifier
        .process_movement(
            DeviceId(1),
            Source::Touchscreen,
            ACTION_HOVER_ENTER,
            MotionButton::empty(),
            &pointer_properties,
            MotionFlags::empty(),
            MotionButton::empty(),
        )
        .is_ok());
    assert!(verifier
        .process_movement(
            DeviceId(1),
            Source::Touchscreen,
            ACTION_HOVER_ENTER,
            MotionButton::empty(),
            &pointer_properties,
            MotionFlags::empty(),
            MotionButton::empty(),
        )
        .is_err());
}

// Send a MOVE without a preceding DOWN event. This is OK because it's from
// source MOUSE_RELATIVE, which is used during pointer capture. The verifier
// should allow such an event.
#[test]
fn relative_mouse_move() {
    let mut verifier = InputVerifier::new("Test", /*should_log*/ false);
    let pointer_properties = Vec::from([RustPointerProperties { id: 0 }]);
    assert!(verifier
        .process_movement(
            DeviceId(2),
            Source::MouseRelative,
            ACTION_MOVE,
            MotionButton::empty(),
            &pointer_properties,
            MotionFlags::empty(),
            MotionButton::empty(),
        )
        .is_ok());
}

// Send a MOVE event with an incorrect number of pointers (one of the pointers
// is missing).
#[test]
fn move_with_wrong_number_of_pointers() {
    let mut verifier = InputVerifier::new("Test", /*should_log*/ false);
    let pointer_properties = Vec::from([RustPointerProperties { id: 0 }]);
    assert!(verifier
        .process_movement(
            DeviceId(1),
            Source::Touchscreen,
            ACTION_DOWN,
            MotionButton::empty(),
            &pointer_properties,
            MotionFlags::empty(),
            MotionButton::empty(),
        )
        .is_ok());
    // POINTER 1 DOWN
    let two_pointer_properties =
        Vec::from([RustPointerProperties { id: 0 }, RustPointerProperties { id: 1 }]);
    assert!(verifier
        .process_movement(
            DeviceId(1),
            Source::Touchscreen,
            ACTION_POINTER_DOWN | (1 << ACTION_POINTER_INDEX_SHIFT),
            MotionButton::empty(),
            &two_pointer_properties,
            MotionFlags::empty(),
            MotionButton::empty(),
        )
        .is_ok());
    // MOVE event with 1 pointer missing (the pointer with id = 1). It should
    // be rejected.
    assert!(verifier
        .process_movement(
            DeviceId(1),
            Source::Touchscreen,
            ACTION_MOVE,
            MotionButton::empty(),
            &pointer_properties,
            MotionFlags::empty(),
            MotionButton::empty(),
        )
        .is_err());
}

#[test]
fn correct_button_press() {
    let mut verifier = InputVerifier::new("Test", /*should_log*/ false);
    let pointer_properties = Vec::from([RustPointerProperties { id: 0 }]);
    assert!(verifier
        .process_movement(
            DeviceId(1),
            Source::Mouse,
            ACTION_BUTTON_PRESS,
            MotionButton::just(Button::Primary),
            &pointer_properties,
            MotionFlags::empty(),
            MotionButton::just(Button::Primary),
        )
        .is_ok());
}

#[test]
fn button_press_without_action_button() {
    let mut verifier = InputVerifier::new("Test", /*should_log*/ false);
    let pointer_properties = Vec::from([RustPointerProperties { id: 0 }]);
    assert!(verifier
        .process_movement(
            DeviceId(1),
            Source::Mouse,
            ACTION_BUTTON_PRESS,
            MotionButton::empty(),
            &pointer_properties,
            MotionFlags::empty(),
            MotionButton::empty(),
        )
        .is_err());
}

#[test]
fn button_press_with_multiple_action_buttons() {
    let mut verifier = InputVerifier::new("Test", /*should_log*/ false);
    let pointer_properties = Vec::from([RustPointerProperties { id: 0 }]);
    assert!(verifier
        .process_movement(
            DeviceId(1),
            Source::Mouse,
            ACTION_BUTTON_PRESS,
            MotionButton::just(Button::Back).union(MotionButton::just(Button::Forward)),
            &pointer_properties,
            MotionFlags::empty(),
            MotionButton::just(Button::Back).union(MotionButton::just(Button::Forward)),
        )
        .is_err());
}

#[test]
fn button_press_without_action_button_in_state() {
    let mut verifier = InputVerifier::new("Test", /*should_log*/ false);
    let pointer_properties = Vec::from([RustPointerProperties { id: 0 }]);
    assert!(verifier
        .process_movement(
            DeviceId(1),
            Source::Mouse,
            ACTION_BUTTON_PRESS,
            MotionButton::just(Button::Primary),
            &pointer_properties,
            MotionFlags::empty(),
            MotionButton::empty(),
        )
        .is_err());
}

#[test]
fn button_release_with_action_button_in_state() {
    let mut verifier = InputVerifier::new("Test", /*should_log*/ false);
    let pointer_properties = Vec::from([RustPointerProperties { id: 0 }]);
    assert!(verifier
        .process_movement(
            DeviceId(1),
            Source::Mouse,
            ACTION_BUTTON_PRESS,
            MotionButton::just(Button::Primary),
            &pointer_properties,
            MotionFlags::empty(),
            MotionButton::just(Button::Primary),
        )
        .is_ok());
    assert!(verifier
        .process_movement(
            DeviceId(1),
            Source::Mouse,
            ACTION_BUTTON_RELEASE,
            MotionButton::just(Button::Primary),
            &pointer_properties,
            MotionFlags::empty(),
            MotionButton::just(Button::Primary),
        )
        .is_err());
}

#[test]
fn nonbutton_action_with_action_button() {
    let mut verifier = InputVerifier::new("Test", /*should_log*/ false);
    let pointer_properties = Vec::from([RustPointerProperties { id: 0 }]);
    assert!(verifier
        .process_movement(
            DeviceId(1),
            Source::Mouse,
            ACTION_HOVER_ENTER,
            MotionButton::just(Button::Primary),
            &pointer_properties,
            MotionFlags::empty(),
            MotionButton::empty(),
        )
        .is_err());
}

#[test]
fn nonbutton_action_with_action_button_and_state() {
    let mut verifier = InputVerifier::new("Test", /*should_log*/ false);
    let pointer_properties = Vec::from([RustPointerProperties { id: 0 }]);
    assert!(verifier
        .process_movement(
            DeviceId(1),
            Source::Mouse,
            ACTION_HOVER_ENTER,
            MotionButton::just(Button::Primary),
            &pointer_properties,
            MotionFlags::empty(),
            MotionButton::just(Button::Primary),
        )
        .is_err());
}

#[test]
fn nonbutton_action_with_button_state_change() {
    let mut verifier = InputVerifier::new("Test", /*should_log*/ false);
    let pointer_properties = Vec::from([RustPointerProperties { id: 0 }]);
    assert!(verifier
        .process_movement(
            DeviceId(1),
            Source::Mouse,
            ACTION_HOVER_ENTER,
            MotionButton::empty(),
            &pointer_properties,
            MotionFlags::empty(),
            MotionButton::empty(),
        )
        .is_ok());
    assert!(verifier
        .process_movement(
            DeviceId(1),
            Source::Mouse,
            ACTION_HOVER_MOVE,
            MotionButton::empty(),
            &pointer_properties,
            MotionFlags::empty(),
            MotionButton::just(Button::Back),
        )
        .is_err());
}

#[test]
fn nonbutton_action_missing_button_state() {
    let mut verifier = InputVerifier::new("Test", /*should_log*/ false);
    let pointer_properties = Vec::from([RustPointerProperties { id: 0 }]);
    assert!(verifier
        .process_movement(
            DeviceId(1),
            Source::Mouse,
            ACTION_HOVER_ENTER,
            MotionButton::empty(),
            &pointer_properties,
            MotionFlags::empty(),
            MotionButton::empty(),
        )
        .is_ok());
    assert!(verifier
        .process_movement(
            DeviceId(1),
            Source::Mouse,
            ACTION_BUTTON_PRESS,
            MotionButton::just(Button::Back),
            &pointer_properties,
            MotionFlags::empty(),
            MotionButton::just(Button::Back),
        )
        .is_ok());
    assert!(verifier
        .process_movement(
            DeviceId(1),
            Source::Mouse,
            ACTION_HOVER_MOVE,
            MotionButton::empty(),
            &pointer_properties,
            MotionFlags::empty(),
            MotionButton::empty(),
        )
        .is_err());
}

#[test]
fn up_without_button_release() {
    let mut verifier = InputVerifier::new("Test", /*should_log*/ false);
    let pointer_properties = Vec::from([RustPointerProperties { id: 0 }]);
    assert!(verifier
        .process_movement(
            DeviceId(1),
            Source::Mouse,
            ACTION_DOWN,
            MotionButton::empty(),
            &pointer_properties,
            MotionFlags::empty(),
            MotionButton::just(Button::Primary),
        )
        .is_ok());
    assert!(verifier
        .process_movement(
            DeviceId(1),
            Source::Mouse,
            ACTION_BUTTON_PRESS,
            MotionButton::just(Button::Primary),
            &pointer_properties,
            MotionFlags::empty(),
            MotionButton::just(Button::Primary),
        )
        .is_ok());
    // This UP event shouldn't change the button state; a BUTTON_RELEASE
    // before it should.
    assert!(verifier
        .process_movement(
            DeviceId(1),
            Source::Mouse,
            ACTION_UP,
            MotionButton::empty(),
            &pointer_properties,
            MotionFlags::empty(),
            MotionButton::empty(),
        )
        .is_err());
}

#[test]
fn button_press_for_already_pressed_button() {
    let mut verifier = InputVerifier::new("Test", /*should_log*/ false);
    let pointer_properties = Vec::from([RustPointerProperties { id: 0 }]);
    assert!(verifier
        .process_movement(
            DeviceId(1),
            Source::Mouse,
            ACTION_BUTTON_PRESS,
            MotionButton::just(Button::Back),
            &pointer_properties,
            MotionFlags::empty(),
            MotionButton::just(Button::Back),
        )
        .is_ok());
    assert!(verifier
        .process_movement(
            DeviceId(1),
            Source::Mouse,
            ACTION_BUTTON_PRESS,
            MotionButton::just(Button::Back),
            &pointer_properties,
            MotionFlags::empty(),
            MotionButton::just(Button::Back),
        )
        .is_err());
}

#[test]
fn button_release_for_unpressed_button() {
    let mut verifier = InputVerifier::new("Test", /*should_log*/ false);
    let pointer_properties = Vec::from([RustPointerProperties { id: 0 }]);
    assert!(verifier
        .process_movement(
            DeviceId(1),
            Source::Mouse,
            ACTION_BUTTON_RELEASE,
            MotionButton::just(Button::Back),
            &pointer_properties,
            MotionFlags::empty(),
            MotionButton::empty(),
        )
        .is_err());
}

#[test]
fn correct_multiple_button_presses_without_down() {
    let mut verifier = InputVerifier::new("Test", /*should_log*/ false);
    let pointer_properties = Vec::from([RustPointerProperties { id: 0 }]);
    assert!(verifier
        .process_movement(
            DeviceId(1),
            Source::Mouse,
            ACTION_BUTTON_PRESS,
            MotionButton::just(Button::Back),
            &pointer_properties,
            MotionFlags::empty(),
            MotionButton::just(Button::Back),
        )
        .is_ok());
    assert!(verifier
        .process_movement(
            DeviceId(1),
            Source::Mouse,
            ACTION_BUTTON_PRESS,
            MotionButton::just(Button::Forward),
            &pointer_properties,
            MotionFlags::empty(),
            MotionButton::just(Button::Back).union(MotionButton::just(Button::Forward)),
        )
        .is_ok());
}

#[test]
fn correct_down_with_button_press() {
    let mut verifier = InputVerifier::new("Test", /*should_log*/ false);
    let pointer_properties = Vec::from([RustPointerProperties { id: 0 }]);
    assert!(verifier
        .process_movement(
            DeviceId(1),
            Source::Mouse,
            ACTION_DOWN,
            MotionButton::empty(),
            &pointer_properties,
            MotionFlags::empty(),
            MotionButton::just(Button::Primary).union(MotionButton::just(Button::Secondary)),
        )
        .is_ok());
    assert!(verifier
        .process_movement(
            DeviceId(1),
            Source::Mouse,
            ACTION_BUTTON_PRESS,
            MotionButton::just(Button::Primary),
            &pointer_properties,
            MotionFlags::empty(),
            MotionButton::just(Button::Primary),
        )
        .is_ok());
    assert!(verifier
        .process_movement(
            DeviceId(1),
            Source::Mouse,
            ACTION_BUTTON_PRESS,
            MotionButton::just(Button::Secondary),
            &pointer_properties,
            MotionFlags::empty(),
            MotionButton::just(Button::Primary).union(MotionButton::just(Button::Secondary)),
        )
        .is_ok());
    // Also check that the MOVE afterwards is OK, as that's where errors would
    // be raised if not enough BUTTON_PRESSes were sent.
    assert!(verifier
        .process_movement(
            DeviceId(1),
            Source::Mouse,
            ACTION_MOVE,
            MotionButton::empty(),
            &pointer_properties,
            MotionFlags::empty(),
            MotionButton::just(Button::Primary).union(MotionButton::just(Button::Secondary)),
        )
        .is_ok());
}

#[test]
fn down_with_button_state_change_not_followed_by_button_press() {
    let mut verifier = InputVerifier::new("Test", /*should_log*/ false);
    let pointer_properties = Vec::from([RustPointerProperties { id: 0 }]);
    assert!(verifier
        .process_movement(
            DeviceId(1),
            Source::Mouse,
            ACTION_DOWN,
            MotionButton::empty(),
            &pointer_properties,
            MotionFlags::empty(),
            MotionButton::just(Button::Primary),
        )
        .is_ok());
    // The DOWN event itself is OK, but it needs to be immediately followed by
    // a BUTTON_PRESS.
    assert!(verifier
        .process_movement(
            DeviceId(1),
            Source::Mouse,
            ACTION_MOVE,
            MotionButton::empty(),
            &pointer_properties,
            MotionFlags::empty(),
            MotionButton::just(Button::Primary),
        )
        .is_err());
}

#[test]
fn down_with_button_state_change_not_followed_by_enough_button_presses() {
    let mut verifier = InputVerifier::new("Test", /*should_log*/ false);
    let pointer_properties = Vec::from([RustPointerProperties { id: 0 }]);
    assert!(verifier
        .process_movement(
            DeviceId(1),
            Source::Mouse,
            ACTION_DOWN,
            MotionButton::empty(),
            &pointer_properties,
            MotionFlags::empty(),
            MotionButton::just(Button::Primary).union(MotionButton::just(Button::Secondary)),
        )
        .is_ok());
    // The DOWN event itself is OK, but it needs to be immediately followed by
    // two BUTTON_PRESSes, one for each button.
    assert!(verifier
        .process_movement(
            DeviceId(1),
            Source::Mouse,
            ACTION_BUTTON_PRESS,
            MotionButton::just(Button::Primary),
            &pointer_properties,
            MotionFlags::empty(),
            MotionButton::just(Button::Primary),
        )
        .is_ok());
    assert!(verifier
        .process_movement(
            DeviceId(1),
            Source::Mouse,
            ACTION_MOVE,
            MotionButton::empty(),
            &pointer_properties,
            MotionFlags::empty(),
            MotionButton::just(Button::Primary),
        )
        .is_err());
}

#[test]
fn down_missing_already_pressed_button() {
    let mut verifier = InputVerifier::new("Test", /*should_log*/ false);
    let pointer_properties = Vec::from([RustPointerProperties { id: 0 }]);
    assert!(verifier
        .process_movement(
            DeviceId(1),
            Source::Mouse,
            ACTION_BUTTON_PRESS,
            MotionButton::just(Button::Back),
            &pointer_properties,
            MotionFlags::empty(),
            MotionButton::just(Button::Back),
        )
        .is_ok());
    assert!(verifier
        .process_movement(
            DeviceId(1),
            Source::Mouse,
            ACTION_DOWN,
            MotionButton::empty(),
            &pointer_properties,
            MotionFlags::empty(),
            MotionButton::empty(),
        )
        .is_err());
}
