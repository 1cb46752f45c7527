//! The event model: devices, sources, pointer descriptors, motion flags,
//! logical actions and their decoding from the packed action word, and the
//! event-local well-formedness check that runs before any state is consulted.

use vstd::prelude::*;

use crate::buttons::MotionButton;

verus! {

/// Opaque tag of one input device.  Distinct devices have fully independent
/// verifier state.
#[derive(Clone, Copy, PartialEq, Eq, Structural, Hash, Debug)]
pub struct DeviceId(pub i32);

/// One pointer descriptor carried by an event; position in the descriptor
/// sequence is the pointer index.
#[derive(Clone, Copy, PartialEq, Eq, Structural, Debug)]
pub struct RustPointerProperties {
    pub id: i32,
}

/// Motion flags of one event.  Only `canceled` matters to the verifier; all
/// other flags pass through it untouched.
#[derive(Clone, Copy, PartialEq, Eq, Structural, Debug)]
pub struct MotionFlags {
    pub canceled: bool,
}

impl MotionFlags {
    /// The flag set with no flag raised.
    pub fn empty() -> (r: MotionFlags)
        ensures
            !r.canceled,
    {
        MotionFlags { canceled: false }
    }

    /// The flag set holding exactly the cancellation flag.
    pub fn canceled() -> (r: MotionFlags)
        ensures
            r.canceled,
    {
        MotionFlags { canceled: true }
    }
}

/// Coarse grouping of input devices.  The verifier engages only for sources
/// of the `Pointer` class.
#[derive(Clone, Copy, PartialEq, Eq, Structural, Debug)]
pub enum SourceClass {
    NoClass,
    Button,
    Pointer,
    Navigation,
    Position,
    Joystick,
}

/// The kind of input device an event came from.
#[derive(Clone, Copy, PartialEq, Eq, Structural, Debug)]
pub enum Source {
    Keyboard,
    Dpad,
    Gamepad,
    Touchscreen,
    Mouse,
    Stylus,
    BluetoothStylus,
    Trackball,
    MouseRelative,
    Touchpad,
    TouchNavigation,
    Joystick,
    RotaryEncoder,
}

impl Source {
    /// The class each source belongs to.
    pub open spec fn class(self) -> SourceClass {
        match self {
            Source::Keyboard => SourceClass::Button,
            Source::Dpad => SourceClass::Button,
            Source::Gamepad => SourceClass::Button,
            Source::Touchscreen => SourceClass::Pointer,
            Source::Mouse => SourceClass::Pointer,
            Source::Stylus => SourceClass::Pointer,
            Source::BluetoothStylus => SourceClass::Pointer,
            Source::Trackball => SourceClass::Navigation,
            Source::MouseRelative => SourceClass::Navigation,
            Source::Touchpad => SourceClass::Position,
            Source::TouchNavigation => SourceClass::NoClass,
            Source::Joystick => SourceClass::Joystick,
            Source::RotaryEncoder => SourceClass::NoClass,
        }
    }

    pub fn source_class(self) -> (c: SourceClass)
        ensures
            c == self.class(),
    {
        match self {
            Source::Keyboard => SourceClass::Button,
            Source::Dpad => SourceClass::Button,
            Source::Gamepad => SourceClass::Button,
            Source::Touchscreen => SourceClass::Pointer,
            Source::Mouse => SourceClass::Pointer,
            Source::Stylus => SourceClass::Pointer,
            Source::BluetoothStylus => SourceClass::Pointer,
            Source::Trackball => SourceClass::Navigation,
            Source::MouseRelative => SourceClass::Navigation,
            Source::Touchpad => SourceClass::Position,
            Source::TouchNavigation => SourceClass::NoClass,
            Source::Joystick => SourceClass::Joystick,
            Source::RotaryEncoder => SourceClass::NoClass,
        }
    }

    pub fn is_from_class(self, class: SourceClass) -> (r: bool)
        ensures
            r == (self.class() == class),
    {
        self.source_class() == class
    }
}

/// Packed action kind constants, following the platform input ABI.
pub const ACTION_DOWN: u32 = 0;

pub const ACTION_UP: u32 = 1;

pub const ACTION_MOVE: u32 = 2;

pub const ACTION_CANCEL: u32 = 3;

pub const ACTION_OUTSIDE: u32 = 4;

pub const ACTION_POINTER_DOWN: u32 = 5;

pub const ACTION_POINTER_UP: u32 = 6;

pub const ACTION_HOVER_MOVE: u32 = 7;

pub const ACTION_SCROLL: u32 = 8;

pub const ACTION_HOVER_ENTER: u32 = 9;

pub const ACTION_HOVER_EXIT: u32 = 10;

pub const ACTION_BUTTON_PRESS: u32 = 11;

pub const ACTION_BUTTON_RELEASE: u32 = 12;

/// Mask of the bits of the packed action word that hold the action kind.
pub const ACTION_MASK: u32 = 0xff;

/// Mask of the bits of the packed action word that hold the pointer index of
/// a `PointerDown` or `PointerUp`.
pub const ACTION_POINTER_INDEX_MASK: u32 = 0xff00;

/// How far the pointer index is shifted within the packed action word.
pub const ACTION_POINTER_INDEX_SHIFT: u32 = 8;

/// A fully decoded logical action.
#[derive(Clone, Copy, PartialEq, Eq, Structural, Debug)]
pub enum MotionAction {
    Down,
    Up,
    Move,
    Cancel,
    Outside,
    PointerDown { action_index: usize },
    PointerUp { action_index: usize },
    HoverMove,
    Scroll,
    HoverEnter,
    HoverExit,
    ButtonPress,
    ButtonRelease,
    /// An action kind this library does not know.  Every state-machine branch
    /// falls through without mutation, so such events are accepted (forward
    /// compatibility with future action codes).
    Unknown,
}

/// The pointer index packed into an action word.
pub open spec fn spec_action_index(raw: u32) -> usize {
    (((raw & ACTION_POINTER_INDEX_MASK) >> ACTION_POINTER_INDEX_SHIFT) as usize)
}

/// The logical action encoded by a packed 32-bit action word: the low bits
/// hold the action kind; for `PointerDown` and `PointerUp` the next bits hold
/// the pointer index.
pub open spec fn spec_decode_action(raw: u32) -> MotionAction {
    let kind = raw & ACTION_MASK;
    if kind == ACTION_DOWN {
        MotionAction::Down
    } else if kind == ACTION_UP {
        MotionAction::Up
    } else if kind == ACTION_MOVE {
        MotionAction::Move
    } else if kind == ACTION_CANCEL {
        MotionAction::Cancel
    } else if kind == ACTION_OUTSIDE {
        MotionAction::Outside
    } else if kind == ACTION_POINTER_DOWN {
        MotionAction::PointerDown { action_index: spec_action_index(raw) }
    } else if kind == ACTION_POINTER_UP {
        MotionAction::PointerUp { action_index: spec_action_index(raw) }
    } else if kind == ACTION_HOVER_MOVE {
        MotionAction::HoverMove
    } else if kind == ACTION_SCROLL {
        MotionAction::Scroll
    } else if kind == ACTION_HOVER_ENTER {
        MotionAction::HoverEnter
    } else if kind == ACTION_HOVER_EXIT {
        MotionAction::HoverExit
    } else if kind == ACTION_BUTTON_PRESS {
        MotionAction::ButtonPress
    } else if kind == ACTION_BUTTON_RELEASE {
        MotionAction::ButtonRelease
    } else {
        MotionAction::Unknown
    }
}

pub fn decode_action(raw: u32) -> (a: MotionAction)
    ensures
        a == spec_decode_action(raw),
{
    let kind = raw & ACTION_MASK;
    let index = (((raw & ACTION_POINTER_INDEX_MASK) >> ACTION_POINTER_INDEX_SHIFT) as usize);
    if kind == ACTION_DOWN {
        MotionAction::Down
    } else if kind == ACTION_UP {
        MotionAction::Up
    } else if kind == ACTION_MOVE {
        MotionAction::Move
    } else if kind == ACTION_CANCEL {
        MotionAction::Cancel
    } else if kind == ACTION_OUTSIDE {
        MotionAction::Outside
    } else if kind == ACTION_POINTER_DOWN {
        MotionAction::PointerDown { action_index: index }
    } else if kind == ACTION_POINTER_UP {
        MotionAction::PointerUp { action_index: index }
    } else if kind == ACTION_HOVER_MOVE {
        MotionAction::HoverMove
    } else if kind == ACTION_SCROLL {
        MotionAction::Scroll
    } else if kind == ACTION_HOVER_ENTER {
        MotionAction::HoverEnter
    } else if kind == ACTION_HOVER_EXIT {
        MotionAction::HoverExit
    } else if kind == ACTION_BUTTON_PRESS {
        MotionAction::ButtonPress
    } else if kind == ACTION_BUTTON_RELEASE {
        MotionAction::ButtonRelease
    } else {
        MotionAction::Unknown
    }
}

/// Event-local well-formedness, checked before any per-device state:
///
/// 1. the descriptor sequence has at least one entry;
/// 2. a non-empty action button requires a button action;
/// 3. `Down`, `Up` and the hover actions carry exactly one descriptor;
/// 4. `Cancel` must carry the cancellation flag;
/// 5. the pointer index of `PointerDown` / `PointerUp` is in range;
/// 6. a button action names exactly one action button.
pub open spec fn event_valid(
    action: MotionAction,
    action_button: MotionButton,
    pointers: Seq<RustPointerProperties>,
    flags: MotionFlags,
) -> bool {
    &&& pointers.len() >= 1
    &&& (!action_button.spec_is_empty() ==> action == MotionAction::ButtonPress || action
        == MotionAction::ButtonRelease)
    &&& match action {
        MotionAction::Down
        | MotionAction::HoverEnter
        | MotionAction::HoverExit
        | MotionAction::HoverMove
        | MotionAction::Up => pointers.len() == 1,
        MotionAction::Cancel => flags.canceled,
        MotionAction::PointerDown { action_index } => action_index < pointers.len(),
        MotionAction::PointerUp { action_index } => action_index < pointers.len(),
        MotionAction::ButtonPress | MotionAction::ButtonRelease => action_button.spec_count() == 1,
        _ => true,
    }
}

/// Checks a single event for well-formedness, independent of any state.
pub fn verify_event(
    action: MotionAction,
    action_button: MotionButton,
    pointer_properties: &[RustPointerProperties],
    flags: &MotionFlags,
) -> (r: Result<(), String>)
    ensures
        r is Ok <==> event_valid(action, action_button, pointer_properties@, *flags),
{
    let pointer_count = pointer_properties.len();
    if pointer_count < 1 {
        return Err("invalid event: no pointers".to_owned());
    }
    if !action_button.is_empty() && action != MotionAction::ButtonPress && action
        != MotionAction::ButtonRelease {
        return Err("invalid event: has an action button but is not a button action".to_owned());
    }
    match action {
        MotionAction::Down
        | MotionAction::HoverEnter
        | MotionAction::HoverExit
        | MotionAction::HoverMove
        | MotionAction::Up => {
            if pointer_count != 1 {
                return Err(
                    "invalid event: the action takes exactly one pointer, but the event has another count".to_owned(),
                );
            }
        },
        MotionAction::Cancel => {
            if !flags.canceled {
                return Err("for CANCEL, the CANCELED flag must be set".to_owned());
            }
        },
        MotionAction::PointerDown { action_index } | MotionAction::PointerUp { action_index } => {
            if action_index >= pointer_count {
                return Err(
                    "invalid event: the action index is outside the pointers of the event".to_owned(),
                );
            }
        },
        MotionAction::ButtonPress | MotionAction::ButtonRelease => {
            let button_count = action_button.count();
            if button_count != 1 {
                return Err(
                    "invalid event: a button action must name a single action button".to_owned(),
                );
            }
        },
        _ => {},
    }
    Ok(())
}

} // verus!
