//! Validates streams of pointer-like input events.
//!
//! For every event handed to [`input_verifier::InputVerifier::process_movement`], the
//! library decides whether the event is consistent with the history of events
//! previously seen on the same input device.  Inconsistent events are rejected
//! with a diagnostic string, so that misbehaving event producers can be caught
//! instead of silently corrupting downstream consumers.

pub mod button_state;
pub mod buttons;
pub mod diag;
pub mod events;
pub mod pointer_state;
pub mod input_verifier;

pub use crate::button_state::ButtonVerifier;
pub use crate::input_verifier::InputVerifier;

pub use crate::buttons::Button;
pub use crate::buttons::MotionButton;
pub use crate::events::DeviceId;
pub use crate::events::MotionAction;
pub use crate::events::MotionFlags;
pub use crate::events::RustPointerProperties;
pub use crate::events::Source;
pub use crate::events::SourceClass;
pub use crate::events::ACTION_BUTTON_PRESS;
pub use crate::events::ACTION_BUTTON_RELEASE;
pub use crate::events::ACTION_CANCEL;
pub use crate::events::ACTION_DOWN;
pub use crate::events::ACTION_HOVER_ENTER;
pub use crate::events::ACTION_HOVER_EXIT;
pub use crate::events::ACTION_HOVER_MOVE;
pub use crate::events::ACTION_MOVE;
pub use crate::events::ACTION_OUTSIDE;
pub use crate::events::ACTION_POINTER_DOWN;
pub use crate::events::ACTION_POINTER_INDEX_SHIFT;
pub use crate::events::ACTION_POINTER_UP;
pub use crate::events::ACTION_SCROLL;
pub use crate::events::ACTION_UP;
pub use crate::events::decode_action;
pub use crate::events::verify_event;
