//! The per-device button state machine: tracks the confirmed button state and
//! the buttons a `DOWN` announced that still await their `BUTTON_PRESS`.

use vstd::prelude::*;

use crate::buttons::MotionButton;
use crate::events::MotionAction;

verus! {

/// Keeps track of the button state for a single device and verifies events
/// against it.
///
/// A `DOWN` event may include buttons in its declared state for which no
/// `BUTTON_PRESS` has been seen yet.  Such a `DOWN` must be immediately
/// followed by `BUTTON_PRESS` events for exactly those buttons, building up
/// to the state the `DOWN` declared.  Until then the extra buttons are held
/// in `pending_buttons` and the confirmed state is left unchanged.
#[derive(Clone, Copy, PartialEq, Eq, Structural, Debug)]
pub struct ButtonVerifier {
    /// The confirmed button state of the device: every button opened by a
    /// `BUTTON_PRESS` (or announced by a `DOWN` and confirmed since) and not
    /// yet closed by a `BUTTON_RELEASE`.
    pub button_state: MotionButton,
    /// The buttons announced by the last `DOWN` whose `BUTTON_PRESS` events
    /// are still owed.
    pub pending_buttons: MotionButton,
}

impl ButtonVerifier {
    /// The initial state: nothing held, nothing pending.
    pub open spec fn start() -> ButtonVerifier {
        ButtonVerifier {
            button_state: MotionButton::spec_empty(),
            pending_buttons: MotionButton::spec_empty(),
        }
    }

    /// A pending button is never already confirmed.
    pub open spec fn wf(self) -> bool {
        self.pending_buttons.spec_disjoint(self.button_state)
    }

    /// Whether one step of the state machine accepts the event.  `ab` is the
    /// event's action button, `s` its declared button state.
    ///
    /// * While buttons are pending, only a `ButtonPress` for pending buttons
    ///   is accepted.
    /// * `Down` must not drop an already-held button from its declared state.
    /// * `ButtonPress` must not press a held button, and must declare exactly
    ///   the old state plus the pressed button.
    /// * `ButtonRelease` must release a held button, and must declare exactly
    ///   the old state minus the released button.
    /// * Every other action must declare exactly the confirmed state.
    pub open spec fn step_ok(self, action: MotionAction, ab: MotionButton, s: MotionButton) -> bool {
        &&& (!self.pending_buttons.spec_is_empty() ==> action == MotionAction::ButtonPress
            && ab.spec_subset(self.pending_buttons))
        &&& match action {
            MotionAction::Down => self.button_state.spec_subset(s),
            MotionAction::ButtonPress => !ab.spec_subset(self.button_state) && s
                == self.button_state.spec_union(ab),
            MotionAction::ButtonRelease => ab.spec_subset(self.button_state) && s
                == self.button_state.spec_difference(ab),
            _ => s == self.button_state,
        }
    }

    /// The state after one accepted step.  `Down` defers the commit: the
    /// confirmed state stays and the widened buttons become pending; every
    /// other action commits the declared state and consumes the action button
    /// from the pending set.
    pub open spec fn step(self, action: MotionAction, ab: MotionButton, s: MotionButton) -> ButtonVerifier {
        if action == MotionAction::Down {
            ButtonVerifier {
                button_state: self.button_state,
                pending_buttons: s.spec_difference(self.button_state),
            }
        } else {
            ButtonVerifier {
                button_state: s,
                pending_buttons: self.pending_buttons.spec_difference(ab),
            }
        }
    }

    /// A fresh button verifier in the initial state.
    pub fn new() -> (r: ButtonVerifier)
        ensures
            r == ButtonVerifier::start(),
    {
        ButtonVerifier {
            button_state: MotionButton::empty(),
            pending_buttons: MotionButton::empty(),
        }
    }

    /// Runs one step of the button state machine.  On rejection the state is
    /// left untouched.
    pub fn process_action(
        &mut self,
        action: MotionAction,
        action_button: MotionButton,
        button_state: MotionButton,
    ) -> (r: Result<(), String>)
        requires
            old(self).wf(),
        ensures
            final(self).wf(),
            r is Ok <==> old(self).step_ok(action, action_button, button_state),
            r is Ok ==> *final(self) == old(self).step(action, action_button, button_state),
            r is Err ==> *final(self) == *old(self),
    {
        if !self.pending_buttons.is_empty() {
            // The last DOWN announced buttons in its state; it must be
            // immediately followed by BUTTON_PRESS events for those buttons.
            if action != MotionAction::ButtonPress || !self.pending_buttons.contains(action_button)
            {
                return Err(
                    "after DOWN, expected BUTTON_PRESS event(s) for the pending buttons".to_owned(),
                );
            }
        }
        let expected_state: MotionButton = match action {
            MotionAction::Down => {
                if !self.button_state.difference(button_state).is_empty() {
                    return Err("DOWN event button state is missing held buttons".to_owned());
                }
                // The state is not missing any already-down button, and extra
                // buttons are valid on DOWN, so the equality check below is a
                // no-op for this action.
                button_state
            },
            MotionAction::ButtonPress => {
                if self.button_state.contains(action_button) {
                    return Err(
                        "duplicate BUTTON_PRESS: the button state already contains the action button".to_owned(),
                    );
                }
                self.button_state.union(action_button)
            },
            MotionAction::ButtonRelease => {
                if !self.button_state.contains(action_button) {
                    return Err(
                        "invalid BUTTON_RELEASE: the button state does not contain the action button".to_owned(),
                    );
                }
                self.button_state.difference(action_button)
            },
            _ => self.button_state,
        };
        if button_state != expected_state {
            return Err("the declared button state is not the expected state".to_owned());
        }
        // DOWN events can have pending buttons, so the commit is deferred for
        // them: the confirmed state is unchanged until the presses arrive.
        if action == MotionAction::Down {
            self.pending_buttons = button_state.difference(self.button_state);
        } else {
            self.pending_buttons = self.pending_buttons.difference(action_button);
            self.button_state = button_state;
        }
        Ok(())
    }
}

/// Law: the pending set is empty except between a `Down` that widened the
/// state and the completion of its `ButtonPress` sequence.  One accepted step
/// can make the pending set non-empty only if the action was that `Down` (it
/// pends exactly the widened buttons), or if it was already non-empty, in
/// which case only a `ButtonPress` is accepted and it consumes its action
/// button from the set.
pub proof fn lemma_pending_lifecycle(
    b: ButtonVerifier,
    action: MotionAction,
    ab: MotionButton,
    s: MotionButton,
)
    requires
        b.step_ok(action, ab, s),
    ensures
        action != MotionAction::Down && b.pending_buttons.spec_is_empty()
            ==> b.step(action, ab, s).pending_buttons.spec_is_empty(),
        action == MotionAction::Down ==> b.step(action, ab, s).pending_buttons
            == s.spec_difference(b.button_state),
        !b.pending_buttons.spec_is_empty() ==> action == MotionAction::ButtonPress && b.step(
            action,
            ab,
            s,
        ).pending_buttons == b.pending_buttons.spec_difference(ab),
{
}

/// Law: the confirmed set never contains a button that was not declared in
/// the last successful event's button state.  After an accepted step the
/// confirmed set is exactly the declared state, except for `Down`, which
/// leaves the confirmed set unchanged, and even then the declared state still
/// contains every confirmed button.
pub proof fn lemma_confirmed_from_declared(
    b: ButtonVerifier,
    action: MotionAction,
    ab: MotionButton,
    s: MotionButton,
)
    requires
        b.step_ok(action, ab, s),
    ensures
        action != MotionAction::Down ==> b.step(action, ab, s).button_state == s,
        action == MotionAction::Down ==> b.step(action, ab, s).button_state == b.button_state
            && b.button_state.spec_subset(s),
{
}

} // verus!
