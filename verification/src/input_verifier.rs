//! The top-level verifier: owns the per-device state machines and dispatches
//! each incoming event through the single-event checker, the button verifier
//! and the pointer verifier.

use std::collections::HashMap;
use std::collections::HashSet;

use vstd::prelude::*;

use crate::button_state::ButtonVerifier;
use crate::buttons::MotionButton;
use crate::diag::prefixed;
use crate::events::decode_action;
use crate::events::event_valid;
use crate::events::spec_decode_action;
use crate::events::verify_event;
use crate::events::DeviceId;
use crate::events::MotionAction;
use crate::events::MotionFlags;
use crate::events::RustPointerProperties;
use crate::events::Source;
use crate::events::SourceClass;
use crate::pointer_state::hovering_after;
use crate::pointer_state::ids_match;
use crate::pointer_state::pointer_ok;
use crate::pointer_state::touching_after;

verus! {

broadcast use vstd::std_specs::hash::group_hash_axioms;

/// Validates a stream of input events, device by device.
pub struct InputVerifier {
    name: String,
    should_log: bool,
    touching_pointer_ids_by_device: HashMap<i32, HashSet<i32>>,
    hovering_pointer_ids_by_device: HashMap<i32, HashSet<i32>>,
    button_verifier_by_device: HashMap<i32, ButtonVerifier>,
}

impl InputVerifier {
    /// The set of pointers touching on device `d`, or `None` while no touch
    /// gesture is active.
    pub closed spec fn touching(self, d: i32) -> Option<Set<i32>> {
        if self.touching_pointer_ids_by_device@.contains_key(d) {
            Some(self.touching_pointer_ids_by_device@[d]@)
        } else {
            None
        }
    }

    /// The set of pointers hovering over device `d`, or `None` while none
    /// hovers.
    pub closed spec fn hovering(self, d: i32) -> Option<Set<i32>> {
        if self.hovering_pointer_ids_by_device@.contains_key(d) {
            Some(self.hovering_pointer_ids_by_device@[d]@)
        } else {
            None
        }
    }

    /// The button state machine of device `d`.  A device that was never
    /// mentioned is in the initial state.
    pub closed spec fn buttons(self, d: i32) -> ButtonVerifier {
        if self.button_verifier_by_device@.contains_key(d) {
            self.button_verifier_by_device@[d]
        } else {
            ButtonVerifier::start()
        }
    }

    /// The verifier's human-readable name, used in diagnostics.
    pub closed spec fn spec_name(self) -> Seq<char> {
        self.name@
    }

    /// Whether the caller asked for verbose logging.
    pub closed spec fn verbose(self) -> bool {
        self.should_log
    }

    /// Device `d` is in the state it would have had it never been mentioned.
    pub open spec fn device_fresh(self, d: i32) -> bool {
        &&& self.touching(d) is None
        &&& self.hovering(d) is None
        &&& self.buttons(d) == ButtonVerifier::start()
    }

    /// Internal validity of device `d`'s state: the pointer sets are finite,
    /// a present hovering set is never empty, and the button machine is
    /// well-formed.
    pub open spec fn device_inv(self, d: i32) -> bool {
        &&& (self.touching(d) matches Some(s) ==> s.finite())
        &&& (self.hovering(d) matches Some(s) ==> s.finite() && s.len() >= 1)
        &&& self.buttons(d).wf()
    }

    /// Internal validity of the verifier: every device's state is valid.
    pub open spec fn wf(self) -> bool {
        forall|d: i32| self.device_inv(d)
    }

    /// Creates a new verifier with no per-device state.
    pub fn new(name: &str, should_log: bool) -> (v: InputVerifier)
        ensures
            v.wf(),
            forall|d: i32| v.device_fresh(d),
            v.spec_name() == name@,
            v.verbose() == should_log,
    {
        InputVerifier {
            name: name.to_owned(),
            should_log,
            touching_pointer_ids_by_device: HashMap::new(),
            hovering_pointer_ids_by_device: HashMap::new(),
            button_verifier_by_device: HashMap::new(),
        }
    }

    /// Processes one pointer movement event.
    ///
    /// Events from sources outside the `Pointer` class are accepted without
    /// touching any state.  For pointer sources the event passes, in order,
    /// the event-local well-formedness check, the button state machine and
    /// the pointer state machine; each event is a transaction, so a rejected
    /// event leaves the verifier exactly as it was.
    pub fn process_movement(
        &mut self,
        device_id: DeviceId,
        source: Source,
        action: u32,
        action_button: MotionButton,
        pointer_properties: &[RustPointerProperties],
        flags: MotionFlags,
        button_state: MotionButton,
    ) -> (r: Result<(), String>)
        requires
            old(self).wf(),
        ensures
            final(self).wf(),
            final(self).spec_name() == old(self).spec_name(),
            final(self).verbose() == old(self).verbose(),
            source.class() != SourceClass::Pointer ==> r is Ok && *final(self) == *old(self),
            source.class() == SourceClass::Pointer ==> ({
                let a = spec_decode_action(action);
                let d = device_id.0;
                &&& (r is Ok <==> event_valid(a, action_button, pointer_properties@, flags)
                    && old(self).buttons(d).step_ok(a, action_button, button_state) && pointer_ok(
                    old(self).touching(d),
                    old(self).hovering(d),
                    a,
                    pointer_properties@,
                ))
                &&& (r is Err ==> *final(self) == *old(self))
                &&& (r is Ok ==> {
                    &&& final(self).buttons(d) == old(self).buttons(d).step(
                        a,
                        action_button,
                        button_state,
                    )
                    &&& final(self).touching(d) == touching_after(
                        old(self).touching(d),
                        a,
                        pointer_properties@,
                    )
                    &&& final(self).hovering(d) == hovering_after(
                        old(self).hovering(d),
                        a,
                        pointer_properties@,
                    )
                    &&& forall|d2: i32|
                        d2 != d ==> device_unchanged(*old(self), *final(self), d2)
                })
            }),
    {
        if !source.is_from_class(SourceClass::Pointer) {
            // Non-pointer sources (such as relative mice during pointer
            // capture) are not verified.
            return Ok(());
        }
        let action_decoded = decode_action(action);
        match verify_event(action_decoded, action_button, pointer_properties, &flags) {
            Err(e) => {
                return Err(e);
            },
            Ok(()) => {},
        }
        let d = device_id.0;
        let mut bv: ButtonVerifier = match self.button_verifier_by_device.get(&d) {
            Some(b) => *b,
            None => ButtonVerifier::new(),
        };
        assert(bv == old(self).buttons(d));
        assert(old(self).device_inv(d));
        match bv.process_action(action_decoded, action_button, button_state) {
            Err(e) => {
                return Err(e);
            },
            Ok(()) => {},
        }
        match self.pointer_step(device_id, action_decoded, pointer_properties) {
            Err(e) => {
                return Err(e);
            },
            Ok(()) => {},
        }
        let ghost mid = *self;
        self.button_verifier_by_device.insert(d, bv);
        proof {
            assert forall|d2: i32| self.device_inv(d2) by {
                assert(mid.device_inv(d2));
                assert(self.touching(d2) == mid.touching(d2));
                assert(self.hovering(d2) == mid.hovering(d2));
                if d2 == d {
                    assert(self.buttons(d2) == bv);
                } else {
                    assert(self.buttons(d2) == mid.buttons(d2));
                }
            }
            assert(self.buttons(d) == old(self).buttons(d).step(
                spec_decode_action(action),
                action_button,
                button_state,
            ));
            assert forall|d2: i32| d2 != d implies device_unchanged(*old(self), *self, d2) by {
                assert(device_unchanged(*old(self), mid, d2));
                assert(self.buttons(d2) == mid.buttons(d2));
            }
        }
        Ok(())
    }

    /// Erases every trace of `device_id`: afterwards the device is in the
    /// state it would have had it never been mentioned, and no other device
    /// is affected.  Subsequent events from the device start a new gesture.
    pub fn reset_device(&mut self, device_id: DeviceId)
        requires
            old(self).wf(),
        ensures
            final(self).wf(),
            final(self).device_fresh(device_id.0),
            forall|d2: i32|
                d2 != device_id.0 ==> device_unchanged(*old(self), *final(self), d2),
            final(self).spec_name() == old(self).spec_name(),
            final(self).verbose() == old(self).verbose(),
    {
        self.touching_pointer_ids_by_device.remove(&device_id.0);
        self.hovering_pointer_ids_by_device.remove(&device_id.0);
        self.button_verifier_by_device.remove(&device_id.0);
        assert forall|d2: i32| self.device_inv(d2) by {
            assert(old(self).device_inv(d2));
        }
    }

    /// The touching set of the device matches the event's descriptors: same
    /// count, and every descriptor's pointer is touching.
    fn ensure_touching_pointers_match(
        &self,
        device_id: DeviceId,
        pointer_properties: &[RustPointerProperties],
    ) -> (r: bool)
        ensures
            r == ids_match(self.touching(device_id.0), pointer_properties@),
    {
        let pointers = match self.touching_pointer_ids_by_device.get(&device_id.0) {
            None => {
                return false;
            },
            Some(p) => p,
        };
        if pointers.len() != pointer_properties.len() {
            return false;
        }
        let n = pointer_properties.len();
        let mut i: usize = 0;
        while i < n
            invariant
                n == pointer_properties@.len(),
                0 <= i <= n,
                pointers@ == self.touching(device_id.0).unwrap(),
                forall|k: int| 0 <= k < i ==> pointers@.contains(#[trigger] pointer_properties@[k].id),
            decreases n - i,
        {
            if !pointers.contains(&pointer_properties[i].id) {
                return false;
            }
            i = i + 1;
        }
        true
    }

    /// One step of the pointer state machine for `device_id`, applied to the
    /// maps.  Mutates only on acceptance.
    fn pointer_step(
        &mut self,
        device_id: DeviceId,
        action: MotionAction,
        pointer_properties: &[RustPointerProperties],
    ) -> (r: Result<(), String>)
        requires
            old(self).wf(),
            pointer_properties@.len() >= 1,
            action matches MotionAction::PointerDown { action_index } ==> action_index
                < pointer_properties@.len(),
            action matches MotionAction::PointerUp { action_index } ==> action_index
                < pointer_properties@.len(),
        ensures
            final(self).wf(),
            r is Ok <==> pointer_ok(
                old(self).touching(device_id.0),
                old(self).hovering(device_id.0),
                action,
                pointer_properties@,
            ),
            r is Ok ==> final(self).touching(device_id.0) == touching_after(
                old(self).touching(device_id.0),
                action,
                pointer_properties@,
            ),
            r is Ok ==> final(self).hovering(device_id.0) == hovering_after(
                old(self).hovering(device_id.0),
                action,
                pointer_properties@,
            ),
            forall|d2: i32| final(self).buttons(d2) == old(self).buttons(d2),
            forall|d2: i32|
                d2 != device_id.0 ==> device_unchanged(*old(self), *final(self), d2),
            final(self).spec_name() == old(self).spec_name(),
            final(self).verbose() == old(self).verbose(),
            r is Err ==> *final(self) == *old(self),
    {
        let d = device_id.0;
        let ghost t0 = old(self).touching(d);
        let ghost h0 = old(self).hovering(d);
        match action {
            MotionAction::Down => {
                if self.touching_pointer_ids_by_device.contains_key(&d) {
                    return Err(
                        prefixed(
                            self.name.as_str(),
                            "invalid DOWN event: pointers are already down for the device",
                        ),
                    );
                }
                let mut set: HashSet<i32> = HashSet::new();
                set.insert(pointer_properties[0].id);
                self.touching_pointer_ids_by_device.insert(d, set);
                assert(self.touching(d) == touching_after(t0, action, pointer_properties@));
                assert forall|d2: i32| self.device_inv(d2) by {
                    assert(old(self).device_inv(d2));
                }
                Ok(())
            },
            MotionAction::PointerDown { action_index } => {
                let pointer_id = pointer_properties[action_index].id;
                match self.touching_pointer_ids_by_device.get(&d) {
                    None => {
                        return Err(
                            prefixed(
                                self.name.as_str(),
                                "received POINTER_DOWN but no pointers are currently down for the device",
                            ),
                        );
                    },
                    Some(it) => {
                        if it.len() != pointer_properties.len() - 1 {
                            return Err(
                                prefixed(
                                    self.name.as_str(),
                                    "the count of currently touching pointers does not fit the incoming POINTER_DOWN event",
                                ),
                            );
                        }
                        if it.contains(&pointer_id) {
                            return Err(
                                prefixed(
                                    self.name.as_str(),
                                    "a pointer with the same id is already present",
                                ),
                            );
                        }
                    },
                }
                let mut set = self.touching_pointer_ids_by_device.remove(&d).unwrap();
                set.insert(pointer_id);
                self.touching_pointer_ids_by_device.insert(d, set);
                assert(self.touching(d) == touching_after(t0, action, pointer_properties@));
                assert forall|d2: i32| self.device_inv(d2) by {
                    assert(old(self).device_inv(d2));
                }
                Ok(())
            },
            MotionAction::Move => {
                if !self.ensure_touching_pointers_match(device_id, pointer_properties) {
                    return Err(
                        prefixed(self.name.as_str(), "ACTION_MOVE touching pointers don't match"),
                    );
                }
                Ok(())
            },
            MotionAction::PointerUp { action_index } => {
                if !self.ensure_touching_pointers_match(device_id, pointer_properties) {
                    return Err(
                        prefixed(
                            self.name.as_str(),
                            "ACTION_POINTER_UP touching pointers don't match",
                        ),
                    );
                }
                let pointer_id = pointer_properties[action_index].id;
                let mut set = self.touching_pointer_ids_by_device.remove(&d).unwrap();
                set.remove(&pointer_id);
                self.touching_pointer_ids_by_device.insert(d, set);
                assert(self.touching(d) == touching_after(t0, action, pointer_properties@));
                assert forall|d2: i32| self.device_inv(d2) by {
                    assert(old(self).device_inv(d2));
                }
                Ok(())
            },
            MotionAction::Up => {
                match self.touching_pointer_ids_by_device.get(&d) {
                    None => {
                        return Err(
                            prefixed(
                                self.name.as_str(),
                                "received ACTION_UP but no pointers are currently down for the device",
                            ),
                        );
                    },
                    Some(it) => {
                        if it.len() != 1 {
                            return Err(
                                prefixed(
                                    self.name.as_str(),
                                    "got ACTION_UP while several pointers are touching the device",
                                ),
                            );
                        }
                        if !it.contains(&pointer_properties[0].id) {
                            return Err(
                                prefixed(
                                    self.name.as_str(),
                                    "got ACTION_UP for a pointer that is not touching",
                                ),
                            );
                        }
                    },
                }
                self.touching_pointer_ids_by_device.remove(&d);
                assert forall|d2: i32| self.device_inv(d2) by {
                    assert(old(self).device_inv(d2));
                }
                Ok(())
            },
            MotionAction::Cancel => {
                if !self.ensure_touching_pointers_match(device_id, pointer_properties) {
                    return Err(
                        prefixed(
                            self.name.as_str(),
                            "got ACTION_CANCEL, but the pointers don't match the existing ones",
                        ),
                    );
                }
                self.touching_pointer_ids_by_device.remove(&d);
                assert forall|d2: i32| self.device_inv(d2) by {
                    assert(old(self).device_inv(d2));
                }
                Ok(())
            },
            MotionAction::HoverEnter => {
                if self.hovering_pointer_ids_by_device.contains_key(&d) {
                    return Err(
                        prefixed(
                            self.name.as_str(),
                            "invalid HOVER_ENTER event: pointers are already hovering for the device",
                        ),
                    );
                }
                let mut set: HashSet<i32> = HashSet::new();
                set.insert(pointer_properties[0].id);
                self.hovering_pointer_ids_by_device.insert(d, set);
                assert(self.hovering(d) == hovering_after(h0, action, pointer_properties@));
                assert forall|d2: i32| self.device_inv(d2) by {
                    assert(old(self).device_inv(d2));
                }
                Ok(())
            },
            MotionAction::HoverMove => {
                // For compatibility, HOVER_MOVE without a prior HOVER_ENTER
                // just starts a new hovering pointer.
                let mut set = match self.hovering_pointer_ids_by_device.remove(&d) {
                    Some(s) => s,
                    None => HashSet::new(),
                };
                set.insert(pointer_properties[0].id);
                self.hovering_pointer_ids_by_device.insert(d, set);
                assert(self.hovering(d) == hovering_after(h0, action, pointer_properties@));
                assert forall|d2: i32| self.device_inv(d2) by {
                    assert(old(self).device_inv(d2));
                }
                Ok(())
            },
            MotionAction::HoverExit => {
                match self.hovering_pointer_ids_by_device.get(&d) {
                    None => {
                        return Err(
                            prefixed(
                                self.name.as_str(),
                                "invalid HOVER_EXIT event: no pointers are hovering for the device",
                            ),
                        );
                    },
                    Some(it) => {
                        if !it.contains(&pointer_properties[0].id) {
                            return Err(
                                prefixed(
                                    self.name.as_str(),
                                    "got HOVER_EXIT for a pointer that is not hovering",
                                ),
                            );
                        }
                        if it.len() != 1 {
                            return Err(
                                prefixed(
                                    self.name.as_str(),
                                    "removed the hovering pointer, but pointers are still hovering for the device",
                                ),
                            );
                        }
                    },
                }
                self.hovering_pointer_ids_by_device.remove(&d);
                assert forall|d2: i32| self.device_inv(d2) by {
                    assert(old(self).device_inv(d2));
                }
                Ok(())
            },
            _ => Ok(()),
        }
    }
}

/// Device `d` has the same state in `pre` and `post`.
pub open spec fn device_unchanged(pre: InputVerifier, post: InputVerifier, d: i32) -> bool {
    &&& post.touching(d) == pre.touching(d)
    &&& post.hovering(d) == pre.hovering(d)
    &&& post.buttons(d) == pre.buttons(d)
}

/// Law: devices are treated identically and independently.  Two devices
/// (here: of two verifiers, or the same one) whose per-device state is equal
/// are given the same verdict on the same event and move to structurally
/// identical states; together with `process_movement`'s guarantee that an
/// event leaves every other device unchanged, identical event sequences on
/// two devices produce independent, structurally identical states.
pub proof fn lemma_device_isolation(
    v1: InputVerifier,
    v2: InputVerifier,
    d1: i32,
    d2: i32,
    action: MotionAction,
    action_button: MotionButton,
    button_state: MotionButton,
    pp: Seq<RustPointerProperties>,
)
    requires
        v1.touching(d1) == v2.touching(d2),
        v1.hovering(d1) == v2.hovering(d2),
        v1.buttons(d1) == v2.buttons(d2),
    ensures
        pointer_ok(v1.touching(d1), v1.hovering(d1), action, pp) == pointer_ok(
            v2.touching(d2),
            v2.hovering(d2),
            action,
            pp,
        ),
        touching_after(v1.touching(d1), action, pp) == touching_after(
            v2.touching(d2),
            action,
            pp,
        ),
        hovering_after(v1.hovering(d1), action, pp) == hovering_after(
            v2.hovering(d2),
            action,
            pp,
        ),
        v1.buttons(d1).step_ok(action, action_button, button_state) == v2.buttons(d2).step_ok(
            action,
            action_button,
            button_state,
        ),
        v1.buttons(d1).step(action, action_button, button_state) == v2.buttons(d2).step(
            action,
            action_button,
            button_state,
        ),
{
}

} // verus!
