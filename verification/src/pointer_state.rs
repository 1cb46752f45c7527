//! The per-device pointer state machine, as a mathematical model: the
//! touching and hovering identifier sets, when an action is accepted against
//! them, and what they become afterwards.  `None` is the distinguished
//! "no active gesture" absence, distinct from an empty set.

use vstd::prelude::*;

use crate::events::MotionAction;
use crate::events::RustPointerProperties;

verus! {

/// Whether `id` is in a possibly-absent pointer set.
pub open spec fn opt_contains(o: Option<Set<i32>>, id: i32) -> bool {
    o matches Some(s) && s.contains(id)
}

/// The touching set matches the event's descriptors: it is present, has one
/// pointer per descriptor, and holds the identifier of every descriptor.
pub open spec fn ids_match(t: Option<Set<i32>>, pp: Seq<RustPointerProperties>) -> bool {
    &&& t matches Some(s)
    &&& t.unwrap().len() == pp.len()
    &&& forall|k: int| 0 <= k < pp.len() ==> t.unwrap().contains(#[trigger] pp[k].id)
}

/// Whether the pointer state machine accepts the action, given touching set
/// `t` and hovering set `h`.  `pp` is the event's descriptor sequence.
pub open spec fn pointer_ok(
    t: Option<Set<i32>>,
    h: Option<Set<i32>>,
    action: MotionAction,
    pp: Seq<RustPointerProperties>,
) -> bool {
    match action {
        MotionAction::Down => t is None,
        MotionAction::PointerDown { action_index } => {
            &&& t matches Some(s)
            &&& t.unwrap().len() + 1 == pp.len()
            &&& !t.unwrap().contains(pp[action_index as int].id)
        },
        MotionAction::Move => ids_match(t, pp),
        MotionAction::PointerUp { action_index } => ids_match(t, pp),
        MotionAction::Up => t matches Some(s) && s.len() == 1 && s.contains(pp[0].id),
        MotionAction::Cancel => ids_match(t, pp),
        MotionAction::HoverEnter => h is None,
        MotionAction::HoverMove => true,
        MotionAction::HoverExit => h matches Some(s) && s.contains(pp[0].id) && s.len() == 1,
        _ => true,
    }
}

/// The touching set after an accepted action.
pub open spec fn touching_after(
    t: Option<Set<i32>>,
    action: MotionAction,
    pp: Seq<RustPointerProperties>,
) -> Option<Set<i32>> {
    match action {
        MotionAction::Down => Some(Set::empty().insert(pp[0].id)),
        MotionAction::PointerDown { action_index } => Some(
            t.unwrap().insert(pp[action_index as int].id),
        ),
        MotionAction::PointerUp { action_index } => Some(
            t.unwrap().remove(pp[action_index as int].id),
        ),
        MotionAction::Up => None,
        MotionAction::Cancel => None,
        _ => t,
    }
}

/// The hovering set after an accepted action.  `HoverMove` without a prior
/// `HoverEnter` starts a new hovering pointer, for compatibility with
/// producers that skip the enter.
pub open spec fn hovering_after(
    h: Option<Set<i32>>,
    action: MotionAction,
    pp: Seq<RustPointerProperties>,
) -> Option<Set<i32>> {
    match action {
        MotionAction::HoverEnter => Some(Set::empty().insert(pp[0].id)),
        MotionAction::HoverMove => Some(
            (if h is Some {
                h.unwrap()
            } else {
                Set::empty()
            }).insert(pp[0].id),
        ),
        MotionAction::HoverExit => None,
        _ => h,
    }
}

/// No pointer is both touching and hovering.
pub open spec fn disjoint_sets(t: Option<Set<i32>>, h: Option<Set<i32>>) -> bool {
    forall|id: i32| !(opt_contains(t, id) && #[trigger] opt_contains(h, id))
}

/// Law: the touching and hovering sets stay disjoint across every accepted
/// action, provided the action does not land a pointer that is currently
/// hovering and does not start hovering a pointer that is currently touching.
/// (The state machine itself does not cross-check the two sets: a `Down` for
/// a hovering identifier is accepted and breaks disjointness.)
pub proof fn lemma_touch_hover_disjoint(
    t: Option<Set<i32>>,
    h: Option<Set<i32>>,
    action: MotionAction,
    pp: Seq<RustPointerProperties>,
)
    requires
        disjoint_sets(t, h),
        pointer_ok(t, h, action, pp),
        action is Down ==> !opt_contains(h, pp[0].id),
        action matches MotionAction::PointerDown { action_index } ==> !opt_contains(
            h,
            pp[action_index as int].id,
        ),
        action is HoverEnter ==> !opt_contains(t, pp[0].id),
        action is HoverMove ==> !opt_contains(t, pp[0].id),
    ensures
        disjoint_sets(touching_after(t, action, pp), hovering_after(h, action, pp)),
{
    let t2 = touching_after(t, action, pp);
    let h2 = hovering_after(h, action, pp);
    assert forall|id: i32| !(opt_contains(t2, id) && #[trigger] opt_contains(h2, id)) by {
        assert(!(opt_contains(t, id) && opt_contains(h, id)));
    }
}

/// Law: a present touching set is never empty, provided no accepted
/// `PointerUp` removes the last touching pointer (a `PointerUp` with a single
/// descriptor is accepted and leaves the set present but empty; the protocol
/// ends a gesture with `Up` instead).
pub proof fn lemma_touching_nonempty(
    t: Option<Set<i32>>,
    h: Option<Set<i32>>,
    action: MotionAction,
    pp: Seq<RustPointerProperties>,
)
    requires
        t matches Some(s) ==> s.finite() && s.len() >= 1,
        pointer_ok(t, h, action, pp),
        pp.len() >= 1,
        action matches MotionAction::PointerUp { action_index } ==> pp.len() >= 2,
    ensures
        touching_after(t, action, pp) matches Some(s) ==> s.finite() && s.len() >= 1,
{
    match action {
        MotionAction::Down => {
            assert(Set::empty().insert(pp[0].id).contains(pp[0].id));
        },
        MotionAction::PointerDown { action_index } => {
            assert(t.unwrap().insert(pp[action_index as int].id).contains(
                pp[action_index as int].id,
            ));
        },
        MotionAction::PointerUp { action_index } => {
            let s = t.unwrap();
            let s2 = s.remove(pp[action_index as int].id);
            if s.contains(pp[action_index as int].id) {
                assert(s2.len() == s.len() - 1);
            } else {
                assert(s2 =~= s);
            }
        },
        _ => {},
    }
}

/// Law: a present hovering set is never empty.
pub proof fn lemma_hovering_nonempty(
    t: Option<Set<i32>>,
    h: Option<Set<i32>>,
    action: MotionAction,
    pp: Seq<RustPointerProperties>,
)
    requires
        h matches Some(s) ==> s.finite() && s.len() >= 1,
        pointer_ok(t, h, action, pp),
        pp.len() >= 1,
    ensures
        hovering_after(h, action, pp) matches Some(s) ==> s.finite() && s.len() >= 1,
{
    match action {
        MotionAction::HoverEnter => {
            assert(Set::empty().insert(pp[0].id).contains(pp[0].id));
        },
        MotionAction::HoverMove => {
            let base = if h is Some {
                h.unwrap()
            } else {
                Set::empty()
            };
            assert(base.insert(pp[0].id).contains(pp[0].id));
        },
        _ => {},
    }
}

/// Law: an accepted `Up` returns the touching set to absent, and an accepted
/// `HoverExit` returns the hovering set to absent.
pub proof fn lemma_gesture_end_returns_to_absent(
    t: Option<Set<i32>>,
    h: Option<Set<i32>>,
    pp: Seq<RustPointerProperties>,
)
    ensures
        touching_after(t, MotionAction::Up, pp) is None,
        touching_after(t, MotionAction::Cancel, pp) is None,
        hovering_after(h, MotionAction::HoverExit, pp) is None,
{
}

} // verus!
