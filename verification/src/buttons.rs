//! Button sets: a finite set over the fixed domain of pointer buttons, with
//! the set algebra the state machines need.

use vstd::prelude::*;

verus! {

/// One logical pointer button.
#[derive(Clone, Copy, PartialEq, Eq, Structural, Debug)]
pub enum Button {
    Primary,
    Secondary,
    Tertiary,
    Back,
    Forward,
    StylusPrimary,
    StylusSecondary,
}

/// A set of pointer buttons.
///
/// Used both for a full button state (every button currently held) and for an
/// action button (the button that changed in a press or release, usually a
/// singleton).
#[derive(Clone, Copy, PartialEq, Eq, Structural, Debug)]
pub struct MotionButton {
    pub primary: bool,
    pub secondary: bool,
    pub tertiary: bool,
    pub back: bool,
    pub forward: bool,
    pub stylus_primary: bool,
    pub stylus_secondary: bool,
}

impl MotionButton {
    /// Membership: does this set hold button `b`?
    pub open spec fn has(self, b: Button) -> bool {
        match b {
            Button::Primary => self.primary,
            Button::Secondary => self.secondary,
            Button::Tertiary => self.tertiary,
            Button::Back => self.back,
            Button::Forward => self.forward,
            Button::StylusPrimary => self.stylus_primary,
            Button::StylusSecondary => self.stylus_secondary,
        }
    }

    /// The set with no buttons.
    pub open spec fn spec_empty() -> MotionButton {
        MotionButton {
            primary: false,
            secondary: false,
            tertiary: false,
            back: false,
            forward: false,
            stylus_primary: false,
            stylus_secondary: false,
        }
    }

    pub open spec fn spec_is_empty(self) -> bool {
        self == MotionButton::spec_empty()
    }

    /// Every button of `self` is also in `other`.
    pub open spec fn spec_subset(self, other: MotionButton) -> bool {
        &&& (self.primary ==> other.primary)
        &&& (self.secondary ==> other.secondary)
        &&& (self.tertiary ==> other.tertiary)
        &&& (self.back ==> other.back)
        &&& (self.forward ==> other.forward)
        &&& (self.stylus_primary ==> other.stylus_primary)
        &&& (self.stylus_secondary ==> other.stylus_secondary)
    }

    /// `self` and `other` share no button.
    pub open spec fn spec_disjoint(self, other: MotionButton) -> bool {
        &&& !(self.primary && other.primary)
        &&& !(self.secondary && other.secondary)
        &&& !(self.tertiary && other.tertiary)
        &&& !(self.back && other.back)
        &&& !(self.forward && other.forward)
        &&& !(self.stylus_primary && other.stylus_primary)
        &&& !(self.stylus_secondary && other.stylus_secondary)
    }

    pub open spec fn spec_union(self, other: MotionButton) -> MotionButton {
        MotionButton {
            primary: self.primary || other.primary,
            secondary: self.secondary || other.secondary,
            tertiary: self.tertiary || other.tertiary,
            back: self.back || other.back,
            forward: self.forward || other.forward,
            stylus_primary: self.stylus_primary || other.stylus_primary,
            stylus_secondary: self.stylus_secondary || other.stylus_secondary,
        }
    }

    /// The buttons of `self` that are not in `other`.
    pub open spec fn spec_difference(self, other: MotionButton) -> MotionButton {
        MotionButton {
            primary: self.primary && !other.primary,
            secondary: self.secondary && !other.secondary,
            tertiary: self.tertiary && !other.tertiary,
            back: self.back && !other.back,
            forward: self.forward && !other.forward,
            stylus_primary: self.stylus_primary && !other.stylus_primary,
            stylus_secondary: self.stylus_secondary && !other.stylus_secondary,
        }
    }

    /// How many buttons the set holds.
    pub open spec fn spec_count(self) -> int {
        (if self.primary { 1int } else { 0 })
        + (if self.secondary { 1int } else { 0 })
        + (if self.tertiary { 1int } else { 0 })
        + (if self.back { 1int } else { 0 })
        + (if self.forward { 1int } else { 0 })
        + (if self.stylus_primary { 1int } else { 0 })
        + (if self.stylus_secondary { 1int } else { 0 })
    }

    /// The empty button set.
    pub fn empty() -> (r: MotionButton)
        ensures
            r == MotionButton::spec_empty(),
    {
        MotionButton {
            primary: false,
            secondary: false,
            tertiary: false,
            back: false,
            forward: false,
            stylus_primary: false,
            stylus_secondary: false,
        }
    }

    /// The singleton set holding exactly `b`.
    pub fn just(b: Button) -> (r: MotionButton)
        ensures
            forall|x: Button| r.has(x) <==> x == b,
    {
        let base = MotionButton::empty();
        match b {
            Button::Primary => MotionButton { primary: true, ..base },
            Button::Secondary => MotionButton { secondary: true, ..base },
            Button::Tertiary => MotionButton { tertiary: true, ..base },
            Button::Back => MotionButton { back: true, ..base },
            Button::Forward => MotionButton { forward: true, ..base },
            Button::StylusPrimary => MotionButton { stylus_primary: true, ..base },
            Button::StylusSecondary => MotionButton { stylus_secondary: true, ..base },
        }
    }

    pub fn is_empty(&self) -> (r: bool)
        ensures
            r == self.spec_is_empty(),
    {
        !(self.primary || self.secondary || self.tertiary || self.back || self.forward
            || self.stylus_primary || self.stylus_secondary)
    }

    /// Does `self` hold every button of `other`?  (Superset test, as on the
    /// full state; with a singleton argument this is membership.)
    pub fn contains(&self, other: MotionButton) -> (r: bool)
        ensures
            r == other.spec_subset(*self),
    {
        (!other.primary || self.primary) && (!other.secondary || self.secondary)
            && (!other.tertiary || self.tertiary) && (!other.back || self.back)
            && (!other.forward || self.forward)
            && (!other.stylus_primary || self.stylus_primary)
            && (!other.stylus_secondary || self.stylus_secondary)
    }

    pub fn union(self, other: MotionButton) -> (r: MotionButton)
        ensures
            r == self.spec_union(other),
    {
        MotionButton {
            primary: self.primary || other.primary,
            secondary: self.secondary || other.secondary,
            tertiary: self.tertiary || other.tertiary,
            back: self.back || other.back,
            forward: self.forward || other.forward,
            stylus_primary: self.stylus_primary || other.stylus_primary,
            stylus_secondary: self.stylus_secondary || other.stylus_secondary,
        }
    }

    pub fn difference(self, other: MotionButton) -> (r: MotionButton)
        ensures
            r == self.spec_difference(other),
    {
        MotionButton {
            primary: self.primary && !other.primary,
            secondary: self.secondary && !other.secondary,
            tertiary: self.tertiary && !other.tertiary,
            back: self.back && !other.back,
            forward: self.forward && !other.forward,
            stylus_primary: self.stylus_primary && !other.stylus_primary,
            stylus_secondary: self.stylus_secondary && !other.stylus_secondary,
        }
    }

    /// The number of buttons in the set.
    pub fn count(&self) -> (r: u32)
        ensures
            r == self.spec_count(),
    {
        let mut n: u32 = 0;
        if self.primary {
            n = n + 1;
        }
        if self.secondary {
            n = n + 1;
        }
        if self.tertiary {
            n = n + 1;
        }
        if self.back {
            n = n + 1;
        }
        if self.forward {
            n = n + 1;
        }
        if self.stylus_primary {
            n = n + 1;
        }
        if self.stylus_secondary {
            n = n + 1;
        }
        n
    }
}

/// Two button sets with the same members are the same set.
pub proof fn lemma_button_set_ext(a: MotionButton, b: MotionButton)
    ensures
        (a == b) <==> (forall|x: Button| a.has(x) == b.has(x)),
{
    if forall|x: Button| a.has(x) == b.has(x) {
        assert(a.has(Button::Primary) == b.has(Button::Primary));
        assert(a.has(Button::Secondary) == b.has(Button::Secondary));
        assert(a.has(Button::Tertiary) == b.has(Button::Tertiary));
        assert(a.has(Button::Back) == b.has(Button::Back));
        assert(a.has(Button::Forward) == b.has(Button::Forward));
        assert(a.has(Button::StylusPrimary) == b.has(Button::StylusPrimary));
        assert(a.has(Button::StylusSecondary) == b.has(Button::StylusSecondary));
    }
}

} // verus!
