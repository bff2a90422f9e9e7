//! Modifier keys and sets of them.

use core::ops::{Add, BitXor, Sub};
use vstd::prelude::*;
use vstd::std_specs::ops::{AddSpecImpl, BitXorSpecImpl, SubSpecImpl};

verus! {

/// A key that changes what other keys mean while it is active.
#[derive(Debug, Clone, Copy, PartialEq, Eq, Structural, Hash)]
pub enum Modifier {
    Ctrl,
    Alt,
    Opt,
    AltOpt,
    LeftShift,
    RightShift,
    CapsLock,
}

impl Modifier {
    /// Whether a press flips the modifier, as opposed to holding it active
    /// only while the key is down. Caps Lock is the one toggle.
    pub open spec fn spec_is_toggle(self) -> bool {
        self == Modifier::CapsLock
    }

    /// Does pressing this key toggle the modifier as opposed to momentarily
    /// activating it?
    #[must_use]
    #[verifier::when_used_as_spec(spec_is_toggle)]
    pub fn is_toggle(self) -> (b: bool)
        ensures
            b == self.spec_is_toggle(),
    {
        match self {
            Modifier::Ctrl
            | Modifier::Alt
            | Modifier::Opt
            | Modifier::AltOpt
            | Modifier::LeftShift
            | Modifier::RightShift => false,
            Modifier::CapsLock => true,
        }
    }
}

/// A set of modifiers.
#[derive(Debug, Clone, Copy, PartialEq, Eq, Structural, Hash)]
pub struct Modifiers {
    ctrl: bool,
    alt: bool,
    opt: bool,
    alt_opt: bool,
    left_shift: bool,
    right_shift: bool,
    caps_lock: bool,
}

impl Modifiers {
    /// Whether `modifier` is a member of the set.
    pub closed spec fn has(self, modifier: Modifier) -> bool {
        match modifier {
            Modifier::Ctrl => self.ctrl,
            Modifier::Alt => self.alt,
            Modifier::Opt => self.opt,
            Modifier::AltOpt => self.alt_opt,
            Modifier::LeftShift => self.left_shift,
            Modifier::RightShift => self.right_shift,
            Modifier::CapsLock => self.caps_lock,
        }
    }

    /// Two sets with the same members are the same value.
    pub proof fn lemma_extensional(a: Modifiers, b: Modifiers)
        requires
            forall|m: Modifier| a.has(m) == b.has(m),
        ensures
            a.same(b),
    {
        assert(a.has(Modifier::Ctrl) == b.has(Modifier::Ctrl));
        assert(a.has(Modifier::Alt) == b.has(Modifier::Alt));
        assert(a.has(Modifier::Opt) == b.has(Modifier::Opt));
        assert(a.has(Modifier::AltOpt) == b.has(Modifier::AltOpt));
        assert(a.has(Modifier::LeftShift) == b.has(Modifier::LeftShift));
        assert(a.has(Modifier::RightShift) == b.has(Modifier::RightShift));
        assert(a.has(Modifier::CapsLock) == b.has(Modifier::CapsLock));
    }

    /// Equality of two sets, named so that a lemma can speak of it.
    pub open spec fn same(self, other: Modifiers) -> bool {
        self == other
    }

    /// The set with the members of either operand.
    pub closed spec fn spec_union(self, other: Modifiers) -> Modifiers {
        Modifiers {
            ctrl: self.ctrl || other.ctrl,
            alt: self.alt || other.alt,
            opt: self.opt || other.opt,
            alt_opt: self.alt_opt || other.alt_opt,
            left_shift: self.left_shift || other.left_shift,
            right_shift: self.right_shift || other.right_shift,
            caps_lock: self.caps_lock || other.caps_lock,
        }
    }

    /// The members of `self` that are not in `other`.
    pub closed spec fn spec_difference(self, other: Modifiers) -> Modifiers {
        Modifiers {
            ctrl: self.ctrl && !other.ctrl,
            alt: self.alt && !other.alt,
            opt: self.opt && !other.opt,
            alt_opt: self.alt_opt && !other.alt_opt,
            left_shift: self.left_shift && !other.left_shift,
            right_shift: self.right_shift && !other.right_shift,
            caps_lock: self.caps_lock && !other.caps_lock,
        }
    }

    /// The modifiers that are in exactly one of the operands.
    pub closed spec fn spec_symmetric_difference(self, other: Modifiers) -> Modifiers {
        Modifiers {
            ctrl: self.ctrl != other.ctrl,
            alt: self.alt != other.alt,
            opt: self.opt != other.opt,
            alt_opt: self.alt_opt != other.alt_opt,
            left_shift: self.left_shift != other.left_shift,
            right_shift: self.right_shift != other.right_shift,
            caps_lock: self.caps_lock != other.caps_lock,
        }
    }

    /// The set whose only member is `this`.
    pub closed spec fn spec_just(this: Modifier) -> Modifiers {
        Modifiers {
            ctrl: this == Modifier::Ctrl,
            alt: this == Modifier::Alt,
            opt: this == Modifier::Opt,
            alt_opt: this == Modifier::AltOpt,
            left_shift: this == Modifier::LeftShift,
            right_shift: this == Modifier::RightShift,
            caps_lock: this == Modifier::CapsLock,
        }
    }

    /// The empty set.
    pub closed spec fn spec_none() -> Modifiers {
        Modifiers {
            ctrl: false,
            alt: false,
            opt: false,
            alt_opt: false,
            left_shift: false,
            right_shift: false,
            caps_lock: false,
        }
    }

    /// What the set operations mean, member by member.
    pub proof fn lemma_members(a: Modifiers, b: Modifiers, m: Modifier)
        ensures
            a.spec_union(b).has(m) == (a.has(m) || b.has(m)),
            a.spec_difference(b).has(m) == (a.has(m) && !b.has(m)),
            a.spec_symmetric_difference(b).has(m) == (a.has(m) != b.has(m)),
    {
    }

    /// The members of the empty set and of a singleton.
    pub proof fn lemma_basic_members(this: Modifier, m: Modifier)
        ensures
            !Modifiers::spec_none().has(m),
            Modifiers::spec_just(this).has(m) == (m == this),
    {
    }

    /// Whether the set holds every member of `other`.
    pub open spec fn spec_contains_all(self, other: Modifiers) -> bool {
        forall|m: Modifier| other.has(m) ==> self.has(m)
    }

    /// Whether shift is in effect: either shift key, inverted by Caps Lock
    /// when the key is a letter (`alphabet`).
    pub open spec fn spec_shift(self, alphabet: bool) -> bool {
        (self.has(Modifier::LeftShift) || self.has(Modifier::RightShift)) != (alphabet && self.has(
            Modifier::CapsLock,
        ))
    }

    /// The empty set.
    #[inline]
    #[must_use]
    pub fn none() -> (r: Modifiers)
        ensures
            r == Modifiers::spec_none(),
            forall|m: Modifier| !r.has(m),
    {
        Modifiers {
            ctrl: false,
            alt: false,
            opt: false,
            alt_opt: false,
            left_shift: false,
            right_shift: false,
            caps_lock: false,
        }
    }

    /// The set whose only member is `this`.
    #[inline]
    #[must_use]
    pub fn just(this: Modifier) -> (r: Modifiers)
        ensures
            r == Modifiers::spec_just(this),
            forall|m: Modifier| r.has(m) == (m == this),
    {
        Modifiers {
            ctrl: matches!(this, Modifier::Ctrl),
            alt: matches!(this, Modifier::Alt),
            opt: matches!(this, Modifier::Opt),
            alt_opt: matches!(this, Modifier::AltOpt),
            left_shift: matches!(this, Modifier::LeftShift),
            right_shift: matches!(this, Modifier::RightShift),
            caps_lock: matches!(this, Modifier::CapsLock),
        }
    }

    /// Whether `modifier` is a member of the set.
    #[inline]
    #[must_use]
    pub fn contains(self, modifier: Modifier) -> (b: bool)
        ensures
            b == self.has(modifier),
    {
        match modifier {
            Modifier::Ctrl => self.ctrl,
            Modifier::Alt => self.alt,
            Modifier::Opt => self.opt,
            Modifier::AltOpt => self.alt_opt,
            Modifier::LeftShift => self.left_shift,
            Modifier::RightShift => self.right_shift,
            Modifier::CapsLock => self.caps_lock,
        }
    }

    /// Whether every member of `set` is a member of `self`.
    #[inline]
    #[must_use]
    pub fn contains_all(self, set: Modifiers) -> (b: bool)
        ensures
            b == self.spec_contains_all(set),
    {
        let b = (!set.ctrl || self.ctrl) && (!set.alt || self.alt) && (!set.opt || self.opt) && (
        !set.alt_opt || self.alt_opt) && (!set.left_shift || self.left_shift) && (!set.right_shift
            || self.right_shift) && (!set.caps_lock || self.caps_lock);
        proof {
            if !b {
                assert(!(set.has(Modifier::Ctrl) ==> self.has(Modifier::Ctrl)) || !(set.has(
                    Modifier::Alt,
                ) ==> self.has(Modifier::Alt)) || !(set.has(Modifier::Opt) ==> self.has(
                    Modifier::Opt,
                )) || !(set.has(Modifier::AltOpt) ==> self.has(Modifier::AltOpt)) || !(set.has(
                    Modifier::LeftShift,
                ) ==> self.has(Modifier::LeftShift)) || !(set.has(Modifier::RightShift)
                    ==> self.has(Modifier::RightShift)) || !(set.has(Modifier::CapsLock)
                    ==> self.has(Modifier::CapsLock)));
            }
        }
        b
    }

    /// Checks if a whole set of modifiers is present and removes them from
    /// `self` if they are; otherwise `self` stays as it is.
    #[inline]
    #[must_use]
    pub fn consume(&mut self, set: Modifiers) -> (b: bool)
        ensures
            b == old(self).spec_contains_all(set),
            *final(self) == (if b {
                old(self).spec_difference(set)
            } else {
                *old(self)
            }),
    {
        if self.contains_all(set) {
            *self = *self - set;
            true
        } else {
            false
        }
    }

    /// If `alphabet` is `true`, Caps Lock will be considered as a Shift key.
    #[inline]
    #[must_use]
    pub fn shift(self, alphabet: bool) -> (b: bool)
        ensures
            b == self.spec_shift(alphabet),
    {
        let shift = self.contains(Modifier::LeftShift) || self.contains(Modifier::RightShift);
        let caps = alphabet && self.contains(Modifier::CapsLock);
        shift ^ caps
    }

    #[inline]
    #[must_use]
    pub fn ctrl(self) -> (b: bool)
        ensures
            b == self.has(Modifier::Ctrl),
    {
        self.contains(Modifier::Ctrl)
    }

    #[inline]
    #[must_use]
    pub fn opt(self) -> (b: bool)
        ensures
            b == self.has(Modifier::Opt),
    {
        self.contains(Modifier::Opt)
    }

    #[inline]
    #[must_use]
    pub fn alt(self) -> (b: bool)
        ensures
            b == self.has(Modifier::Alt),
    {
        self.contains(Modifier::Alt)
    }

    #[inline]
    #[must_use]
    pub fn alt_opt(self) -> (b: bool)
        ensures
            b == self.has(Modifier::AltOpt),
    {
        self.contains(Modifier::AltOpt)
    }
}

impl AddSpecImpl<Modifiers> for Modifiers {
    open spec fn obeys_add_spec() -> bool {
        true
    }

    open spec fn add_req(self, rhs: Modifiers) -> bool {
        true
    }

    open spec fn add_spec(self, rhs: Modifiers) -> Modifiers {
        self.spec_union(rhs)
    }
}

impl Add<Modifiers> for Modifiers {
    type Output = Modifiers;

    fn add(self, rhs: Modifiers) -> (r: Modifiers) {
        Modifiers {
            ctrl: self.ctrl || rhs.ctrl,
            alt: self.alt || rhs.alt,
            opt: self.opt || rhs.opt,
            alt_opt: self.alt_opt || rhs.alt_opt,
            left_shift: self.left_shift || rhs.left_shift,
            right_shift: self.right_shift || rhs.right_shift,
            caps_lock: self.caps_lock || rhs.caps_lock,
        }
    }
}

impl SubSpecImpl<Modifiers> for Modifiers {
    open spec fn obeys_sub_spec() -> bool {
        true
    }

    open spec fn sub_req(self, rhs: Modifiers) -> bool {
        true
    }

    open spec fn sub_spec(self, rhs: Modifiers) -> Modifiers {
        self.spec_difference(rhs)
    }
}

impl Sub<Modifiers> for Modifiers {
    type Output = Modifiers;

    fn sub(self, rhs: Modifiers) -> (r: Modifiers) {
        Modifiers {
            ctrl: self.ctrl && !rhs.ctrl,
            alt: self.alt && !rhs.alt,
            opt: self.opt && !rhs.opt,
            alt_opt: self.alt_opt && !rhs.alt_opt,
            left_shift: self.left_shift && !rhs.left_shift,
            right_shift: self.right_shift && !rhs.right_shift,
            caps_lock: self.caps_lock && !rhs.caps_lock,
        }
    }
}

impl BitXorSpecImpl<Modifiers> for Modifiers {
    open spec fn obeys_bitxor_spec() -> bool {
        true
    }

    open spec fn bitxor_req(self, rhs: Modifiers) -> bool {
        true
    }

    open spec fn bitxor_spec(self, rhs: Modifiers) -> Modifiers {
        self.spec_symmetric_difference(rhs)
    }
}

impl BitXor<Modifiers> for Modifiers {
    type Output = Modifiers;

    fn bitxor(self, rhs: Modifiers) -> (r: Modifiers) {
        Modifiers {
            ctrl: self.ctrl != rhs.ctrl,
            alt: self.alt != rhs.alt,
            opt: self.opt != rhs.opt,
            alt_opt: self.alt_opt != rhs.alt_opt,
            left_shift: self.left_shift != rhs.left_shift,
            right_shift: self.right_shift != rhs.right_shift,
            caps_lock: self.caps_lock != rhs.caps_lock,
        }
    }
}

impl AddSpecImpl<Modifier> for Modifiers {
    open spec fn obeys_add_spec() -> bool {
        true
    }

    open spec fn add_req(self, rhs: Modifier) -> bool {
        true
    }

    open spec fn add_spec(self, rhs: Modifier) -> Modifiers {
        self.spec_union(Modifiers::spec_just(rhs))
    }
}

impl Add<Modifier> for Modifiers {
    type Output = Modifiers;

    fn add(self, rhs: Modifier) -> (r: Modifiers) {
        self + Modifiers::just(rhs)
    }
}

impl SubSpecImpl<Modifier> for Modifiers {
    open spec fn obeys_sub_spec() -> bool {
        true
    }

    open spec fn sub_req(self, rhs: Modifier) -> bool {
        true
    }

    open spec fn sub_spec(self, rhs: Modifier) -> Modifiers {
        self.spec_difference(Modifiers::spec_just(rhs))
    }
}

impl Sub<Modifier> for Modifiers {
    type Output = Modifiers;

    fn sub(self, rhs: Modifier) -> (r: Modifiers) {
        self - Modifiers::just(rhs)
    }
}

impl BitXorSpecImpl<Modifier> for Modifiers {
    open spec fn obeys_bitxor_spec() -> bool {
        true
    }

    open spec fn bitxor_req(self, rhs: Modifier) -> bool {
        true
    }

    open spec fn bitxor_spec(self, rhs: Modifier) -> Modifiers {
        self.spec_symmetric_difference(Modifiers::spec_just(rhs))
    }
}

impl BitXor<Modifier> for Modifiers {
    type Output = Modifiers;

    fn bitxor(self, rhs: Modifier) -> (r: Modifiers) {
        self ^ Modifiers::just(rhs)
    }
}

} // verus!
