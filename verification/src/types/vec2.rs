//! Two-dimensional integer vectors.

use core::ops::{Add, Div, Mul, Neg, Sub};
use vstd::prelude::*;
use vstd::std_specs::ops::{AddSpecImpl, DivSpecImpl, MulSpecImpl, NegSpecImpl, SubSpecImpl};

use crate::types::pos2::Pos2;
use crate::types::ComponentOutOfRange;

verus! {

/// A displacement or an extent, in pixels.
#[derive(Debug, Clone, Copy, PartialEq, Eq, Structural, Hash)]
pub struct Vec2 {
    pub x: i32,
    pub y: i32,
}

/// Whether `v` is representable as a vector component.
pub open spec fn fits_i32(v: int) -> bool {
    i32::MIN <= v <= i32::MAX
}

/// The quotient of `/` on machine integers, which rounds toward zero, written
/// with the mathematical (floor-like) division of non-negative dividends.
pub open spec fn div_toward_zero(a: int, b: int) -> int
    recommends
        b != 0,
{
    if a >= 0 {
        a / b
    } else {
        -((-a) / b)
    }
}

/// Shorthand constructor.
#[inline]
#[must_use]
pub fn vec2(x: i32, y: i32) -> (v: Vec2)
    ensures
        v == (Vec2 { x, y }),
{
    Vec2 { x, y }
}

impl Vec2 {
    /// The zero vector.
    #[inline]
    #[must_use]
    pub fn zero() -> (r: Vec2)
        ensures
            r == (Vec2 { x: 0, y: 0 }),
    {
        Vec2 { x: 0, y: 0 }
    }

    /// Both components equal to `v`.
    #[inline]
    #[must_use]
    pub fn splat(v: i32) -> (r: Vec2)
        ensures
            r == (Vec2 { x: v, y: v }),
    {
        Vec2 { x: v, y: v }
    }

    #[inline]
    #[must_use]
    pub fn with_x(self, x: i32) -> (r: Vec2)
        ensures
            r == (Vec2 { x, y: self.y }),
    {
        Vec2 { x, y: self.y }
    }

    #[inline]
    #[must_use]
    pub fn with_y(self, y: i32) -> (r: Vec2)
        ensures
            r == (Vec2 { x: self.x, y }),
    {
        Vec2 { x: self.x, y }
    }

    /// The point reached from the origin by this vector.
    #[inline]
    #[must_use]
    pub fn to_pos(self) -> (p: Pos2)
        ensures
            p == (Pos2 { x: self.x, y: self.y }),
    {
        Pos2 { x: self.x, y: self.y }
    }

    /// Exchanges the two components.
    #[inline]
    #[must_use]
    pub fn swap(self) -> (r: Vec2)
        ensures
            r == (Vec2 { x: self.y, y: self.x }),
    {
        Vec2 { x: self.y, y: self.x }
    }

    /// An extent with a zero component covers no pixel.
    pub open spec fn spec_is_empty(self) -> bool {
        self.x == 0 || self.y == 0
    }

    #[inline]
    #[must_use]
    #[verifier::when_used_as_spec(spec_is_empty)]
    pub fn is_empty(self) -> (b: bool)
        ensures
            b == self.spec_is_empty(),
    {
        self.x == 0 || self.y == 0
    }

    /// The components as unsigned numbers, for extents that cannot be
    /// negative; a negative component is out of range.
    pub fn to_unsigned(self) -> (r: Result<(u32, u32), ComponentOutOfRange>)
        ensures
            match r {
                Ok((width, height)) => self.x >= 0 && self.y >= 0 && width == self.x && height
                    == self.y,
                Err(_) => self.x < 0 || self.y < 0,
            },
    {
        if self.x < 0 || self.y < 0 {
            Err(ComponentOutOfRange)
        } else {
            Ok((self.x as u32, self.y as u32))
        }
    }

    /// Componentwise absolute value.
    #[inline]
    #[must_use]
    pub fn abs(self) -> (r: Vec2)
        requires
            self.x > i32::MIN,
            self.y > i32::MIN,
        ensures
            r.x == (if self.x < 0 { -self.x } else { self.x as int }),
            r.y == (if self.y < 0 { -self.y } else { self.y as int }),
    {
        Vec2 {
            x: if self.x < 0 { -self.x } else { self.x },
            y: if self.y < 0 { -self.y } else { self.y },
        }
    }
}

impl AddSpecImpl<Vec2> for Vec2 {
    open spec fn obeys_add_spec() -> bool {
        true
    }

    open spec fn add_req(self, offset: Vec2) -> bool {
        fits_i32(self.x + offset.x) && fits_i32(self.y + offset.y)
    }

    open spec fn add_spec(self, offset: Vec2) -> Vec2 {
        Vec2 { x: (self.x + offset.x) as i32, y: (self.y + offset.y) as i32 }
    }
}

impl Add<Vec2> for Vec2 {
    type Output = Vec2;

    #[inline]
    fn add(self, offset: Vec2) -> (r: Vec2) {
        Vec2 { x: self.x + offset.x, y: self.y + offset.y }
    }
}

impl SubSpecImpl<Vec2> for Vec2 {
    open spec fn obeys_sub_spec() -> bool {
        true
    }

    open spec fn sub_req(self, offset: Vec2) -> bool {
        fits_i32(self.x - offset.x) && fits_i32(self.y - offset.y)
    }

    open spec fn sub_spec(self, offset: Vec2) -> Vec2 {
        Vec2 { x: (self.x - offset.x) as i32, y: (self.y - offset.y) as i32 }
    }
}

impl Sub<Vec2> for Vec2 {
    type Output = Vec2;

    #[inline]
    fn sub(self, offset: Vec2) -> (r: Vec2) {
        Vec2 { x: self.x - offset.x, y: self.y - offset.y }
    }
}

impl MulSpecImpl<i32> for Vec2 {
    open spec fn obeys_mul_spec() -> bool {
        true
    }

    open spec fn mul_req(self, scale: i32) -> bool {
        fits_i32(self.x * scale) && fits_i32(self.y * scale)
    }

    open spec fn mul_spec(self, scale: i32) -> Vec2 {
        Vec2 { x: (self.x * scale) as i32, y: (self.y * scale) as i32 }
    }
}

impl Mul<i32> for Vec2 {
    type Output = Vec2;

    #[inline]
    fn mul(self, scale: i32) -> (r: Vec2) {
        Vec2 { x: self.x * scale, y: self.y * scale }
    }
}

impl DivSpecImpl<i32> for Vec2 {
    open spec fn obeys_div_spec() -> bool {
        true
    }

    open spec fn div_req(self, scale: i32) -> bool {
        scale != 0 && (scale == -1 ==> self.x > i32::MIN && self.y > i32::MIN)
    }

    open spec fn div_spec(self, scale: i32) -> Vec2 {
        Vec2 {
            x: div_toward_zero(self.x as int, scale as int) as i32,
            y: div_toward_zero(self.y as int, scale as int) as i32,
        }
    }
}

impl Div<i32> for Vec2 {
    type Output = Vec2;

    #[inline]
    fn div(self, scale: i32) -> (r: Vec2) {
        Vec2 { x: self.x / scale, y: self.y / scale }
    }
}

impl NegSpecImpl for Vec2 {
    open spec fn obeys_neg_spec() -> bool {
        true
    }

    open spec fn neg_req(self) -> bool {
        self.x > i32::MIN && self.y > i32::MIN
    }

    open spec fn neg_spec(self) -> Vec2 {
        Vec2 { x: (-self.x) as i32, y: (-self.y) as i32 }
    }
}

impl Neg for Vec2 {
    type Output = Vec2;

    #[inline]
    fn neg(self) -> (r: Vec2) {
        Vec2 { x: -self.x, y: -self.y }
    }
}

} // verus!
