//! Two-dimensional integer points.

use core::ops::{Add, Div, Mul, Sub};
use vstd::prelude::*;
use vstd::std_specs::ops::{AddSpecImpl, DivSpecImpl, MulSpecImpl, SubSpecImpl};

use crate::types::rectangle::Rectangle;
use crate::types::side::Side;
use crate::types::vec2::{div_toward_zero, fits_i32, Vec2};

verus! {

/// A pixel position.
#[derive(Debug, Clone, Copy, PartialEq, Eq, Structural, Hash)]
pub struct Pos2 {
    pub x: i32,
    pub y: i32,
}

/// Shorthand constructor.
#[inline]
#[must_use]
pub fn pos2(x: i32, y: i32) -> (p: Pos2)
    ensures
        p == (Pos2 { x, y }),
{
    Pos2 { x, y }
}

/// The smaller of two integers.
pub open spec fn min_int(a: int, b: int) -> int {
    if a <= b {
        a
    } else {
        b
    }
}

/// The larger of two integers.
pub open spec fn max_int(a: int, b: int) -> int {
    if a >= b {
        a
    } else {
        b
    }
}

impl Pos2 {
    /// The origin of the coordinate system.
    #[inline]
    #[must_use]
    pub fn zero() -> (p: Pos2)
        ensures
            p == (Pos2 { x: 0, y: 0 }),
    {
        Pos2 { x: 0, y: 0 }
    }

    /// Both coordinates equal to `v`.
    #[inline]
    #[must_use]
    pub fn splat(v: i32) -> (p: Pos2)
        ensures
            p == (Pos2 { x: v, y: v }),
    {
        Pos2 { x: v, y: v }
    }

    /// The vector from the origin to this point.
    #[inline]
    #[must_use]
    pub fn to_vec(self) -> (v: Vec2)
        ensures
            v == (Vec2 { x: self.x, y: self.y }),
    {
        Vec2 { x: self.x, y: self.y }
    }

    /// The point made of the smaller coordinate on each axis.
    #[inline]
    #[must_use]
    pub fn min_components(self, other: Pos2) -> (p: Pos2)
        ensures
            p.x == min_int(self.x as int, other.x as int),
            p.y == min_int(self.y as int, other.y as int),
    {
        Pos2 {
            x: if self.x <= other.x { self.x } else { other.x },
            y: if self.y <= other.y { self.y } else { other.y },
        }
    }

    /// The point made of the larger coordinate on each axis.
    #[inline]
    #[must_use]
    pub fn max_components(self, other: Pos2) -> (p: Pos2)
        ensures
            p.x == max_int(self.x as int, other.x as int),
            p.y == max_int(self.y as int, other.y as int),
    {
        Pos2 {
            x: if self.x >= other.x { self.x } else { other.x },
            y: if self.y >= other.y { self.y } else { other.y },
        }
    }

    #[inline]
    #[must_use]
    pub fn with_x(self, x: i32) -> (p: Pos2)
        ensures
            p == (Pos2 { x, y: self.y }),
    {
        Pos2 { x, y: self.y }
    }

    #[inline]
    #[must_use]
    pub fn with_y(self, y: i32) -> (p: Pos2)
        ensures
            p == (Pos2 { x: self.x, y }),
    {
        Pos2 { x: self.x, y }
    }

    /// Moves the point by `offset` pixels toward the given side of the screen.
    #[inline]
    #[must_use]
    pub fn offset(self, toward: Side, offset: i32) -> (p: Pos2)
        requires
            fits_i32(toward.unit_x() * offset),
            fits_i32(toward.unit_y() * offset),
            fits_i32(self.x + toward.unit_x() * offset),
            fits_i32(self.y + toward.unit_y() * offset),
        ensures
            p.x == self.x + toward.unit_x() * offset,
            p.y == self.y + toward.unit_y() * offset,
    {
        self + toward.vec_toward() * offset
    }

    /// Folds the point into `container`, as on a torus: each coordinate keeps
    /// its remainder relative to the container's origin.
    #[inline]
    #[must_use]
    pub fn wrap_within(self, container: &Rectangle) -> (p: Pos2)
        requires
            container.size.x != 0,
            container.size.y != 0,
            fits_i32(self.x - container.origin.x),
            fits_i32(self.y - container.origin.y),
            fits_i32(container.origin.x + (self.x - container.origin.x) % (container.size.x as int)),
            fits_i32(container.origin.y + (self.y - container.origin.y) % (container.size.y as int)),
        ensures
            p.x == container.origin.x + (self.x - container.origin.x) % (container.size.x as int),
            p.y == container.origin.y + (self.y - container.origin.y) % (container.size.y as int),
    {
        let offset = self - container.origin;
        let wrapped = Vec2 {
            x: rem_euclid(offset.x, container.size.x),
            y: rem_euclid(offset.y, container.size.y),
        };
        container.origin + wrapped
    }
}

/// The least non-negative remainder of `a` divided by `b`.
fn rem_euclid(a: i32, b: i32) -> (r: i32)
    requires
        b != 0,
    ensures
        r == (a as int) % (b as int),
{
    proof {
        if b > 0 {
            vstd::arithmetic::div_mod::lemma_mod_bound(a as int, b as int);
        } else {
            vstd::arithmetic::div_mod::lemma_mod_bound(a as int, -(b as int));
            assert((a as int) % (b as int) == (a as int) % (-(b as int))) by (nonlinear_arith)
                requires
                    b < 0,
            ;
        }
    }
    if b == -1 {
        0
    } else {
        match a.checked_rem_euclid(b) {
            Some(r) => r,
            None => 0,
        }
    }
}

impl AddSpecImpl<Vec2> for Pos2 {
    open spec fn obeys_add_spec() -> bool {
        true
    }

    open spec fn add_req(self, offset: Vec2) -> bool {
        fits_i32(self.x + offset.x) && fits_i32(self.y + offset.y)
    }

    open spec fn add_spec(self, offset: Vec2) -> Pos2 {
        Pos2 { x: (self.x + offset.x) as i32, y: (self.y + offset.y) as i32 }
    }
}

impl Add<Vec2> for Pos2 {
    type Output = Pos2;

    #[inline]
    fn add(self, offset: Vec2) -> (r: Pos2) {
        Pos2 { x: self.x + offset.x, y: self.y + offset.y }
    }
}

impl SubSpecImpl<Vec2> for Pos2 {
    open spec fn obeys_sub_spec() -> bool {
        true
    }

    open spec fn sub_req(self, offset: Vec2) -> bool {
        fits_i32(self.x - offset.x) && fits_i32(self.y - offset.y)
    }

    open spec fn sub_spec(self, offset: Vec2) -> Pos2 {
        Pos2 { x: (self.x - offset.x) as i32, y: (self.y - offset.y) as i32 }
    }
}

impl Sub<Vec2> for Pos2 {
    type Output = Pos2;

    #[inline]
    fn sub(self, offset: Vec2) -> (r: Pos2) {
        Pos2 { x: self.x - offset.x, y: self.y - offset.y }
    }
}

impl SubSpecImpl<Pos2> for Pos2 {
    open spec fn obeys_sub_spec() -> bool {
        true
    }

    open spec fn sub_req(self, from: Pos2) -> bool {
        fits_i32(self.x - from.x) && fits_i32(self.y - from.y)
    }

    open spec fn sub_spec(self, from: Pos2) -> Vec2 {
        Vec2 { x: (self.x - from.x) as i32, y: (self.y - from.y) as i32 }
    }
}

impl Sub<Pos2> for Pos2 {
    type Output = Vec2;

    #[inline]
    fn sub(self, from: Pos2) -> (r: Vec2) {
        Vec2 { x: self.x - from.x, y: self.y - from.y }
    }
}

impl MulSpecImpl<i32> for Pos2 {
    open spec fn obeys_mul_spec() -> bool {
        true
    }

    open spec fn mul_req(self, scale: i32) -> bool {
        fits_i32(self.x * scale) && fits_i32(self.y * scale)
    }

    open spec fn mul_spec(self, scale: i32) -> Pos2 {
        Pos2 { x: (self.x * scale) as i32, y: (self.y * scale) as i32 }
    }
}

impl Mul<i32> for Pos2 {
    type Output = Pos2;

    #[inline]
    fn mul(self, scale: i32) -> (r: Pos2) {
        Pos2 { x: self.x * scale, y: self.y * scale }
    }
}

impl DivSpecImpl<i32> for Pos2 {
    open spec fn obeys_div_spec() -> bool {
        true
    }

    open spec fn div_req(self, scale: i32) -> bool {
        scale != 0 && (scale == -1 ==> self.x > i32::MIN && self.y > i32::MIN)
    }

    open spec fn div_spec(self, scale: i32) -> Pos2 {
        Pos2 {
            x: div_toward_zero(self.x as int, scale as int) as i32,
            y: div_toward_zero(self.y as int, scale as int) as i32,
        }
    }
}

impl Div<i32> for Pos2 {
    type Output = Pos2;

    #[inline]
    fn div(self, scale: i32) -> (r: Pos2) {
        Pos2 { x: self.x / scale, y: self.y / scale }
    }
}

} // verus!
