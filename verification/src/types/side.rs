//! The four sides of a rectangle.

use vstd::prelude::*;

use crate::types::rectangle::Rectangle;
use crate::types::rotation::Rotation;
use crate::types::vec2::{fits_i32, Vec2};

verus! {

/// A side of the screen or of a rectangle, in clockwise order from the top.
#[derive(Debug, Clone, Copy, PartialEq, Eq, Structural, Hash)]
pub enum Side {
    Top,
    Right,
    Bottom,
    Left,
}

impl Side {
    /// Position of the side in clockwise order, starting with `Top` at 0.
    pub open spec fn index(self) -> int {
        match self {
            Side::Top => 0,
            Side::Right => 1,
            Side::Bottom => 2,
            Side::Left => 3,
        }
    }

    /// The side at position `i` (modulo 4) in clockwise order.
    pub open spec fn at(i: int) -> Side {
        let k = i % 4;
        if k == 0 {
            Side::Top
        } else if k == 1 {
            Side::Right
        } else if k == 2 {
            Side::Bottom
        } else {
            Side::Left
        }
    }

    /// Horizontal component of the unit vector that points toward the side.
    pub open spec fn unit_x(self) -> int {
        match self {
            Side::Right => 1,
            Side::Left => -1,
            _ => 0,
        }
    }

    /// Vertical component of the unit vector that points toward the side; the
    /// y axis grows downward.
    pub open spec fn unit_y(self) -> int {
        match self {
            Side::Top => -1,
            Side::Bottom => 1,
            _ => 0,
        }
    }

    /// Whether a band on this side is cut along the y axis.
    pub open spec fn is_vertical(self) -> bool {
        self == Side::Top || self == Side::Bottom
    }

    /// The side this one becomes when the screen is turned clockwise by
    /// `rotation`: one step clockwise per quarter turn.
    #[inline]
    #[must_use]
    pub fn rotate(self, rotation: Rotation) -> (s: Side)
        ensures
            s == Side::at(self.index() + rotation.quarter_turns()),
    {
        let steps: u8 = match rotation {
            Rotation::Rotate0 => 0,
            Rotation::Rotate90 => 1,
            Rotation::Rotate180 => 2,
            Rotation::Rotate270 => 3,
        };
        let from: u8 = match self {
            Side::Top => 0,
            Side::Right => 1,
            Side::Bottom => 2,
            Side::Left => 3,
        };
        let to: u8 = (from + steps) % 4;
        if to == 0 {
            Side::Top
        } else if to == 1 {
            Side::Right
        } else if to == 2 {
            Side::Bottom
        } else {
            Side::Left
        }
    }

    /// What is left of `from` after a band of width `amount` is cut off on
    /// this side.
    pub open spec fn remainder(self, amount: int, from: Rectangle) -> (int, int, int, int) {
        match self {
            Side::Top => (from.origin.x as int, from.origin.y + amount, from.size.x as int, from.size.y - amount),
            Side::Right => (from.origin.x as int, from.origin.y as int, from.size.x - amount, from.size.y as int),
            Side::Bottom => (from.origin.x as int, from.origin.y as int, from.size.x as int, from.size.y - amount),
            Side::Left => (from.origin.x + amount, from.origin.y as int, from.size.x - amount, from.size.y as int),
        }
    }

    /// The band of width `amount` on this side of `from`.
    pub open spec fn band(self, amount: int, from: Rectangle) -> (int, int, int, int) {
        match self {
            Side::Top => (from.origin.x as int, from.origin.y as int, from.size.x as int, amount),
            Side::Right => (from.origin.x + from.size.x - amount, from.origin.y as int, amount, from.size.y as int),
            Side::Bottom => (from.origin.x as int, from.origin.y + from.size.y - amount, from.size.x as int, amount),
            Side::Left => (from.origin.x as int, from.origin.y as int, amount, from.size.y as int),
        }
    }

    /// Whether cutting a band of width `amount` from `from` stays within the
    /// range of the coordinates.
    pub open spec fn can_take(self, amount: int, from: Rectangle) -> bool {
        match self {
            Side::Top => fits_i32(from.origin.y + amount) && fits_i32(from.size.y - amount),
            Side::Right => fits_i32(from.origin.x + from.size.x) && fits_i32(
                from.origin.x + from.size.x - amount,
            ) && fits_i32(from.size.x - amount),
            Side::Bottom => fits_i32(from.origin.y + from.size.y) && fits_i32(
                from.origin.y + from.size.y - amount,
            ) && fits_i32(from.size.y - amount),
            Side::Left => fits_i32(from.origin.x + amount) && fits_i32(from.size.x - amount),
        }
    }

    /// Cuts a band of width `amount` off this side of `from`: the band is
    /// returned and `from` becomes what is left. When the band is no wider
    /// than `from` (and not negative), band and remainder are disjoint and
    /// together cover exactly the pixels `from` covered before.
    pub fn take(self, amount: i32, from: &mut Rectangle) -> (slice: Rectangle)
        requires
            self.can_take(amount as int, *old(from)),
        ensures
            slice.as_ints() == self.band(amount as int, *old(from)),
            final(from).as_ints() == self.remainder(amount as int, *old(from)),
            0 <= amount <= (if self.is_vertical() { old(from).size.y } else { old(from).size.x })
                ==> forall|p: crate::types::pos2::Pos2|
                {
                    &&& old(from).spec_contains(p) <==> (#[trigger] slice.spec_contains(p)
                        || final(from).spec_contains(p))
                    &&& !(slice.spec_contains(p) && final(from).spec_contains(p))
                },
    {
        match self {
            Side::Top => {
                let ret = from.with_height(amount);
                from.size.y = from.size.y - amount;
                from.origin.y = from.origin.y + amount;
                ret
            },
            Side::Right => {
                let x = from.origin.x + from.size.x - amount;
                let ret = from.with_x(x).with_width(amount);
                from.size.x = from.size.x - amount;
                ret
            },
            Side::Bottom => {
                let y = from.origin.y + from.size.y - amount;
                let ret = from.with_y(y).with_height(amount);
                from.size.y = from.size.y - amount;
                ret
            },
            Side::Left => {
                let ret = from.with_width(amount);
                from.size.x = from.size.x - amount;
                from.origin.x = from.origin.x + amount;
                ret
            },
        }
    }

    /// The unit vector that points toward the side.
    #[inline]
    #[must_use]
    pub fn vec_toward(self) -> (v: Vec2)
        ensures
            v.x == self.unit_x(),
            v.y == self.unit_y(),
    {
        match self {
            Side::Top => Vec2 { x: 0, y: -1 },
            Side::Right => Vec2 { x: 1, y: 0 },
            Side::Bottom => Vec2 { x: 0, y: 1 },
            Side::Left => Vec2 { x: -1, y: 0 },
        }
    }
}

} // verus!
