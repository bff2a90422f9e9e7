//! Quarter-turn rotations.

use vstd::prelude::*;

use crate::types::pos2::Pos2;
use crate::types::rectangle::Rectangle;
use crate::types::vec2::{fits_i32, Vec2};

verus! {

/// A clockwise rotation by a multiple of 90 degrees.
#[derive(Debug, Clone, Copy, PartialEq, Eq, Structural, Hash)]
pub enum Rotation {
    /// No rotation.
    Rotate0,
    /// Rotate clockwise by 90 degrees.
    Rotate90,
    /// Rotate by 180 degrees.
    Rotate180,
    /// Rotate counterclockwise by 90 degrees.
    Rotate270,
}

/// Where the quarter turn `r` takes the point `(x, y)` of a container of
/// extent `(cx, cy)`.
pub open spec fn rotate_point(r: Rotation, x: int, y: int, cx: int, cy: int) -> (int, int) {
    match r {
        Rotation::Rotate0 => (x, y),
        Rotation::Rotate90 => (cx - y, x),
        Rotation::Rotate180 => (cx - x, cy - y),
        Rotation::Rotate270 => (y, cy - x),
    }
}

/// The extent `(x, y)` turned by `r`, which keeps the sign the turn gives it.
pub open spec fn rotate_size(r: Rotation, x: int, y: int) -> (int, int) {
    match r {
        Rotation::Rotate0 => (x, y),
        Rotation::Rotate90 => (y, -x),
        Rotation::Rotate180 => (-x, -y),
        Rotation::Rotate270 => (-y, x),
    }
}

impl Rotation {
    /// Number of clockwise quarter turns.
    pub open spec fn quarter_turns(self) -> int {
        match self {
            Rotation::Rotate0 => 0,
            Rotation::Rotate90 => 1,
            Rotation::Rotate180 => 2,
            Rotation::Rotate270 => 3,
        }
    }

    /// The rotation that undoes this one.
    pub open spec fn spec_inverse(self) -> Rotation {
        match self {
            Rotation::Rotate0 => Rotation::Rotate0,
            Rotation::Rotate90 => Rotation::Rotate270,
            Rotation::Rotate180 => Rotation::Rotate180,
            Rotation::Rotate270 => Rotation::Rotate90,
        }
    }

    /// Whether turning `point` inside `container` stays within the range of
    /// the coordinates.
    pub open spec fn can_transform_point(self, point: Pos2, container: Vec2) -> bool {
        fits_i32(rotate_point(self, point.x as int, point.y as int, container.x as int, container.y as int).0)
            && fits_i32(
            rotate_point(self, point.x as int, point.y as int, container.x as int, container.y as int).1,
        )
    }

    /// Turns `point` about the local origin of a container of extent
    /// `container`.
    #[must_use]
    pub fn transform_point(self, point: Pos2, container: Vec2) -> (p: Pos2)
        requires
            self.can_transform_point(point, container),
        ensures
            (p.x as int, p.y as int) == rotate_point(
                self,
                point.x as int,
                point.y as int,
                container.x as int,
                container.y as int,
            ),
    {
        match self {
            Rotation::Rotate0 => point,
            Rotation::Rotate90 => Pos2 { x: container.x - point.y, y: point.x },
            Rotation::Rotate180 => container.to_pos() - point.to_vec(),
            Rotation::Rotate270 => Pos2 { x: point.y, y: container.y - point.x },
        }
    }

    /// Whether turning `rect` inside `container` stays within the range of
    /// the coordinates.
    pub open spec fn can_transform_rect(self, rect: Rectangle, container: Vec2) -> bool {
        let o = rotate_point(
            self,
            rect.origin.x as int,
            rect.origin.y as int,
            container.x as int,
            container.y as int,
        );
        let s = rotate_point(self, rect.size.x as int, rect.size.y as int, 0, 0);
        &&& fits_i32(o.0) && fits_i32(o.1)
        &&& i32::MIN < s.0 <= i32::MAX && i32::MIN < s.1 <= i32::MAX
        &&& fits_i32(o.0 + s.0) && fits_i32(o.1 + s.1)
    }

    /// Turns `rect` inside a container of extent `container`: the origin is
    /// turned about the container, the extent about the origin, and the
    /// result is normalised so that its origin is its top-left corner.
    pub fn transform_rect(self, rect: Rectangle, container: &Vec2) -> (r: Rectangle)
        requires
            self.can_transform_rect(rect, *container),
        ensures
            ({
                let o = rotate_point(
                    self,
                    rect.origin.x as int,
                    rect.origin.y as int,
                    container.x as int,
                    container.y as int,
                );
                let s = rotate_point(self, rect.size.x as int, rect.size.y as int, 0, 0);
                &&& r.origin.x == (if s.0 < 0 { o.0 + s.0 } else { o.0 })
                &&& r.origin.y == (if s.1 < 0 { o.1 + s.1 } else { o.1 })
                &&& r.size.x == (if s.0 < 0 { -s.0 } else { s.0 })
                &&& r.size.y == (if s.1 < 0 { -s.1 } else { s.1 })
            }),
    {
        let origin = self.transform_point(rect.origin, *container);
        let size = self.transform_point(rect.size.to_pos(), Vec2 { x: 0, y: 0 }).to_vec();
        (Rectangle { origin, size }).normalize()
    }

    /// Turns an extent; the components keep the sign that the turn gives
    /// them.
    #[inline]
    #[must_use]
    pub fn transform_size(self, size: Vec2) -> (v: Vec2)
        requires
            size.x > i32::MIN,
            size.y > i32::MIN,
        ensures
            (v.x as int, v.y as int) == rotate_size(self, size.x as int, size.y as int),
    {
        match self {
            Rotation::Rotate0 => size,
            Rotation::Rotate90 => Vec2 { x: size.y, y: -size.x },
            Rotation::Rotate180 => Vec2 { x: -size.x, y: -size.y },
            Rotation::Rotate270 => Vec2 { x: -size.y, y: size.x },
        }
    }

    /// The rotation that undoes this one.
    #[inline]
    #[must_use]
    #[verifier::when_used_as_spec(spec_inverse)]
    pub fn inverse(self) -> (r: Rotation)
        ensures
            r == self.spec_inverse(),
    {
        match self {
            Rotation::Rotate0 => Rotation::Rotate0,
            Rotation::Rotate90 => Rotation::Rotate270,
            Rotation::Rotate180 => Rotation::Rotate180,
            Rotation::Rotate270 => Rotation::Rotate90,
        }
    }
}

/// A rotation followed by its inverse, both taken in the same container,
/// returns every point to where it was, provided that the container is square
/// or the rotation is a half turn or no turn. (A quarter turn maps a container
/// onto one of swapped extent, so in an oblong container the inverse is taken
/// about another centre.)
pub proof fn lemma_inverse_undoes_rotation(r: Rotation, x: int, y: int, cx: int, cy: int)
    requires
        r == Rotation::Rotate90 || r == Rotation::Rotate270 ==> cx == cy,
    ensures
        ({
            let q = rotate_point(r, x, y, cx, cy);
            rotate_point(r.spec_inverse(), q.0, q.1, cx, cy) == (x, y)
        }),
{
}

/// A quarter turn followed by its inverse taken in the turned container (the
/// one of swapped extent) returns every point to where it was.
pub proof fn lemma_inverse_in_turned_container(r: Rotation, x: int, y: int, cx: int, cy: int)
    requires
        r == Rotation::Rotate90 || r == Rotation::Rotate270,
    ensures
        ({
            let q = rotate_point(r, x, y, cx, cy);
            rotate_point(r.spec_inverse(), q.0, q.1, cy, cx) == (x, y)
        }),
{
}

} // verus!
