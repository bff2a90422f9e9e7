//! Axis-aligned rectangles and the row-major walk over their pixels.

use core::ops::Range;
use vstd::prelude::*;

use crate::types::pos2::{max_int, min_int, Pos2};
use crate::types::side::Side;
use crate::types::vec2::{div_toward_zero, fits_i32, Vec2};

verus! {

/// A rectangle given by a corner and a signed extent. A negative extent
/// reaches to the left of (or above) the origin; `normalize` moves the origin
/// to the top-left corner.
#[derive(Debug, Clone, Copy, PartialEq, Eq, Structural, Hash)]
pub struct Rectangle {
    pub origin: Pos2,
    pub size: Vec2,
}

/// Shorthand constructor.
#[inline]
#[must_use]
pub fn rect(x: i32, y: i32, width: i32, height: i32) -> (r: Rectangle)
    ensures
        r == (Rectangle { origin: Pos2 { x, y }, size: Vec2 { x: width, y: height } }),
{
    Rectangle { origin: Pos2 { x, y }, size: Vec2 { x: width, y: height } }
}

impl Rectangle {
    /// Origin and extent as mathematical integers: `(x, y, width, height)`.
    pub open spec fn as_ints(self) -> (int, int, int, int) {
        (self.origin.x as int, self.origin.y as int, self.size.x as int, self.size.y as int)
    }

    /// The smallest x coordinate the rectangle reaches.
    pub open spec fn spec_left(self) -> int {
        min_int(self.origin.x as int, self.origin.x + self.size.x)
    }

    /// One past the largest x coordinate covered.
    pub open spec fn spec_right(self) -> int {
        max_int(self.origin.x as int, self.origin.x + self.size.x)
    }

    /// The smallest y coordinate the rectangle reaches.
    pub open spec fn spec_top(self) -> int {
        min_int(self.origin.y as int, self.origin.y + self.size.y)
    }

    /// One past the largest y coordinate covered.
    pub open spec fn spec_bottom(self) -> int {
        max_int(self.origin.y as int, self.origin.y + self.size.y)
    }

    /// The pixels covered: left and top edges belong to the rectangle, right
    /// and bottom edges do not.
    pub open spec fn spec_contains(self, point: Pos2) -> bool {
        self.spec_left() <= point.x < self.spec_right() && self.spec_top() <= point.y
            < self.spec_bottom()
    }

    /// Whether the far corner is representable.
    pub open spec fn end_fits(self) -> bool {
        fits_i32(self.origin.x + self.size.x) && fits_i32(self.origin.y + self.size.y)
    }

    /// Whether the extent is non-negative on both axes, so that the origin is
    /// the top-left corner.
    pub open spec fn is_normal(self) -> bool {
        self.size.x >= 0 && self.size.y >= 0
    }

    /// The rectangle at the origin with no extent.
    #[inline]
    #[must_use]
    pub fn zero() -> (r: Rectangle)
        ensures
            r == (Rectangle { origin: Pos2 { x: 0, y: 0 }, size: Vec2 { x: 0, y: 0 } }),
    {
        Rectangle { origin: Pos2 { x: 0, y: 0 }, size: Vec2 { x: 0, y: 0 } }
    }

    #[inline]
    #[must_use]
    pub fn new(origin: Pos2, size: Vec2) -> (r: Rectangle)
        ensures
            r == (Rectangle { origin, size }),
    {
        Rectangle { origin, size }
    }

    /// The rectangle that covers the single pixel at `origin`.
    #[inline]
    #[must_use]
    pub fn single(origin: Pos2) -> (r: Rectangle)
        ensures
            r == (Rectangle { origin, size: Vec2 { x: 1, y: 1 } }),
    {
        Rectangle { origin, size: Vec2::splat(1) }
    }

    #[inline]
    #[must_use]
    pub fn with_x(self, x: i32) -> (r: Rectangle)
        ensures
            r == (Rectangle { origin: Pos2 { x, y: self.origin.y }, size: self.size }),
    {
        Rectangle { origin: Pos2 { x, y: self.origin.y }, size: self.size }
    }

    #[inline]
    #[must_use]
    pub fn x(&self) -> (v: i32)
        ensures
            v == self.origin.x,
    {
        self.origin.x
    }

    /// Mutable access to the x coordinate of the origin.
    #[inline]
    #[must_use]
    pub fn x_mut(&mut self) -> (v: &mut i32)
        ensures
            *v == old(self).origin.x,
            *final(self) == (Rectangle {
                origin: Pos2 { x: *final(v), y: old(self).origin.y },
                size: old(self).size,
            }),
    {
        &mut self.origin.x
    }

    #[inline]
    #[must_use]
    pub fn with_y(self, y: i32) -> (r: Rectangle)
        ensures
            r == (Rectangle { origin: Pos2 { x: self.origin.x, y }, size: self.size }),
    {
        Rectangle { origin: Pos2 { x: self.origin.x, y }, size: self.size }
    }

    #[inline]
    #[must_use]
    pub fn y(&self) -> (v: i32)
        ensures
            v == self.origin.y,
    {
        self.origin.y
    }

    /// Mutable access to the y coordinate of the origin.
    #[inline]
    #[must_use]
    pub fn y_mut(&mut self) -> (v: &mut i32)
        ensures
            *v == old(self).origin.y,
            *final(self) == (Rectangle {
                origin: Pos2 { x: old(self).origin.x, y: *final(v) },
                size: old(self).size,
            }),
    {
        &mut self.origin.y
    }

    #[inline]
    #[must_use]
    pub fn with_size(self, size: Vec2) -> (r: Rectangle)
        ensures
            r == (Rectangle { origin: self.origin, size }),
    {
        Rectangle { origin: self.origin, size }
    }

    #[inline]
    #[must_use]
    pub fn with_width(self, width: i32) -> (r: Rectangle)
        ensures
            r == (Rectangle { origin: self.origin, size: Vec2 { x: width, y: self.size.y } }),
    {
        Rectangle { origin: self.origin, size: Vec2 { x: width, y: self.size.y } }
    }

    #[inline]
    #[must_use]
    pub fn width(&self) -> (v: i32)
        ensures
            v == self.size.x,
    {
        self.size.x
    }

    /// Mutable access to the width.
    #[inline]
    #[must_use]
    pub fn width_mut(&mut self) -> (v: &mut i32)
        ensures
            *v == old(self).size.x,
            *final(self) == (Rectangle {
                origin: old(self).origin,
                size: Vec2 { x: *final(v), y: old(self).size.y },
            }),
    {
        &mut self.size.x
    }

    #[inline]
    #[must_use]
    pub fn with_height(self, height: i32) -> (r: Rectangle)
        ensures
            r == (Rectangle { origin: self.origin, size: Vec2 { x: self.size.x, y: height } }),
    {
        Rectangle { origin: self.origin, size: Vec2 { x: self.size.x, y: height } }
    }

    #[inline]
    #[must_use]
    pub fn height(&self) -> (v: i32)
        ensures
            v == self.size.y,
    {
        self.size.y
    }

    /// Mutable access to the height.
    #[inline]
    #[must_use]
    pub fn height_mut(&mut self) -> (v: &mut i32)
        ensures
            *v == old(self).size.y,
            *final(self) == (Rectangle {
                origin: old(self).origin,
                size: Vec2 { x: old(self).size.x, y: *final(v) },
            }),
    {
        &mut self.size.y
    }

    /// The same set of pixels with the origin at the top-left corner and a
    /// non-negative extent.
    #[inline]
    pub fn normalize(self) -> (r: Rectangle)
        requires
            self.size.x > i32::MIN,
            self.size.y > i32::MIN,
            self.end_fits(),
        ensures
            r.is_normal(),
            r.origin.x == self.spec_left(),
            r.origin.y == self.spec_top(),
            r.size.x == self.spec_right() - self.spec_left(),
            r.size.y == self.spec_bottom() - self.spec_top(),
            forall|p: Pos2| r.spec_contains(p) == self.spec_contains(p),
    {
        let mut r = self;
        if r.size.x < 0 {
            r.size.x = -r.size.x;
            r.origin.x = r.origin.x - r.size.x;
        }
        if r.size.y < 0 {
            r.size.y = -r.size.y;
            r.origin.y = r.origin.y - r.size.y;
        }
        r
    }

    /// The corner opposite the origin.
    #[inline]
    #[must_use]
    pub fn end(&self) -> (p: Pos2)
        requires
            self.end_fits(),
        ensures
            p.x == self.origin.x + self.size.x,
            p.y == self.origin.y + self.size.y,
    {
        self.origin + self.size
    }

    #[inline]
    #[must_use]
    pub fn top_left(&self) -> (p: Pos2)
        requires
            self.end_fits(),
        ensures
            p.x == self.spec_left(),
            p.y == self.spec_top(),
    {
        let end = self.end();
        Pos2::min_components(self.origin, end)
    }

    #[inline]
    #[must_use]
    pub fn bottom_right(&self) -> (p: Pos2)
        requires
            self.end_fits(),
        ensures
            p.x == self.spec_right(),
            p.y == self.spec_bottom(),
    {
        let end = self.end();
        Pos2::max_components(self.origin, end)
    }

    /// Whether the overlap of the two rectangles can be computed within the
    /// range of the coordinates.
    pub open spec fn can_intersect(self, other: Rectangle) -> bool {
        &&& self.end_fits()
        &&& other.end_fits()
        &&& fits_i32(
            min_int(self.spec_right(), other.spec_right()) - max_int(
                self.spec_left(),
                other.spec_left(),
            ),
        )
        &&& fits_i32(
            min_int(self.spec_bottom(), other.spec_bottom()) - max_int(
                self.spec_top(),
                other.spec_top(),
            ),
        )
    }

    /// The overlap of two rectangles: it covers exactly the pixels that both
    /// cover. Its extent is never negative; where the two do not overlap on
    /// an axis, the extent on that axis is zero.
    #[inline]
    #[must_use]
    pub fn intersection(&self, other: &Rectangle) -> (r: Rectangle)
        requires
            self.can_intersect(*other),
        ensures
            r.is_normal(),
            r.origin.x == max_int(self.spec_left(), other.spec_left()),
            r.origin.y == max_int(self.spec_top(), other.spec_top()),
            r.size.x == max_int(0, min_int(self.spec_right(), other.spec_right()) - r.origin.x),
            r.size.y == max_int(0, min_int(self.spec_bottom(), other.spec_bottom()) - r.origin.y),
            forall|p: Pos2|
                r.spec_contains(p) == (self.spec_contains(p) && other.spec_contains(p)),
    {
        let top_left = Pos2::max_components(self.top_left(), other.top_left());
        let bottom_right = Pos2::min_components(self.bottom_right(), other.bottom_right());
        let mut ret = Rectangle::from_corners(top_left, bottom_right);
        // A negative size indicates no intersection.
        if ret.size.x < 0 {
            ret.size.x = 0;
        }
        if ret.size.y < 0 {
            ret.size.y = 0;
        }
        ret
    }

    /// The rectangle that reaches from `origin` to `end`.
    #[inline]
    #[must_use]
    pub fn from_corners(origin: Pos2, end: Pos2) -> (r: Rectangle)
        requires
            fits_i32(end.x - origin.x),
            fits_i32(end.y - origin.y),
        ensures
            r.origin == origin,
            r.size.x == end.x - origin.x,
            r.size.y == end.y - origin.y,
    {
        Rectangle { origin, size: end - origin }
    }

    /// A rectangle with a zero extent on either axis covers no pixel.
    pub open spec fn spec_is_empty(&self) -> bool {
        self.size.x == 0 || self.size.y == 0
    }

    #[inline]
    #[must_use]
    #[verifier::when_used_as_spec(spec_is_empty)]
    pub fn is_empty(&self) -> (b: bool)
        ensures
            b == self.spec_is_empty(),
            b ==> forall|p: Pos2| !self.spec_contains(p),
    {
        self.size.is_empty()
    }

    /// Whether the border of width `inset` can be removed within the range
    /// of the coordinates.
    pub open spec fn can_inset(self, inset: int) -> bool {
        &&& fits_i32(self.origin.x + inset)
        &&& fits_i32(self.origin.y + inset)
        &&& fits_i32(inset * 2)
        &&& fits_i32(self.size.x - inset * 2)
        &&& fits_i32(self.size.y - inset * 2)
    }

    /// The rectangle without a border `inset` pixels wide on every side.
    #[inline]
    #[must_use]
    pub fn inset(&self, inset: i32) -> (r: Rectangle)
        requires
            self.can_inset(inset as int),
        ensures
            r.origin.x == self.origin.x + inset,
            r.origin.y == self.origin.y + inset,
            r.size.x == self.size.x - 2 * inset,
            r.size.y == self.size.y - 2 * inset,
    {
        let inset = Vec2::splat(inset);
        Rectangle { origin: self.origin + inset, size: self.size - inset * 2 }
    }

    /// Origin and extent multiplied by `factor`.
    #[inline]
    pub fn scale_all(self, factor: i32) -> (r: Rectangle)
        requires
            fits_i32(self.origin.x * factor),
            fits_i32(self.origin.y * factor),
            fits_i32(self.size.x * factor),
            fits_i32(self.size.y * factor),
        ensures
            r.origin.x == self.origin.x * factor,
            r.origin.y == self.origin.y * factor,
            r.size.x == self.size.x * factor,
            r.size.y == self.size.y * factor,
    {
        Rectangle { origin: self.origin * factor, size: self.size * factor }
    }

    /// Whether the rectangle covers `point`.
    #[inline]
    #[must_use]
    pub fn contains(&self, point: Pos2) -> (b: bool)
        requires
            self.end_fits(),
        ensures
            b == self.spec_contains(point),
    {
        let xs = self.x_range();
        let ys = self.y_range();
        xs.start <= point.x && point.x < xs.end && ys.start <= point.y && point.y < ys.end
    }

    /// The midpoint between origin and end, each coordinate rounded toward
    /// zero.
    #[inline]
    #[must_use]
    pub fn center(&self) -> (p: Pos2)
        requires
            self.end_fits(),
            fits_i32(self.origin.x + (self.origin.x + self.size.x)),
            fits_i32(self.origin.y + (self.origin.y + self.size.y)),
        ensures
            p.x == div_toward_zero(self.origin.x + (self.origin.x + self.size.x), 2),
            p.y == div_toward_zero(self.origin.y + (self.origin.y + self.size.y), 2),
    {
        ((self.origin.to_vec() + self.end().to_vec()) / 2).to_pos()
    }

    #[inline]
    #[must_use]
    pub fn top(&self) -> (v: i32)
        requires
            self.end_fits(),
        ensures
            v == self.spec_top(),
    {
        let end = self.end();
        if self.origin.y <= end.y {
            self.origin.y
        } else {
            end.y
        }
    }

    #[inline]
    #[must_use]
    pub fn bottom(&self) -> (v: i32)
        requires
            self.end_fits(),
        ensures
            v == self.spec_bottom(),
    {
        let end = self.end();
        if self.origin.y >= end.y {
            self.origin.y
        } else {
            end.y
        }
    }

    #[inline]
    #[must_use]
    pub fn left(&self) -> (v: i32)
        requires
            self.end_fits(),
        ensures
            v == self.spec_left(),
    {
        let end = self.end();
        if self.origin.x <= end.x {
            self.origin.x
        } else {
            end.x
        }
    }

    #[inline]
    #[must_use]
    pub fn right(&self) -> (v: i32)
        requires
            self.end_fits(),
        ensures
            v == self.spec_right(),
    {
        let end = self.end();
        if self.origin.x >= end.x {
            self.origin.x
        } else {
            end.x
        }
    }

    /// The middle of the given side: the centre moved onto that edge.
    #[must_use]
    pub fn midpoint(&self, side: Side) -> (p: Pos2)
        requires
            self.end_fits(),
            fits_i32(self.origin.x + (self.origin.x + self.size.x)),
            fits_i32(self.origin.y + (self.origin.y + self.size.y)),
        ensures
            p.x == (match side {
                Side::Left => self.spec_left(),
                Side::Right => self.spec_right(),
                _ => div_toward_zero(self.origin.x + (self.origin.x + self.size.x), 2),
            }),
            p.y == (match side {
                Side::Top => self.spec_top(),
                Side::Bottom => self.spec_bottom(),
                _ => div_toward_zero(self.origin.y + (self.origin.y + self.size.y), 2),
            }),
    {
        let center = self.center();
        match side {
            Side::Top => center.with_y(self.top()),
            Side::Bottom => center.with_y(self.bottom()),
            Side::Left => center.with_x(self.left()),
            Side::Right => center.with_x(self.right()),
        }
    }

    /// The x coordinates covered, as a half-open range in ascending order.
    #[inline]
    #[must_use]
    pub fn x_range(&self) -> (r: Range<i32>)
        requires
            fits_i32(self.origin.x + self.size.x),
        ensures
            r.start == self.spec_left(),
            r.end == self.spec_right(),
    {
        order_range(self.origin.x..(self.origin.x + self.size.x))
    }

    /// The y coordinates covered, as a half-open range in ascending order.
    #[inline]
    #[must_use]
    pub fn y_range(&self) -> (r: Range<i32>)
        requires
            fits_i32(self.origin.y + self.size.y),
        ensures
            r.start == self.spec_top(),
            r.end == self.spec_bottom(),
    {
        order_range(self.origin.y..(self.origin.y + self.size.y))
    }
    /// Number of columns covered.
    pub open spec fn spec_width(self) -> int {
        self.spec_right() - self.spec_left()
    }

    /// Number of rows covered.
    pub open spec fn spec_height(self) -> int {
        self.spec_bottom() - self.spec_top()
    }

    /// The `i`-th pixel in row-major order, counted from the top-left corner.
    pub open spec fn spec_point_at(self, i: int) -> Pos2 {
        Pos2 {
            x: (self.spec_left() + i % self.spec_width()) as i32,
            y: (self.spec_top() + i / self.spec_width()) as i32,
        }
    }

    /// All pixels covered, row by row from the top, each row from the left.
    pub open spec fn spec_points(self) -> Seq<Pos2> {
        Seq::new((self.spec_width() * self.spec_height()) as nat, |i: int| self.spec_point_at(i))
    }

    /// A walk over all the pixels of this rectangle, row-major from the
    /// top-left corner of the normalised rectangle.
    #[inline]
    pub fn points(self) -> (it: Points)
        requires
            self.size.x > i32::MIN,
            self.size.y > i32::MIN,
            self.end_fits(),
        ensures
            it.wf(),
            it.remaining() == self.spec_points(),
    {
        let rect = self.normalize();
        let it = Points { rect, point: rect.origin };
        proof {
            if !rect.spec_contains(rect.origin) {
                assert(rect.spec_width() * rect.spec_height() == 0) by (nonlinear_arith)
                    requires
                        rect.spec_width() == 0 || rect.spec_height() == 0,
                ;
            }
        }
        it
    }
}

/// A walk over the pixels of a rectangle in row-major order.
#[derive(Debug, Clone)]
pub struct Points {
    rect: Rectangle,
    point: Pos2,
}

impl Points {
    /// The rectangle is normalised and the cursor is either on one of its
    /// pixels or past the last one.
    pub closed spec fn wf(&self) -> bool {
        &&& self.rect.is_normal()
        &&& self.rect.end_fits()
    }

    /// Number of pixels already handed out.
    pub closed spec fn consumed(&self) -> int {
        (self.point.y - self.rect.origin.y) * self.rect.spec_width() + (self.point.x
            - self.rect.origin.x)
    }

    /// The pixels still to come, in the order in which `next` returns them.
    pub closed spec fn remaining(&self) -> Seq<Pos2> {
        if self.rect.spec_contains(self.point) {
            Seq::new(
                (self.rect.spec_width() * self.rect.spec_height() - self.consumed()) as nat,
                |k: int| self.rect.spec_point_at(self.consumed() + k),
            )
        } else {
            Seq::empty()
        }
    }

    /// Hands out the next pixel, or `None` once all have been handed out.
    pub fn next(&mut self) -> (r: Option<Pos2>)
        requires
            old(self).wf(),
        ensures
            final(self).wf(),
            match r {
                Some(p) => old(self).remaining().len() > 0 && p == old(self).remaining()[0]
                    && final(self).remaining() == old(self).remaining().skip(1),
                None => old(self).remaining().len() == 0 && *final(self) == *old(self),
            },
    {
        if !self.rect.contains(self.point) {
            return None;
        }
        let ghost w = self.rect.spec_width();
        let ghost h = self.rect.spec_height();
        let ghost c = self.consumed();
        let ghost dx = self.point.x - self.rect.origin.x;
        let ghost dy = self.point.y - self.rect.origin.y;
        proof {
            assert(c < w * h && 0 <= c) by (nonlinear_arith)
                requires
                    c == dy * w + dx,
                    0 <= dx < w,
                    0 <= dy < h,
            ;
            vstd::arithmetic::div_mod::lemma_fundamental_div_mod_converse(c, w, dy, dx);
        }
        let ret = self.point;
        self.point.x = self.point.x + 1;
        if self.point.x >= self.rect.end().x {
            self.point.x = self.rect.origin.x;
            self.point.y = self.point.y + 1;
        }
        proof {
            assert(self.consumed() == c + 1) by (nonlinear_arith)
                requires
                    c == dy * w + dx,
                    0 <= dx < w,
                    self.consumed() == (self.point.y - self.rect.origin.y) * w + (self.point.x
                        - self.rect.origin.x),
                    (dx + 1 < w && self.point.x - self.rect.origin.x == dx + 1 && self.point.y
                        - self.rect.origin.y == dy) || (dx + 1 == w && self.point.x
                        - self.rect.origin.x == 0 && self.point.y - self.rect.origin.y == dy + 1),
            ;
            if !self.rect.spec_contains(self.point) {
                assert(c + 1 == w * h) by (nonlinear_arith)
                    requires
                        c + 1 == (dy + 1) * w + 0,
                        dy + 1 == h,
                ;
            }
        }
        Some(ret)
    }

    /// Lower and upper bound of the number of pixels still to come; the two
    /// agree.
    pub fn size_hint(&self) -> (r: (usize, Option<usize>))
        requires
            self.wf(),
            self.remaining().len() <= usize::MAX,
        ensures
            r.0 == self.remaining().len(),
            r.1 == Some(r.0),
    {
        if !self.rect.contains(self.point) {
            return (0, Some(0));
        }
        let end = self.rect.end();
        let ghost w = self.rect.spec_width();
        let ghost h = self.rect.spec_height();
        let ghost dx = self.point.x - self.rect.origin.x;
        let ghost dy = self.point.y - self.rect.origin.y;
        proof {
            assert(w * h - self.consumed() == (end.x - self.point.x) + (end.y - self.point.y - 1)
                * w && (end.y - self.point.y - 1) * w >= 0) by (nonlinear_arith)
                requires
                    self.consumed() == dy * w + dx,
                    end.x - self.point.x == w - dx,
                    end.y - self.point.y == h - dy,
                    0 <= dx < w,
                    0 <= dy < h,
            ;
        }
        // All of these are non-negative: the rectangle is normalised and the
        // cursor is on one of its pixels.
        let rest_x = (end.x - self.point.x) as usize;
        let rest_y = (end.y - self.point.y - 1) as usize;
        let width = self.rect.size.x as usize;
        let remaining = rest_x + rest_y * width;
        (remaining, Some(remaining))
    }
}

/// Swaps the bounds of a range that runs backward.
fn order_range(range: Range<i32>) -> (r: Range<i32>)
    ensures
        r.start == min_int(range.start as int, range.end as int),
        r.end == max_int(range.start as int, range.end as int),
{
    if range.end < range.start {
        range.end..range.start
    } else {
        range
    }
}

} // verus!
