//! The framebuffer as an array of pixels: where a point is in it, and which
//! pixels an operation writes.

use vstd::prelude::*;

use crate::eink_update::fb_rect;
use crate::types::pos2::Pos2;
use crate::types::rectangle::Rectangle;
use crate::types::vec2::fits_i32;
use crate::{FB_HEIGHT, FB_WIDTH};

verus! {

/// Number of pixels of the framebuffer.
pub const FB_PIXELS: usize = 2628288;

/// Whether `point` is a pixel of the framebuffer.
pub open spec fn spec_on_screen(point: Pos2) -> bool {
    0 <= point.x < FB_WIDTH && 0 <= point.y < FB_HEIGHT
}

/// The index of a pixel in the array of pixels, which holds the rows one
/// after the other.
pub open spec fn spec_point_to_index(point: Pos2) -> int {
    point.y * FB_WIDTH + point.x
}

/// The index of `point` in the array of pixels. The point is not checked
/// against the bounds of the framebuffer.
#[must_use]
pub fn point_to_index(point: Pos2) -> (index: usize)
    requires
        0 <= point.x,
        0 <= point.y,
        spec_point_to_index(point) <= usize::MAX,
    ensures
        index == spec_point_to_index(point),
        spec_on_screen(point) ==> index < FB_PIXELS,
{
    assert(point.y * 1404 <= point.y * 1404 + point.x && 0 <= point.y * 1404) by (nonlinear_arith)
        requires
            0 <= point.y,
            0 <= point.x,
    ;
    assert(spec_on_screen(point) ==> point.y * 1404 + point.x < 2628288) by (nonlinear_arith)
        requires
            0 <= point.y,
            0 <= point.x,
    ;
    (point.y as usize) * (FB_WIDTH as usize) + (point.x as usize)
}

/// Whether `point` is a pixel of the framebuffer.
#[must_use]
pub fn on_screen(point: Pos2) -> (b: bool)
    ensures
        b == spec_on_screen(point),
{
    0 <= point.x && point.x < FB_WIDTH && 0 <= point.y && point.y < FB_HEIGHT
}

/// Sets one pixel; a point off the framebuffer is skipped.
pub fn draw_pixel(pixels: &mut [u16], point: Pos2, color: u16)
    requires
        old(pixels)@.len() == FB_PIXELS,
    ensures
        final(pixels)@ == (if spec_on_screen(point) {
            old(pixels)@.update(spec_point_to_index(point), color)
        } else {
            old(pixels)@
        }),
{
    if on_screen(point) {
        proof {
            lemma_index_injective(point, point);
        }
        let index = point_to_index(point);
        pixels[index] = color;
    }
}

/// Fills the part of `area` that lies on the framebuffer with `color`, row
/// by row; every other pixel stays as it is.
pub fn fill_solid(pixels: &mut [u16], area: &Rectangle, color: u16)
    requires
        old(pixels)@.len() == FB_PIXELS,
        area.size.x > i32::MIN,
        area.size.y > i32::MIN,
        area.end_fits(),
    ensures
        final(pixels)@.len() == FB_PIXELS,
        forall|p: Pos2|
            spec_on_screen(p) ==> #[trigger] final(pixels)@[spec_point_to_index(p)] == (
            if area.spec_contains(p) {
                color
            } else {
                old(pixels)@[spec_point_to_index(p)]
            }),
{
    let clipped = area.normalize().intersection(&fb_rect());
    proof {
        assert forall|p: Pos2| spec_on_screen(p) == crate::eink_update::spec_fb_rect().spec_contains(
            p,
        ) by {}
    }
    if clipped.is_empty() {
        return ;
    }
    let left = clipped.origin.x;
    let top = clipped.origin.y;
    let right = clipped.origin.x + clipped.size.x;
    let bottom = clipped.origin.y + clipped.size.y;
    let mut y = top;
    while y < bottom
        invariant
            pixels@.len() == FB_PIXELS,
            0 <= left <= right <= FB_WIDTH,
            0 <= top <= y,
            top <= bottom <= FB_HEIGHT,
            y <= bottom || top == bottom,
            forall|p: Pos2| clipped.spec_contains(p) == (area.spec_contains(p) && spec_on_screen(p)),
            forall|p: Pos2| clipped.spec_contains(p) == (left <= p.x < right && top <= p.y < bottom),
            forall|p: Pos2|
                spec_on_screen(p) ==> #[trigger] pixels@[spec_point_to_index(p)] == (if left <= p.x
                    < right && top <= p.y < y {
                    color
                } else {
                    old(pixels)@[spec_point_to_index(p)]
                }),
        decreases bottom - y,
    {
        let ghost row_start = pixels@;
        let mut x = left;
        while x < right
            invariant
                pixels@.len() == FB_PIXELS,
                0 <= left <= x <= right <= FB_WIDTH,
                0 <= top <= y < bottom <= FB_HEIGHT,
                forall|p: Pos2|
                    spec_on_screen(p) ==> #[trigger] pixels@[spec_point_to_index(p)] == (if p.y
                        == y && left <= p.x < x {
                        color
                    } else {
                        row_start[spec_point_to_index(p)]
                    }),
            decreases right - x,
        {
            proof {
                lemma_index_injective(Pos2 { x, y }, Pos2 { x, y });
            }
            let index = point_to_index(Pos2 { x, y });
            let ghost before = pixels@;
            pixels[index] = color;
            proof {
                assert forall|p: Pos2| spec_on_screen(p) implies #[trigger] pixels@[spec_point_to_index(
                    p,
                )] == (if p.y == y && left <= p.x < x + 1 {
                    color
                } else {
                    row_start[spec_point_to_index(p)]
                }) by {
                    lemma_index_injective(p, Pos2 { x, y });
                    assert(before[spec_point_to_index(p)] == (if p.y == y && left <= p.x < x {
                        color
                    } else {
                        row_start[spec_point_to_index(p)]
                    }));
                }
            }
            x = x + 1;
        }
        y = y + 1;
    }
}

/// The pixels after the first `n` points of `points` got the colors of the
/// same positions in `colors`; points off the framebuffer are skipped, and
/// their colors with them.
pub open spec fn spec_fill_contiguous(pixels: Seq<u16>, points: Seq<Pos2>, colors: Seq<u16>, n: int) -> Seq<
    u16,
>
    decreases n,
{
    if n <= 0 {
        pixels
    } else {
        let before = spec_fill_contiguous(pixels, points, colors, n - 1);
        if spec_on_screen(points[n - 1]) {
            before.update(spec_point_to_index(points[n - 1]), colors[n - 1])
        } else {
            before
        }
    }
}

/// Gives the pixels of `area`, row by row, the colors of `colors` in order,
/// until one of the two runs out. Pixels off the framebuffer use up their
/// color and are skipped.
pub fn fill_contiguous(pixels: &mut [u16], area: &Rectangle, colors: &[u16])
    requires
        old(pixels)@.len() == FB_PIXELS,
        area.size.x > i32::MIN,
        area.size.y > i32::MIN,
        area.end_fits(),
    ensures
        final(pixels)@ == spec_fill_contiguous(
            old(pixels)@,
            area.spec_points(),
            colors@,
            if colors@.len() <= area.spec_points().len() {
                colors@.len() as int
            } else {
                area.spec_points().len() as int
            },
        ),
{
    let mut points = area.points();
    let ghost all = area.spec_points();
    let mut k: usize = 0;
    let mut exhausted = false;
    while k < colors.len() && !exhausted
        invariant
            k <= colors.len(),
            points.wf(),
            all == area.spec_points(),
            k <= all.len(),
            exhausted ==> k == all.len(),
            points.remaining() == all.skip(k as int),
            pixels@.len() == FB_PIXELS,
            pixels@ == spec_fill_contiguous(old(pixels)@, all, colors@, k as int),
        decreases colors.len() - k + (if exhausted { 0int } else { 1int }),
    {
        match points.next() {
            Some(point) => {
                draw_pixel(pixels, point, colors[k]);
                proof {
                    if spec_on_screen(point) {
                        lemma_index_injective(point, point);
                    }
                }
                k = k + 1;
            },
            None => {
                exhausted = true;
            },
        }
    }
}

/// Different pixels of the framebuffer have different indices.
pub proof fn lemma_index_injective(a: Pos2, b: Pos2)
    requires
        spec_on_screen(a),
        spec_on_screen(b),
    ensures
        (spec_point_to_index(a) == spec_point_to_index(b)) == (a == b),
        0 <= spec_point_to_index(a) < FB_PIXELS,
{
    assert(0 <= a.y * 1404 + a.x < 2628288) by (nonlinear_arith)
        requires
            0 <= a.x < 1404,
            0 <= a.y < 1872,
    ;
    if a.y != b.y {
        assert(a.y * 1404 + a.x != b.y * 1404 + b.x) by (nonlinear_arith)
            requires
                0 <= a.x < 1404,
                0 <= b.x < 1404,
                a.y != b.y,
        ;
    }
}

/// The block of target pixels that one pixel of a target scaled by `factor`
/// stands for.
pub fn scaled_pixel(point: Pos2, factor: i32) -> (block: Rectangle)
    requires
        fits_i32(point.x * factor),
        fits_i32(point.y * factor),
    ensures
        block.origin.x == point.x * factor,
        block.origin.y == point.y * factor,
        block.size.x == factor,
        block.size.y == factor,
{
    Rectangle::single(point).scale_all(factor)
}

/// A draw target of which every pixel stands for a block of `N` by `N`
/// pixels of the target it wraps.
pub struct Scaled<T, const N: usize>(pub T);

} // verus!
