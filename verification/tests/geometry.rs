use rmox::types::{pos2, rect, vec2, Pos2, Rectangle, Rotation, Side, Vec2};

#[test]
fn test_points() {
    let mut iter = rect(4, 2, -2, 2).points();
    let mut points = Vec::new();
    let mut remaining = 4;
    assert_eq!(iter.size_hint(), (remaining, Some(remaining)));
    while let Some(point) = iter.next() {
        remaining -= 1;
        assert_eq!(iter.size_hint(), (remaining, Some(remaining)));
        points.push(point);
    }
    assert_eq!(points, [pos2(2, 2), pos2(3, 2), pos2(2, 3), pos2(3, 3)]);
}

#[test]
fn rotation_test_transform_point() {
    let container = vec2(3, 3);
    let origin = pos2(1, 2);
    assert_eq!(Rotation::Rotate0.transform_point(origin, container), origin);
    assert_eq!(
        Rotation::Rotate90.transform_point(origin, container),
        pos2(1, 1)
    );
    assert_eq!(
        Rotation::Rotate180.transform_point(origin, container),
        pos2(2, 1),
    );
    assert_eq!(
        Rotation::Rotate270.transform_point(origin, container),
        pos2(2, 2),
    );
    assert_eq!(
        Rotation::Rotate270.transform_point(pos2(0, 0), container),
        pos2(0, 3),
    );
}

#[test]
fn rotation_test_transform_rect() {
    let r = rect(0, 0, 1, 2);
    assert_eq!(
        Rotation::Rotate270.transform_rect(r, &vec2(3, 3)),
        rect(0, 2, 2, 1),
    );
}

fn covered(r: &Rectangle, from: i32, to: i32) -> Vec<Pos2> {
    let mut points = Vec::new();
    for y in from..to {
        for x in from..to {
            if r.contains(pos2(x, y)) {
                points.push(pos2(x, y));
            }
        }
    }
    points
}

#[test]
fn normalize_keeps_the_pixels() {
    for r in [rect(4, 2, -2, 2), rect(1, 1, 3, -4), rect(0, 0, -3, -3), rect(2, 2, 3, 3), rect(5, 5, 0, 4)] {
        let n = r.normalize();
        assert!(n.size.x >= 0 && n.size.y >= 0);
        assert_eq!(n.origin, n.top_left());
        assert_eq!(covered(&n, -10, 10), covered(&r, -10, 10));
    }
    assert_eq!(rect(4, 2, -2, 2).normalize(), rect(2, 2, 2, 2));
}

#[test]
fn inverse_rotation_returns_the_point() {
    let square = vec2(7, 7);
    for r in [Rotation::Rotate0, Rotation::Rotate90, Rotation::Rotate180, Rotation::Rotate270] {
        for p in [pos2(0, 0), pos2(3, 5), pos2(6, 1)] {
            let there = r.transform_point(p, square);
            assert_eq!(r.inverse().transform_point(there, square), p);
        }
    }
    assert_eq!(Rotation::Rotate0.inverse(), Rotation::Rotate0);
    assert_eq!(Rotation::Rotate90.inverse(), Rotation::Rotate270);
    assert_eq!(Rotation::Rotate180.inverse(), Rotation::Rotate180);
    assert_eq!(Rotation::Rotate270.inverse(), Rotation::Rotate90);
    // A half turn is undone in any container.
    let oblong = vec2(3, 5);
    let there = Rotation::Rotate180.transform_point(pos2(1, 2), oblong);
    assert_eq!(Rotation::Rotate180.inverse().transform_point(there, oblong), pos2(1, 2));
    // A quarter turn is undone in the container of swapped extent.
    let there = Rotation::Rotate90.transform_point(pos2(1, 2), oblong);
    assert_eq!(there, pos2(1, 1));
    assert_eq!(Rotation::Rotate270.transform_point(there, oblong.swap()), pos2(1, 2));
}

#[test]
fn take_splits_the_rectangle() {
    for side in [Side::Top, Side::Right, Side::Bottom, Side::Left] {
        for amount in [0, 1, 3, 5] {
            let whole = rect(2, 3, 5, 6);
            let mut rest = whole;
            let slice = side.take(amount, &mut rest);
            let mut both = covered(&slice, -5, 20);
            for p in covered(&rest, -5, 20) {
                assert!(!slice.contains(p));
                both.push(p);
            }
            both.sort_by_key(|p| (p.y, p.x));
            assert_eq!(both, covered(&whole, -5, 20));
        }
    }
    let mut rest = rect(4, 4, 1396, 1864);
    assert_eq!(Side::Top.take(48, &mut rest), rect(4, 4, 1396, 48));
    assert_eq!(rest, rect(4, 52, 1396, 1816));
    let mut rest = rect(0, 0, 10, 10);
    assert_eq!(Side::Right.take(3, &mut rest), rect(7, 0, 3, 10));
    assert_eq!(rest, rect(0, 0, 7, 10));
    let mut rest = rect(0, 0, 10, 10);
    assert_eq!(Side::Bottom.take(3, &mut rest), rect(0, 7, 10, 3));
    assert_eq!(rest, rect(0, 0, 10, 7));
    let mut rest = rect(0, 0, 10, 10);
    assert_eq!(Side::Left.take(3, &mut rest), rect(0, 0, 3, 10));
    assert_eq!(rest, rect(3, 0, 7, 10));
}

#[test]
fn side_rotates_clockwise() {
    assert_eq!(Side::Top.rotate(Rotation::Rotate0), Side::Top);
    assert_eq!(Side::Top.rotate(Rotation::Rotate90), Side::Right);
    assert_eq!(Side::Left.rotate(Rotation::Rotate90), Side::Top);
    assert_eq!(Side::Left.rotate(Rotation::Rotate180), Side::Right);
    assert_eq!(Side::Bottom.rotate(Rotation::Rotate270), Side::Right);
    assert_eq!(Side::Top.vec_toward(), vec2(0, -1));
    assert_eq!(Side::Right.vec_toward(), vec2(1, 0));
}

#[test]
fn intersection_is_clamped() {
    let a = rect(0, 0, 10, 10);
    assert_eq!(a.intersection(&rect(5, 5, 10, 10)), rect(5, 5, 5, 5));
    let apart = a.intersection(&rect(20, 3, 5, 5));
    assert_eq!(apart.size.x, 0);
    assert!(apart.is_empty());
    assert_eq!(a.intersection(&rect(12, -2, -4, 4)), rect(8, 0, 2, 2));
}

#[test]
fn empty_rectangles() {
    assert!(rect(3, 3, 0, 5).is_empty());
    assert!(rect(3, 3, 5, 0).is_empty());
    assert!(!rect(3, 3, 1, 1).is_empty());
    assert!(vec2(0, 4).is_empty());
    assert_eq!(rect(3, 3, 0, 5).points().next(), None);
}

#[test]
fn vector_and_point_arithmetic() {
    assert_eq!(pos2(1, 2) + vec2(3, 4), pos2(4, 6));
    assert_eq!(pos2(1, 2) - vec2(3, 4), pos2(-2, -2));
    assert_eq!(pos2(5, 7) - pos2(1, 2), vec2(4, 5));
    assert_eq!(pos2(1, -2) * 3, pos2(3, -6));
    assert_eq!(pos2(7, -7) / 2, pos2(3, -3));
    assert_eq!(vec2(7, -7) / 2, vec2(3, -3));
    assert_eq!(vec2(7, -7) / -2, vec2(-3, 3));
    assert_eq!(-vec2(1, -2), vec2(-1, 2));
    assert_eq!(vec2(1, 2) + vec2(3, 4) - vec2(1, 1), vec2(3, 5));
    assert_eq!(vec2(-3, 4).abs(), vec2(3, 4));
    assert_eq!(Vec2::splat(2) * 4, vec2(8, 8));
    assert_eq!(Pos2::splat(2), pos2(2, 2));
    assert_eq!(pos2(1, 9).min_components(pos2(4, 3)), pos2(1, 3));
    assert_eq!(pos2(1, 9).max_components(pos2(4, 3)), pos2(4, 9));
    assert_eq!(pos2(1, 1).offset(Side::Top, 3), pos2(1, -2));
    assert_eq!(pos2(1, 1).offset(Side::Right, 3), pos2(4, 1));
    assert_eq!(pos2(-1, 12).wrap_within(&rect(0, 0, 10, 10)), pos2(9, 2));
    assert_eq!(pos2(13, 3).wrap_within(&rect(2, 2, 5, -4)), pos2(3, 3));
}

#[test]
fn unsigned_extents() {
    assert_eq!(vec2(3, 0).to_unsigned(), Ok((3, 0)));
    assert_eq!(vec2(-1, 4).to_unsigned(), Err(rmox::types::ComponentOutOfRange));
    assert_eq!(vec2(4, -1).to_unsigned(), Err(rmox::types::ComponentOutOfRange));
}

#[test]
fn rectangle_accessors() {
    let mut r = rect(1, 2, 3, 4);
    assert_eq!((r.x(), r.y(), r.width(), r.height()), (1, 2, 3, 4));
    *r.x_mut() += 1;
    *r.height_mut() = 9;
    assert_eq!(r, rect(2, 2, 3, 9));
    assert_eq!(r.with_x(0).with_y(1).with_width(5).with_height(6), rect(0, 1, 5, 6));
    assert_eq!(r.with_size(vec2(1, 1)), Rectangle::single(pos2(2, 2)));
    assert_eq!(r.end(), pos2(5, 11));
    let flipped = rect(5, 5, -2, -3);
    assert_eq!(flipped.top_left(), pos2(3, 2));
    assert_eq!(flipped.bottom_right(), pos2(5, 5));
    assert_eq!((flipped.left(), flipped.right(), flipped.top(), flipped.bottom()), (3, 5, 2, 5));
    assert_eq!(flipped.x_range(), 3..5);
    assert_eq!(flipped.y_range(), 2..5);
    assert!(flipped.contains(pos2(3, 2)));
    assert!(!flipped.contains(pos2(5, 5)));
    assert_eq!(rect(0, 0, 10, 10).inset(2), rect(2, 2, 6, 6));
    assert_eq!(rect(1, 2, 3, 4).scale_all(2), rect(2, 4, 6, 8));
    assert_eq!(rect(0, 0, 10, 4).center(), pos2(5, 2));
    assert_eq!(rect(0, 0, 10, 4).midpoint(Side::Top), pos2(5, 0));
    assert_eq!(rect(0, 0, 10, 4).midpoint(Side::Right), pos2(10, 2));
    assert_eq!(Rectangle::from_corners(pos2(1, 1), pos2(4, 0)), rect(1, 1, 3, -1));
    assert_eq!(Rotation::Rotate90.transform_size(vec2(2, 3)), vec2(3, -2));
    assert_eq!(Rotation::Rotate270.transform_size(vec2(2, 3)), vec2(-3, 2));
}
