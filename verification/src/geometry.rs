//! Geometry normalization: pure rules turning two pointer coordinates into
//! canonical rectangle and ellipse descriptions.

use vstd::prelude::*;

verus! {

/// Largest coordinate magnitude the geometry accepts.
///
/// Pixel coordinates fit comfortably within this bound; it guarantees that
/// sums and differences of two coordinates fit in an `i32`.
pub const COORD_LIMIT: i32 = 0x3fff_ffff;

/// A coordinate the geometry can normalize without overflow.
pub open spec fn in_coord_range(v: i32) -> bool {
    -COORD_LIMIT <= v <= COORD_LIMIT
}

/// The smaller of two coordinates.
pub open spec fn low_of(a: i32, b: i32) -> i32 {
    if a <= b {
        a
    } else {
        b
    }
}

/// The absolute difference of two coordinates.
pub open spec fn abs_diff(a: i32, b: i32) -> i32 {
    if a <= b {
        (b - a) as i32
    } else {
        (a - b) as i32
    }
}

/// The midpoint of two coordinates, rounded toward the smaller one.
pub open spec fn mid_of(a: i32, b: i32) -> i32 {
    (low_of(a, b) + abs_diff(a, b) / 2) as i32
}

/// Canonical rectangle for a drag between two corners: top-left corner is
/// the component-wise minimum, width and height the absolute component-wise
/// differences.
pub open spec fn spec_rect_bounds(ax: i32, ay: i32, bx: i32, by: i32) -> (i32, i32, i32, i32) {
    (low_of(ax, bx), low_of(ay, by), abs_diff(ax, bx), abs_diff(ay, by))
}

/// Canonical ellipse for a drag between two corners: center is the
/// per-axis midpoint, the radii are half the absolute per-axis differences.
pub open spec fn spec_ellipse_bounds(ax: i32, ay: i32, bx: i32, by: i32) -> (i32, i32, i32, i32) {
    (mid_of(ax, bx), mid_of(ay, by), (abs_diff(ax, bx) / 2) as i32, (abs_diff(ay, by) / 2) as i32)
}

/// Normalizes a rectangle drag so that dragging in any direction yields the
/// same top-left/width/height description.  Degenerate (zero width or
/// height) rectangles are permitted.
pub fn rect_bounds(ax: i32, ay: i32, bx: i32, by: i32) -> (r: (i32, i32, i32, i32))
    requires
        in_coord_range(ax),
        in_coord_range(ay),
        in_coord_range(bx),
        in_coord_range(by),
    ensures
        r == spec_rect_bounds(ax, ay, bx, by),
        r.2 >= 0,
        r.3 >= 0,
{
    let (x, w) = if bx >= ax {
        (ax, bx - ax)
    } else {
        (bx, ax - bx)
    };
    let (y, h) = if by >= ay {
        (ay, by - ay)
    } else {
        (by, ay - by)
    };
    (x, y, w, h)
}

/// Normalizes an ellipse drag to a center and per-axis radii.  Degenerate
/// (zero-radius) ellipses are permitted.
pub fn ellipse_bounds(ax: i32, ay: i32, bx: i32, by: i32) -> (r: (i32, i32, i32, i32))
    requires
        in_coord_range(ax),
        in_coord_range(ay),
        in_coord_range(bx),
        in_coord_range(by),
    ensures
        r == spec_ellipse_bounds(ax, ay, bx, by),
        r.2 >= 0,
        r.3 >= 0,
{
    let (lx, w) = if bx >= ax {
        (ax, bx - ax)
    } else {
        (bx, ax - bx)
    };
    let (ly, h) = if by >= ay {
        (ay, by - ay)
    } else {
        (by, ay - by)
    };
    let rx = w / 2;
    let ry = h / 2;
    (lx + rx, ly + ry, rx, ry)
}

/// Rectangle normalization is symmetric: a drag from `a` to `b` and a drag
/// from `b` to `a` produce the same rectangle.
pub proof fn lemma_rect_bounds_symmetric(ax: i32, ay: i32, bx: i32, by: i32)
    ensures
        spec_rect_bounds(ax, ay, bx, by) == spec_rect_bounds(bx, by, ax, ay),
{
}

/// A drag that ends where it started yields the degenerate rectangle at
/// that point: zero width and height, preserved rather than dropped.
pub proof fn lemma_rect_bounds_degenerate(x: i32, y: i32)
    ensures
        spec_rect_bounds(x, y, x, y) == (x, y, 0i32, 0i32),
{
}

/// Ellipse normalization is symmetric: a drag from `a` to `b` and a drag
/// from `b` to `a` produce the same ellipse.
pub proof fn lemma_ellipse_bounds_symmetric(ax: i32, ay: i32, bx: i32, by: i32)
    ensures
        spec_ellipse_bounds(ax, ay, bx, by) == spec_ellipse_bounds(bx, by, ax, ay),
{
}

} // verus!
