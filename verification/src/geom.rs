use vstd::prelude::*;

verus! {

/// A 2-D vector of fixed-point coordinates (tenths of an arena unit).
#[derive(Clone, Copy, PartialEq, Eq, Structural, Debug)]
pub struct Vec2i {
    pub x: i32,
    pub y: i32,
}

impl Vec2i {
    /// The zero vector.
    pub fn zero() -> (v: Vec2i)
        ensures
            v.x == 0,
            v.y == 0,
    {
        Vec2i { x: 0, y: 0 }
    }
}

/// Overlap of two axis-aligned, top-left-anchored rectangles, stated over
/// unbounded integers. A rectangle with non-positive width or height never
/// overlaps anything.
pub open spec fn rects_overlap(
    ax: int,
    ay: int,
    aw: int,
    ah: int,
    bx: int,
    by: int,
    bw: int,
    bh: int,
) -> bool {
    ax < bx + bw && ax + aw > bx && ay < by + bh && ay + ah > by
}

/// AABB intersection test between two rectangles given as position and size.
pub fn rect_intersects(
    ax: i32,
    ay: i32,
    aw: i32,
    ah: i32,
    bx: i32,
    by: i32,
    bw: i32,
    bh: i32,
) -> (r: bool)
    requires
        -1_000_000 <= ax <= 1_000_000,
        -1_000_000 <= ay <= 1_000_000,
        -1_000_000 <= aw <= 1_000_000,
        -1_000_000 <= ah <= 1_000_000,
        -1_000_000 <= bx <= 1_000_000,
        -1_000_000 <= by <= 1_000_000,
        -1_000_000 <= bw <= 1_000_000,
        -1_000_000 <= bh <= 1_000_000,
    ensures
        r == rects_overlap(ax as int, ay as int, aw as int, ah as int, bx as int, by as int,
            bw as int, bh as int),
{
    ax < bx + bw && ax + aw > bx && ay < by + bh && ay + ah > by
}

/// Clamp `v` into `[lo, hi]`.
pub fn clamp_i32(v: i32, lo: i32, hi: i32) -> (r: i32)
    requires
        lo <= hi,
    ensures
        r == spec_clamp(v as int, lo as int, hi as int),
{
    if v < lo {
        lo
    } else if v > hi {
        hi
    } else {
        v
    }
}

/// Clamp over unbounded integers.
pub open spec fn spec_clamp(v: int, lo: int, hi: int) -> int {
    if v < lo {
        lo
    } else if v > hi {
        hi
    } else {
        v
    }
}

} // verus!
