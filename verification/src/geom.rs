//! Integer 2D vectors, axis-aligned bounding boxes, and the overlap test.
//!
//! A box is given by a center and a half-extent per axis; its projection on an
//! axis is the closed interval `[center - half, center + half]`. Two boxes
//! overlap iff their projected intervals intersect on both axes. Intervals
//! that merely touch at an endpoint count as intersecting, so a body resting
//! exactly on a surface is considered in contact.

use vstd::prelude::*;

verus! {

/// A 2D vector with integer components. The same type carries positions and
/// half-extents (micro-units) and velocities (milli-units per second).
#[derive(Clone, Copy, PartialEq, Eq, Structural, Debug)]
pub struct Vec2I {
    pub x: i64,
    pub y: i64,
}

impl Vec2I {
    /// Builds a vector from its two components.
    pub fn new(x: i64, y: i64) -> (r: Vec2I)
        ensures
            r.x == x,
            r.y == y,
    {
        Vec2I { x, y }
    }
}

/// An axis-aligned bounding box: a center and a half-extent per axis, both in
/// micro-units.
#[derive(Clone, Copy, PartialEq, Eq, Structural, Debug)]
pub struct Aabb {
    pub center: Vec2I,
    pub half: Vec2I,
}

impl Aabb {
    /// Builds a box from its center and half-extent.
    pub fn new(center: Vec2I, half: Vec2I) -> (r: Aabb)
        ensures
            r.center == center,
            r.half == half,
    {
        Aabb { center, half }
    }
}

/// The closed intervals `[ac - ah, ac + ah]` and `[bc - bh, bc + bh]`
/// intersect (touching endpoints count).
pub open spec fn axis_intersects(ac: int, ah: int, bc: int, bh: int) -> bool {
    ac - ah <= bc + bh && bc - bh <= ac + ah
}

/// Two boxes overlap iff their projections intersect on both axes.
pub open spec fn spec_overlaps(a: Aabb, b: Aabb) -> bool {
    axis_intersects(a.center.x as int, a.half.x as int, b.center.x as int, b.half.x as int)
        && axis_intersects(a.center.y as int, a.half.y as int, b.center.y as int, b.half.y as int)
}

/// Decides whether the two projected closed intervals intersect on one axis.
/// Widening to `i128` makes the endpoint sums exact for every input.
fn axis_intersects_exec(ac: i64, ah: i64, bc: i64, bh: i64) -> (r: bool)
    ensures
        r == axis_intersects(ac as int, ah as int, bc as int, bh as int),
{
    let a_min: i128 = ac as i128 - ah as i128;
    let a_max: i128 = ac as i128 + ah as i128;
    let b_min: i128 = bc as i128 - bh as i128;
    let b_max: i128 = bc as i128 + bh as i128;
    a_min <= b_max && b_min <= a_max
}

/// Decides whether two boxes overlap; total over all inputs.
pub fn overlaps(a: &Aabb, b: &Aabb) -> (r: bool)
    ensures
        r == spec_overlaps(*a, *b),
{
    let on_x = axis_intersects_exec(a.center.x, a.half.x, b.center.x, b.half.x);
    let on_y = axis_intersects_exec(a.center.y, a.half.y, b.center.y, b.half.y);
    on_x && on_y
}

/// Overlap is symmetric: swapping the two boxes never changes the answer.
pub proof fn lemma_overlaps_symmetric(a: Aabb, b: Aabb)
    ensures
        spec_overlaps(a, b) == spec_overlaps(b, a),
{
}

/// Separation: if the projected intervals are disjoint on at least one axis,
/// the boxes do not overlap.
pub proof fn lemma_separation(a: Aabb, b: Aabb)
    requires
        !axis_intersects(a.center.x as int, a.half.x as int, b.center.x as int, b.half.x as int)
            || !axis_intersects(a.center.y as int, a.half.y as int, b.center.y as int, b.half.y as int),
    ensures
        !spec_overlaps(a, b),
{
}

} // verus!
