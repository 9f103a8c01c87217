//! The entity model: dynamic bodies (one of which is the player) and static
//! obstacles, plus the lookup for the unique player body.

use vstd::prelude::*;

use crate::geom::Aabb;
use crate::geom::Vec2I;

verus! {

/// A moving body. Position and half-extent are in micro-units, velocity in
/// milli-units per second. `gravity_affected` bodies accumulate gravity each
/// tick; the body with `is_player` additionally has its vertical velocity
/// clamped and is the subject of collision detection and jumps.
#[derive(Clone, Copy, PartialEq, Eq, Structural, Debug)]
pub struct DynamicBody {
    pub position: Vec2I,
    pub velocity: Vec2I,
    pub half_extent: Vec2I,
    pub gravity_affected: bool,
    pub is_player: bool,
}

/// An immovable obstacle: position and half-extent in micro-units.
#[derive(Clone, Copy, PartialEq, Eq, Structural, Debug)]
pub struct StaticBody {
    pub position: Vec2I,
    pub half_extent: Vec2I,
}

impl DynamicBody {
    /// Builds a dynamic body from its fields.
    pub fn new(
        position: Vec2I,
        velocity: Vec2I,
        half_extent: Vec2I,
        gravity_affected: bool,
        is_player: bool,
    ) -> (r: DynamicBody)
        ensures
            r.position == position,
            r.velocity == velocity,
            r.half_extent == half_extent,
            r.gravity_affected == gravity_affected,
            r.is_player == is_player,
    {
        DynamicBody { position, velocity, half_extent, gravity_affected, is_player }
    }

    /// The body's bounding box, as a spec value.
    pub open spec fn spec_aabb(self) -> Aabb {
        Aabb { center: self.position, half: self.half_extent }
    }

    /// The body's bounding box: its center is the position, its half-extent
    /// the body's half-extent.
    pub fn aabb(&self) -> (r: Aabb)
        ensures
            r == self.spec_aabb(),
    {
        Aabb { center: self.position, half: self.half_extent }
    }
}

impl StaticBody {
    /// Builds a static obstacle from its fields.
    pub fn new(position: Vec2I, half_extent: Vec2I) -> (r: StaticBody)
        ensures
            r.position == position,
            r.half_extent == half_extent,
    {
        StaticBody { position, half_extent }
    }

    /// The obstacle's bounding box, as a spec value.
    pub open spec fn spec_aabb(self) -> Aabb {
        Aabb { center: self.position, half: self.half_extent }
    }

    /// The obstacle's bounding box.
    pub fn aabb(&self) -> (r: Aabb)
        ensures
            r == self.spec_aabb(),
    {
        Aabb { center: self.position, half: self.half_extent }
    }
}

/// How many bodies in the sequence are marked as the player.
pub open spec fn player_count(s: Seq<DynamicBody>) -> nat
    decreases s.len(),
{
    if s.len() == 0 {
        0
    } else {
        player_count(s.drop_last()) + (if s.last().is_player {
            1nat
        } else {
            0nat
        })
    }
}

/// Finds the unique player body: `Some(i)` iff exactly one body is marked
/// `is_player`, in which case `i` is its index; `None` when there is no
/// player or more than one. Absence is a deliberate no-op for the callers,
/// never an error.
pub fn find_unique_player(bodies: &Vec<DynamicBody>) -> (r: Option<usize>)
    ensures
        r is Some <==> player_count(bodies@) == 1,
        match r {
            Some(i) => i < bodies@.len() && bodies@[i as int].is_player && (forall|j: int|
                0 <= j < bodies@.len() && j != i ==> !bodies@[j].is_player),
            None => player_count(bodies@) != 1,
        },
{
    let n = bodies.len();
    let mut count: usize = 0;
    let mut found: usize = 0;
    for i in 0..n
        invariant
            n == bodies@.len(),
            count == player_count(bodies@.subrange(0, i as int)),
            count <= i,
            count == 0 ==> (forall|j: int| 0 <= j < i ==> !bodies@[j].is_player),
            count >= 1 ==> found < i && bodies@[found as int].is_player,
            count == 1 ==> (forall|j: int|
                0 <= j < i && j != found ==> !bodies@[j].is_player),
    {
        proof {
            assert(bodies@.subrange(0, i + 1).drop_last() =~= bodies@.subrange(0, i as int));
            assert(bodies@.subrange(0, i + 1).last() == bodies@[i as int]);
        }
        if bodies[i].is_player {
            if count == 0 {
                found = i;
            }
            count = count + 1;
        }
    }
    proof {
        assert(bodies@.subrange(0, n as int) =~= bodies@);
    }
    if count == 1 {
        Some(found)
    } else {
        None
    }
}

} // verus!
