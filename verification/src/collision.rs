//! Collision detection: one event per (player, obstacle) pair whose boxes
//! overlap this tick; consumers only ever ask whether at least one occurred.

use vstd::prelude::*;

use crate::body::DynamicBody;
use crate::body::StaticBody;
use crate::geom::spec_overlaps;
use crate::geom::overlaps;
use crate::geom::Aabb;

verus! {

/// How many obstacles overlap the given player box.
pub open spec fn spec_collision_count(player: Aabb, obstacles: Seq<StaticBody>) -> nat
    decreases obstacles.len(),
{
    if obstacles.len() == 0 {
        0
    } else {
        spec_collision_count(player, obstacles.drop_last()) + (if spec_overlaps(
            player,
            obstacles.last().spec_aabb(),
        ) {
            1nat
        } else {
            0nat
        })
    }
}

/// Tests the player body against every obstacle and returns the number of
/// overlapping pairs — the number of collision events of this tick. The
/// result is positive iff at least one obstacle overlaps the player. Pure
/// geometry; an empty obstacle set yields zero events, not an error.
pub fn collision_check(player: &DynamicBody, obstacles: &Vec<StaticBody>) -> (n: usize)
    ensures
        n == spec_collision_count(player.spec_aabb(), obstacles@),
        (n > 0) <==> (exists|j: int|
            0 <= j < obstacles@.len() && spec_overlaps(
                player.spec_aabb(),
                obstacles@[j].spec_aabb(),
            )),
{
    let pbox = player.aabb();
    let m = obstacles.len();
    let mut n: usize = 0;
    for i in 0..m
        invariant
            m == obstacles@.len(),
            pbox == player.spec_aabb(),
            n == spec_collision_count(pbox, obstacles@.subrange(0, i as int)),
            n <= i,
            (n > 0) <==> (exists|j: int|
                0 <= j < i && spec_overlaps(pbox, obstacles@[j].spec_aabb())),
    {
        proof {
            assert(obstacles@.subrange(0, i + 1).drop_last() =~= obstacles@.subrange(0, i as int));
            assert(obstacles@.subrange(0, i + 1).last() == obstacles@[i as int]);
        }
        let ob = obstacles[i].aabb();
        if overlaps(&pbox, &ob) {
            n = n + 1;
        }
    }
    proof {
        assert(obstacles@.subrange(0, m as int) =~= obstacles@);
    }
    n
}

} // verus!
