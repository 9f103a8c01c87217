//! Jump arbitration: the two per-tick flags — a click edge and at least one
//! collision — combine by logical AND. Both present sets the player's
//! vertical velocity to the jump impulse, overwriting whatever gravity and
//! the clamp produced; a click with no concurrent collision is discarded with
//! no effect and is never retried on a later tick, since per-tick events are
//! built fresh each tick and never carried across a tick boundary.

use vstd::prelude::*;

use crate::body::find_unique_player;
use crate::body::player_count;
use crate::body::DynamicBody;
use crate::geom::Vec2I;
use crate::units::JUMP_IMPULSE;

verus! {

/// One body after jump arbitration: when the jump fires, a player body's
/// vertical velocity becomes `JUMP_IMPULSE`; every other field and every
/// non-player body is untouched.
pub open spec fn spec_jump_body(b: DynamicBody, jump: bool) -> DynamicBody {
    if jump && b.is_player {
        DynamicBody {
            position: b.position,
            velocity: Vec2I { x: b.velocity.x, y: JUMP_IMPULSE },
            half_extent: b.half_extent,
            gravity_affected: b.gravity_affected,
            is_player: b.is_player,
        }
    } else {
        b
    }
}

/// The bodies after jump arbitration: the jump fires iff a click edge and a
/// collision are both present this tick and exactly one player body exists.
pub open spec fn spec_jump(bodies: Seq<DynamicBody>, clicked: bool, collided: bool) -> Seq<
    DynamicBody,
> {
    let jump = clicked && collided && player_count(bodies) == 1;
    bodies.map_values(|b: DynamicBody| spec_jump_body(b, jump))
}

/// When the jump does not fire — no click, no collision, or no unique player
/// — jump arbitration changes nothing.
pub proof fn lemma_jump_noop(bodies: Seq<DynamicBody>, clicked: bool, collided: bool)
    requires
        !(clicked && collided && player_count(bodies) == 1),
    ensures
        spec_jump(bodies, clicked, collided) == bodies,
{
    assert(spec_jump(bodies, clicked, collided) =~= bodies);
}

/// Consumes this tick's click and collision flags. A click is consumed here
/// whether or not a jump results. If a click edge and a collision are both
/// present and exactly one player exists, the player's vertical velocity is
/// set to `JUMP_IMPULSE` exactly; in every other case — a click alone, a
/// collision alone, or neither — every body is left unchanged.
pub fn jump_arbiter(bodies: &mut Vec<DynamicBody>, clicked: bool, collided: bool)
    ensures
        final(bodies)@ == spec_jump(old(bodies)@, clicked, collided),
        !clicked ==> final(bodies)@ == old(bodies)@,
        clicked && !collided ==> final(bodies)@ == old(bodies)@,
        clicked && collided && player_count(old(bodies)@) == 1 ==> (forall|j: int|
            0 <= j < old(bodies)@.len() && old(bodies)@[j].is_player
                ==> final(bodies)@[j].velocity.y == JUMP_IMPULSE && final(bodies)@[j].velocity.x
                == old(bodies)@[j].velocity.x && final(bodies)@[j].position == old(
                bodies,
            )@[j].position),
        forall|j: int|
            0 <= j < old(bodies)@.len() && !old(bodies)@[j].is_player ==> final(bodies)@[j] == old(
                bodies,
            )@[j],
{
    if clicked && collided {
        let found = find_unique_player(bodies);
        match found {
            Some(i) => {
                let b = bodies[i];
                bodies.set(
                    i,
                    DynamicBody {
                        position: b.position,
                        velocity: Vec2I { x: b.velocity.x, y: JUMP_IMPULSE },
                        half_extent: b.half_extent,
                        gravity_affected: b.gravity_affected,
                        is_player: b.is_player,
                    },
                );
            },
            None => {},
        }
    }
    proof {
        if !(clicked && collided && player_count(old(bodies)@) == 1) {
            lemma_jump_noop(old(bodies)@, clicked, collided);
        }
        assert(bodies@ =~= spec_jump(old(bodies)@, clicked, collided));
    }
}

} // verus!
