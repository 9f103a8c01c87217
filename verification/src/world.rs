//! The per-tick pipeline. Each tick runs, in this fixed order: input edge
//! detection, collision detection, gravity integration, velocity integration
//! with the player clamp, and jump arbitration. Click and collision events
//! live only for the tick that produced them: they are computed fresh at the
//! start of `tick` and consumed before it returns, so nothing is buffered
//! across ticks.

use vstd::prelude::*;

use crate::body::find_unique_player;
use crate::body::player_count;
use crate::body::DynamicBody;
use crate::body::StaticBody;
use crate::collision::collision_check;
use crate::collision::spec_collision_count;
use crate::geom::spec_overlaps;
use crate::input::is_click_edge;
use crate::input::ButtonTracker;
use crate::jump::jump_arbiter;
use crate::jump::lemma_jump_noop;
use crate::jump::spec_jump;
use crate::jump::spec_jump_body;
use crate::physics::apply_gravity;
use crate::physics::apply_velocity;
use crate::physics::spec_apply_gravity;
use crate::physics::spec_integrate_body;
use crate::physics::spec_physics_step;
use crate::units::MAX_Y_VELOCITY;
use crate::units::MIN_Y_VELOCITY;

verus! {

/// The whole simulation state: the dynamic bodies (one of which is normally
/// the player), the static obstacles, and the button state of the previous
/// tick.
pub struct World {
    pub bodies: Vec<DynamicBody>,
    pub obstacles: Vec<StaticBody>,
    pub button: ButtonTracker,
}

/// What one tick reported: whether a click edge occurred, how many collision
/// events were emitted, and whether the jump fired.
#[derive(Clone, Copy, PartialEq, Eq, Structural, Debug)]
pub struct TickReport {
    pub clicked: bool,
    pub collisions: usize,
    pub jumped: bool,
}

/// The collision detector reports at least one event this tick: it runs only
/// when exactly one player body exists, and then asks whether the player's
/// box overlaps any obstacle's box.
pub open spec fn spec_tick_collided(bodies: Seq<DynamicBody>, obstacles: Seq<StaticBody>) -> bool {
    player_count(bodies) == 1 && (exists|i: int, j: int|
        0 <= i < bodies.len() && 0 <= j < obstacles.len() && bodies[i].is_player && spec_overlaps(
            bodies[i].spec_aabb(),
            obstacles[j].spec_aabb(),
        ))
}

/// The bodies after one full tick: collision is detected on the start-of-tick
/// positions, then gravity and velocity integration run, and last the jump
/// arbiter, gated on this tick's click edge and collision flag.
pub open spec fn spec_tick_bodies(
    bodies: Seq<DynamicBody>,
    obstacles: Seq<StaticBody>,
    prev_pressed: bool,
    pressed: bool,
    dt: int,
) -> Seq<DynamicBody> {
    spec_jump(
        spec_physics_step(bodies, dt),
        is_click_edge(prev_pressed, pressed),
        spec_tick_collided(bodies, obstacles),
    )
}

impl World {
    /// Builds a world from its bodies and obstacles, with the button not yet
    /// seen pressed.
    pub fn new(bodies: Vec<DynamicBody>, obstacles: Vec<StaticBody>) -> (r: World)
        ensures
            r.bodies@ == bodies@,
            r.obstacles@ == obstacles@,
            !r.button.pressed,
    {
        World { bodies, obstacles, button: ButtonTracker::new() }
    }

    /// Runs one tick: input edge detection, collision detection, gravity,
    /// velocity integration with the player clamp, and jump arbitration, in
    /// that fixed order. `pressed` is this tick's raw button state and
    /// `dt_ms` the elapsed time. Total over all inputs: a world without a
    /// unique player simply detects no collisions and never jumps. After the
    /// call every player body's vertical velocity lies in
    /// `[MIN_Y_VELOCITY, MAX_Y_VELOCITY]`.
    pub fn tick(&mut self, pressed: bool, dt_ms: u32) -> (r: TickReport)
        ensures
            final(self).obstacles@ == old(self).obstacles@,
            final(self).button.pressed == pressed,
            final(self).bodies@ == spec_tick_bodies(
                old(self).bodies@,
                old(self).obstacles@,
                old(self).button.pressed,
                pressed,
                dt_ms as int,
            ),
            r.clicked == is_click_edge(old(self).button.pressed, pressed),
            (r.collisions > 0) == spec_tick_collided(old(self).bodies@, old(self).obstacles@),
            player_count(old(self).bodies@) != 1 ==> r.collisions == 0,
            forall|i: int|
                0 <= i < old(self).bodies@.len() && old(self).bodies@[i].is_player
                    && player_count(old(self).bodies@) == 1 ==> r.collisions
                    == spec_collision_count(
                    old(self).bodies@[i].spec_aabb(),
                    old(self).obstacles@,
                ),
            r.jumped == (r.clicked && spec_tick_collided(old(self).bodies@, old(self).obstacles@)),
            forall|j: int|
                0 <= j < final(self).bodies@.len() && final(self).bodies@[j].is_player
                    ==> MIN_Y_VELOCITY <= final(self).bodies@[j].velocity.y <= MAX_Y_VELOCITY,
    {
        let ghost bodies0 = self.bodies@;
        let ghost obstacles0 = self.obstacles@;
        let clicked = self.button.update(pressed);
        let found = find_unique_player(&self.bodies);
        let collisions: usize = match found {
            Some(i) => {
                let pb = self.bodies[i];
                collision_check(&pb, &self.obstacles)
            },
            None => 0,
        };
        let collided = collisions > 0;
        proof {
            if collided {
                let i = found.unwrap();
                let j = choose|j: int|
                    0 <= j < obstacles0.len() && spec_overlaps(
                        bodies0[i as int].spec_aabb(),
                        obstacles0[j].spec_aabb(),
                    );
                assert(spec_tick_collided(bodies0, obstacles0));
            }
            if spec_tick_collided(bodies0, obstacles0) {
                let (i2, j2): (int, int) = choose|i2: int, j2: int|
                    0 <= i2 < bodies0.len() && 0 <= j2 < obstacles0.len()
                        && bodies0[i2].is_player && spec_overlaps(
                        bodies0[i2].spec_aabb(),
                        obstacles0[j2].spec_aabb(),
                    );
                let i = found.unwrap();
                assert(i2 == i as int);
                assert(collisions > 0);
            }
        }
        apply_gravity(&mut self.bodies, dt_ms);
        apply_velocity(&mut self.bodies, dt_ms);
        jump_arbiter(&mut self.bodies, clicked, collided);
        proof {
            let stepped = spec_physics_step(bodies0, dt_ms as int);
            let jump = clicked && collided && player_count(stepped) == 1;
            assert forall|j: int|
                0 <= j < self.bodies@.len() && self.bodies@[j].is_player
                    implies MIN_Y_VELOCITY <= self.bodies@[j].velocity.y
                    <= MAX_Y_VELOCITY by {
                assert(self.bodies@[j] == spec_jump_body(stepped[j], jump));
                assert(stepped[j] == spec_integrate_body(
                    spec_apply_gravity(bodies0, dt_ms as int)[j],
                    dt_ms as int,
                ));
            }
        }
        TickReport { clicked, collisions, jumped: clicked && collided }
    }
}

/// No input buffering: a click on a tick with no collision is discarded, so a
/// collision arriving on the next tick with no new click edge does not
/// trigger a jump — after the two ticks the bodies are exactly what gravity
/// and velocity integration alone produce. The second tick's previous button
/// state is the first tick's raw state, as `tick` maintains it.
pub proof fn lemma_no_jump_buffering(
    bodies: Seq<DynamicBody>,
    obstacles: Seq<StaticBody>,
    prev: bool,
    pressed1: bool,
    pressed2: bool,
    dt1: int,
    dt2: int,
)
    requires
        is_click_edge(prev, pressed1),
        !spec_tick_collided(bodies, obstacles),
        !is_click_edge(pressed1, pressed2),
    ensures
        spec_tick_bodies(
            spec_tick_bodies(bodies, obstacles, prev, pressed1, dt1),
            obstacles,
            pressed1,
            pressed2,
            dt2,
        ) == spec_physics_step(spec_physics_step(bodies, dt1), dt2),
{
    let s1 = spec_physics_step(bodies, dt1);
    lemma_jump_noop(s1, is_click_edge(prev, pressed1), spec_tick_collided(bodies, obstacles));
    let s2 = spec_physics_step(s1, dt2);
    lemma_jump_noop(s2, is_click_edge(pressed1, pressed2), spec_tick_collided(s1, obstacles));
}

} // verus!
