//! Gravity and velocity integration.
//!
//! Gravity accumulates on every gravity-affected body strictly before
//! positions are advanced. Velocity integration moves every body by
//! `velocity * elapsed` and only afterwards clamps the player's vertical
//! velocity, so the displacement of a tick always uses the pre-clamp
//! velocity; the clamp bounds only the velocity carried into the next tick.

use vstd::prelude::*;

use crate::body::DynamicBody;
use crate::geom::Vec2I;
use crate::units::clip_to_i64;
use crate::units::sat_add_i64;
use crate::units::sat_mul_i64;
use crate::units::clamp_i64;
use crate::units::spec_clamp;
use crate::units::GRAVITY_ACCEL_PER_MS;
use crate::units::MAX_Y_VELOCITY;
use crate::units::MIN_Y_VELOCITY;

verus! {

/// The vertical velocity after one tick of gravity: `v + GRAVITY_ACCEL_PER_MS
/// * dt`, saturating at the `i64` bounds.
pub open spec fn gravity_step_vel(v: int, dt: int) -> int {
    clip_to_i64(v + GRAVITY_ACCEL_PER_MS * dt)
}

/// One tick of gravity on one body: gravity-affected bodies gain
/// `GRAVITY_ACCEL_PER_MS * dt` of vertical velocity, others are unchanged.
/// No clamping happens here.
pub open spec fn spec_apply_gravity_body(b: DynamicBody, dt: int) -> DynamicBody {
    if b.gravity_affected {
        DynamicBody {
            position: b.position,
            velocity: Vec2I { x: b.velocity.x, y: gravity_step_vel(b.velocity.y as int, dt) as i64 },
            half_extent: b.half_extent,
            gravity_affected: b.gravity_affected,
            is_player: b.is_player,
        }
    } else {
        b
    }
}

/// One tick of gravity on every body.
pub open spec fn spec_apply_gravity(bodies: Seq<DynamicBody>, dt: int) -> Seq<DynamicBody> {
    bodies.map_values(|b: DynamicBody| spec_apply_gravity_body(b, dt))
}

/// Adds `GRAVITY_ACCEL_PER_MS * dt_ms` to the vertical velocity of every
/// gravity-affected body. Positions, flags, and other bodies are untouched.
pub fn apply_gravity(bodies: &mut Vec<DynamicBody>, dt_ms: u32)
    ensures
        final(bodies)@ == spec_apply_gravity(old(bodies)@, dt_ms as int),
{
    let n = bodies.len();
    for i in 0..n
        invariant
            n == bodies@.len(),
            bodies@.len() == old(bodies)@.len(),
            forall|j: int|
                0 <= j < i ==> bodies@[j] == spec_apply_gravity_body(
                    old(bodies)@[j],
                    dt_ms as int,
                ),
            forall|j: int| i <= j < n ==> bodies@[j] == old(bodies)@[j],
    {
        let b = bodies[i];
        if b.gravity_affected {
            let dv: i64 = GRAVITY_ACCEL_PER_MS * (dt_ms as i64);
            let vy = sat_add_i64(b.velocity.y, dv);
            bodies.set(
                i,
                DynamicBody {
                    position: b.position,
                    velocity: Vec2I { x: b.velocity.x, y: vy },
                    half_extent: b.half_extent,
                    gravity_affected: b.gravity_affected,
                    is_player: b.is_player,
                },
            );
        }
    }
    proof {
        assert(bodies@ =~= spec_apply_gravity(old(bodies)@, dt_ms as int));
    }
}

/// One axis of position integration: `p + v * dt`, each step saturating at
/// the `i64` bounds.
pub open spec fn integrate_axis(p: int, v: int, dt: int) -> int {
    clip_to_i64(p + clip_to_i64(v * dt))
}

/// One tick of velocity integration on one body: the position advances by
/// `velocity * dt` on both axes, then, for the player only, the vertical
/// velocity is clamped into `[MIN_Y_VELOCITY, MAX_Y_VELOCITY]`. The
/// displacement uses the pre-clamp velocity.
pub open spec fn spec_integrate_body(b: DynamicBody, dt: int) -> DynamicBody {
    DynamicBody {
        position: Vec2I {
            x: integrate_axis(b.position.x as int, b.velocity.x as int, dt) as i64,
            y: integrate_axis(b.position.y as int, b.velocity.y as int, dt) as i64,
        },
        velocity: Vec2I {
            x: b.velocity.x,
            y: if b.is_player {
                spec_clamp(b.velocity.y as int, MIN_Y_VELOCITY as int, MAX_Y_VELOCITY as int) as i64
            } else {
                b.velocity.y
            },
        },
        half_extent: b.half_extent,
        gravity_affected: b.gravity_affected,
        is_player: b.is_player,
    }
}

/// One tick of velocity integration on every body.
pub open spec fn spec_apply_velocity(bodies: Seq<DynamicBody>, dt: int) -> Seq<DynamicBody> {
    bodies.map_values(|b: DynamicBody| spec_integrate_body(b, dt))
}

/// Advances every body's position by `velocity * dt_ms`, then clamps the
/// vertical velocity of every player body into
/// `[MIN_Y_VELOCITY, MAX_Y_VELOCITY]`. The displacement of this tick uses the
/// pre-clamp velocity; the clamp only bounds the velocity going into the next
/// tick. After the call every player body's vertical velocity lies in the
/// clamp range.
pub fn apply_velocity(bodies: &mut Vec<DynamicBody>, dt_ms: u32)
    ensures
        final(bodies)@ == spec_apply_velocity(old(bodies)@, dt_ms as int),
        forall|j: int|
            0 <= j < final(bodies)@.len() && final(bodies)@[j].is_player
                ==> MIN_Y_VELOCITY <= final(bodies)@[j].velocity.y <= MAX_Y_VELOCITY,
{
    let n = bodies.len();
    for i in 0..n
        invariant
            n == bodies@.len(),
            bodies@.len() == old(bodies)@.len(),
            forall|j: int|
                0 <= j < i ==> bodies@[j] == spec_integrate_body(old(bodies)@[j], dt_ms as int),
            forall|j: int| i <= j < n ==> bodies@[j] == old(bodies)@[j],
    {
        let b = bodies[i];
        let px = sat_add_i64(b.position.x, sat_mul_i64(b.velocity.x, dt_ms as i64));
        let py = sat_add_i64(b.position.y, sat_mul_i64(b.velocity.y, dt_ms as i64));
        let vy = if b.is_player {
            clamp_i64(b.velocity.y, MIN_Y_VELOCITY, MAX_Y_VELOCITY)
        } else {
            b.velocity.y
        };
        bodies.set(
            i,
            DynamicBody {
                position: Vec2I { x: px, y: py },
                velocity: Vec2I { x: b.velocity.x, y: vy },
                half_extent: b.half_extent,
                gravity_affected: b.gravity_affected,
                is_player: b.is_player,
            },
        );
    }
    proof {
        assert(bodies@ =~= spec_apply_velocity(old(bodies)@, dt_ms as int));
    }
}

/// The physics of one tick: gravity first, then velocity integration with the
/// player clamp. This order is fixed; gravity must accumulate before the
/// position update of the same tick.
pub open spec fn spec_physics_step(bodies: Seq<DynamicBody>, dt: int) -> Seq<DynamicBody> {
    spec_apply_velocity(spec_apply_gravity(bodies, dt), dt)
}

/// The sum of a sequence of elapsed times.
pub open spec fn total_elapsed(dts: Seq<int>) -> int
    decreases dts.len(),
{
    if dts.len() == 0 {
        0
    } else {
        total_elapsed(dts.drop_last()) + dts.last()
    }
}

/// The vertical velocity after gravity has run once per tick for a sequence
/// of elapsed times.
pub open spec fn iter_gravity_vel(v: int, dts: Seq<int>) -> int
    decreases dts.len(),
{
    if dts.len() == 0 {
        v
    } else {
        gravity_step_vel(iter_gravity_vel(v, dts.drop_last()), dts.last())
    }
}

/// The sum of nonnegative elapsed times is nonnegative.
proof fn lemma_total_elapsed_nonneg(dts: Seq<int>)
    requires
        forall|i: int| 0 <= i < dts.len() ==> dts[i] >= 0,
    ensures
        total_elapsed(dts) >= 0,
    decreases dts.len(),
{
    if dts.len() > 0 {
        lemma_total_elapsed_nonneg(dts.drop_last());
    }
}

/// A body after the gravity integrator has run once per tick for a sequence
/// of elapsed times.
pub open spec fn iter_apply_gravity_body(b: DynamicBody, dts: Seq<int>) -> DynamicBody
    decreases dts.len(),
{
    if dts.len() == 0 {
        b
    } else {
        spec_apply_gravity_body(iter_apply_gravity_body(b, dts.drop_last()), dts.last())
    }
}

/// Iterated gravity only moves the vertical velocity, and moves it exactly as
/// `gravity_step_vel` does, tick by tick.
proof fn lemma_iter_gravity_body_fields(b: DynamicBody, dts: Seq<int>)
    requires
        b.gravity_affected,
    ensures
        iter_apply_gravity_body(b, dts).velocity.y as int == iter_gravity_vel(
            b.velocity.y as int,
            dts,
        ),
        iter_apply_gravity_body(b, dts).velocity.x == b.velocity.x,
        iter_apply_gravity_body(b, dts).position == b.position,
        iter_apply_gravity_body(b, dts).half_extent == b.half_extent,
        iter_apply_gravity_body(b, dts).gravity_affected == b.gravity_affected,
        iter_apply_gravity_body(b, dts).is_player == b.is_player,
    decreases dts.len(),
{
    if dts.len() > 0 {
        lemma_iter_gravity_body_fields(b, dts.drop_last());
    }
}

/// Gravity accumulation: starting from vertical velocity zero, after ticks
/// whose elapsed times total `T` — with no jump or clamp interference and no
/// saturation — the vertical velocity is exactly `GRAVITY_ACCEL_PER_MS * T`.
pub proof fn lemma_gravity_accumulates(dts: Seq<int>)
    requires
        forall|i: int| 0 <= i < dts.len() ==> dts[i] >= 0,
        GRAVITY_ACCEL_PER_MS * total_elapsed(dts) >= i64::MIN as int,
    ensures
        iter_gravity_vel(0, dts) == GRAVITY_ACCEL_PER_MS * total_elapsed(dts),
    decreases dts.len(),
{
    if dts.len() > 0 {
        let head = dts.drop_last();
        let last = dts.last();
        let t_head = total_elapsed(head);
        let t_all = total_elapsed(dts);
        lemma_total_elapsed_nonneg(head);
        lemma_total_elapsed_nonneg(dts);
        assert(t_all == t_head + last);
        assert(GRAVITY_ACCEL_PER_MS * t_all == GRAVITY_ACCEL_PER_MS * t_head
            + GRAVITY_ACCEL_PER_MS * last) by (nonlinear_arith)
            requires
                t_all == t_head + last,
        ;
        assert(GRAVITY_ACCEL_PER_MS * t_head >= GRAVITY_ACCEL_PER_MS * t_all) by (nonlinear_arith)
            requires
                t_head <= t_all,
                GRAVITY_ACCEL_PER_MS <= 0,
        ;
        assert(GRAVITY_ACCEL_PER_MS * t_all <= 0) by (nonlinear_arith)
            requires
                t_all >= 0,
                GRAVITY_ACCEL_PER_MS <= 0,
        ;
        lemma_gravity_accumulates(head);
    }
}

/// Gravity accumulation on a whole body: iterating the gravity integrator
/// over ticks whose elapsed times total `T` takes a gravity-affected body
/// from vertical velocity zero to exactly `GRAVITY_ACCEL_PER_MS * T`, and
/// changes nothing else — positions only move in the velocity integrator.
pub proof fn lemma_gravity_accumulates_on_body(b: DynamicBody, dts: Seq<int>)
    requires
        b.gravity_affected,
        b.velocity.y == 0,
        forall|i: int| 0 <= i < dts.len() ==> dts[i] >= 0,
        GRAVITY_ACCEL_PER_MS * total_elapsed(dts) >= i64::MIN as int,
    ensures
        iter_apply_gravity_body(b, dts).velocity.y as int == GRAVITY_ACCEL_PER_MS * total_elapsed(
            dts,
        ),
        iter_apply_gravity_body(b, dts).velocity.x == b.velocity.x,
        iter_apply_gravity_body(b, dts).position == b.position,
{
    lemma_iter_gravity_body_fields(b, dts);
    lemma_gravity_accumulates(dts);
}

} // verus!
