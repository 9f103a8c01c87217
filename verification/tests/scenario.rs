use cube_jump::body::{DynamicBody, StaticBody};
use cube_jump::geom::Vec2I;
use cube_jump::units::{JUMP_IMPULSE, MIN_Y_VELOCITY};
use cube_jump::world::World;

/// The player of the standard scene: at (-400, -100) units with half-extent
/// (25, 25), drifting right at 1 unit/s, gravity-affected.
fn standard_player() -> DynamicBody {
    DynamicBody::new(
        Vec2I::new(-400_000_000, -100_000_000),
        Vec2I::new(1_000, 0),
        Vec2I::new(25_000_000, 25_000_000),
        true,
        true,
    )
}

/// The ground of the standard scene: centered at (200, -375) units with
/// half-extent (5000, 250), so its top edge is at -125 units — exactly the
/// player's bottom edge.
fn standard_ground() -> StaticBody {
    StaticBody::new(
        Vec2I::new(200_000_000, -375_000_000),
        Vec2I::new(5_000_000_000, 250_000_000),
    )
}

#[test]
fn end_to_end_jump_then_fall_to_terminal_velocity() {
    let mut w = World::new(vec![standard_player()], vec![standard_ground()]);

    // The player's bottom touches the ground's top exactly; boundary touch
    // counts as a collision, so an injected click triggers the jump and the
    // tick ends with velocity.y set to exactly 5 units/s.
    let r = w.tick(true, 100);
    assert!(r.clicked);
    assert!(r.collisions > 0);
    assert!(r.jumped);
    assert_eq!(w.bodies[0].velocity.y, JUMP_IMPULSE);
    // Gravity ran before the jump overwrote the velocity, so the position
    // moved by the post-gravity velocity: -1 unit/s * 100 ms = -0.1 units.
    assert_eq!(w.bodies[0].position.y, -100_100_000);
    assert_eq!(w.bodies[0].position.x, -399_900_000);

    // With the button held (no new click edge), each further 100 ms tick
    // lowers velocity.y by exactly 10 * 0.1 = 1 unit/s until the clamp holds
    // it at -100 units/s.
    let mut expected: i64 = JUMP_IMPULSE;
    for _ in 0..150 {
        let r = w.tick(true, 100);
        assert!(!r.clicked);
        assert!(!r.jumped);
        expected = (expected - 1_000).max(MIN_Y_VELOCITY);
        assert_eq!(w.bodies[0].velocity.y, expected);
    }
    assert_eq!(w.bodies[0].velocity.y, MIN_Y_VELOCITY);
}

#[test]
fn no_buffering_click_then_late_collision() {
    // The player hovers 10 units above the ground: bottom at -115, ground
    // top at -125. A click now finds no collision and is discarded.
    let player = DynamicBody::new(
        Vec2I::new(200_000_000, -90_000_000),
        Vec2I::new(0, 0),
        Vec2I::new(25_000_000, 25_000_000),
        true,
        true,
    );
    let mut w = World::new(vec![player], vec![standard_ground()]);

    // Tick N: click edge, no collision, no jump. Gravity over one full
    // second brings velocity.y to -10 units/s and the position down 10
    // units, to exactly touch the ground at the next tick's start.
    let r = w.tick(true, 1000);
    assert!(r.clicked);
    assert_eq!(r.collisions, 0);
    assert!(!r.jumped);
    assert_eq!(w.bodies[0].velocity.y, -10_000);
    assert_eq!(w.bodies[0].position.y, -100_000_000);

    // Tick N+1: the button is still held, so no new click; the collision
    // arrives, but the stale click was not buffered — no jump, gravity keeps
    // accumulating.
    let r = w.tick(true, 1000);
    assert!(!r.clicked);
    assert!(r.collisions > 0);
    assert!(!r.jumped);
    assert_eq!(w.bodies[0].velocity.y, -20_000);
}

#[test]
fn world_without_player_is_a_silent_no_op() {
    let mut passive = standard_player();
    passive.is_player = false;
    passive.gravity_affected = false;
    let mut w = World::new(vec![passive], vec![standard_ground()]);
    let r = w.tick(true, 100);
    assert!(r.clicked);
    assert_eq!(r.collisions, 0);
    assert!(!r.jumped);
    // The passive body still integrates: 1 unit/s * 100 ms = 0.1 units.
    assert_eq!(w.bodies[0].position.x, -399_900_000);
    assert_eq!(w.bodies[0].velocity.y, 0);
}

#[test]
fn collision_alone_never_jumps() {
    let mut w = World::new(vec![standard_player()], vec![standard_ground()]);
    // Touching the ground every tick, but the button is never pressed.
    for _ in 0..5 {
        let r = w.tick(false, 50);
        assert!(!r.clicked);
        assert!(!r.jumped);
    }
    // Velocity is pure gravity: 5 ticks * 50 ms * -10/s = -2.5 units/s.
    assert_eq!(w.bodies[0].velocity.y, -2_500);
}
