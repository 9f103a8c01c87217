use cube_jump::body::{find_unique_player, DynamicBody, StaticBody};
use cube_jump::collision::collision_check;
use cube_jump::geom::Vec2I;
use cube_jump::input::ButtonTracker;
use cube_jump::jump::jump_arbiter;
use cube_jump::units::JUMP_IMPULSE;

fn player_at(px: i64, py: i64, vy: i64) -> DynamicBody {
    DynamicBody::new(
        Vec2I::new(px, py),
        Vec2I::new(1_000, vy),
        Vec2I::new(25_000_000, 25_000_000),
        true,
        true,
    )
}

fn obstacle(px: i64, py: i64, hx: i64, hy: i64) -> StaticBody {
    StaticBody::new(Vec2I::new(px, py), Vec2I::new(hx, hy))
}

#[test]
fn button_edge_fires_once_per_press() {
    let mut b = ButtonTracker::new();
    assert!(b.update(true));
    // Holding the button produces no further clicks.
    assert!(!b.update(true));
    assert!(!b.update(true));
    // Releasing produces none either.
    assert!(!b.update(false));
    // A fresh press fires again.
    assert!(b.update(true));
}

#[test]
fn find_unique_player_cases() {
    let p = player_at(0, 0, 0);
    let mut other = player_at(5, 5, 0);
    other.is_player = false;

    let none: Vec<DynamicBody> = vec![other];
    assert_eq!(find_unique_player(&none), None);

    let one = vec![other, p];
    assert_eq!(find_unique_player(&one), Some(1));

    let two = vec![p, other, p];
    assert_eq!(find_unique_player(&two), None);
}

#[test]
fn collision_check_counts_each_overlapping_obstacle() {
    let p = player_at(0, 0, 0);
    let obstacles = vec![
        obstacle(0, -25_000_000, 100_000_000, 1_000_000),   // touches from below
        obstacle(10_000_000, 0, 25_000_000, 25_000_000),    // overlaps
        obstacle(900_000_000, 0, 25_000_000, 25_000_000),   // far away
    ];
    assert_eq!(collision_check(&p, &obstacles), 2);
    let empty: Vec<StaticBody> = vec![];
    assert_eq!(collision_check(&p, &empty), 0);
}

#[test]
fn click_without_collision_changes_nothing() {
    let before = player_at(0, 0, -3_000);
    let mut bodies = vec![before];
    jump_arbiter(&mut bodies, true, false);
    assert_eq!(bodies[0], before);
}

#[test]
fn collision_without_click_changes_nothing() {
    let before = player_at(0, 0, -3_000);
    let mut bodies = vec![before];
    jump_arbiter(&mut bodies, false, true);
    assert_eq!(bodies[0], before);
}

#[test]
fn click_and_collision_set_jump_impulse_exactly() {
    let before = player_at(4, 7, -3_000);
    let mut bodies = vec![before];
    jump_arbiter(&mut bodies, true, true);
    assert_eq!(bodies[0].velocity.y, JUMP_IMPULSE);
    assert_eq!(bodies[0].velocity.x, before.velocity.x);
    assert_eq!(bodies[0].position, before.position);
    assert_eq!(bodies[0].half_extent, before.half_extent);
}

#[test]
fn jump_leaves_non_player_bodies_alone() {
    let mut other = player_at(5, 5, -9_000);
    other.is_player = false;
    let p = player_at(0, 0, 0);
    let mut bodies = vec![other, p];
    jump_arbiter(&mut bodies, true, true);
    assert_eq!(bodies[0], other);
    assert_eq!(bodies[1].velocity.y, JUMP_IMPULSE);
}

#[test]
fn jump_requires_a_unique_player() {
    let p = player_at(0, 0, -3_000);
    let mut bodies = vec![p, p];
    jump_arbiter(&mut bodies, true, true);
    assert_eq!(bodies[0], p);
    assert_eq!(bodies[1], p);
}
