//! Pass-level behavior: gravity acceleration and its cap, collision
//! application and its idempotence, velocity integration, sticky platforms,
//! parenting, grounded bookkeeping, the actor-actor broad phase, and a full
//! landing scenario through `step_actor`.

use pizzatopia::game::CollisionEvent;
use pizzatopia::passes::{
    actor_collisions, apply_collision, apply_gravity, apply_sticky, apply_velocity, step_actor,
    update_child_position, update_grounded, GRAVITY_ACCEL, TERMINAL_VELOCITY,
};
use pizzatopia::physics::{
    ChildTo, Collidee, CollideeDetails, CollisionDirection, CollisionSideOfBlock,
    GravityDirection, Grounded, PlatformCollisionPoints, Position, Sticky, Velocity,
};
use pizzatopia::spatial::{build_index, RTreeEntity};
use pizzatopia::vec2::Vec2;

fn v(x: i64, y: i64) -> Vec2 {
    Vec2 { x, y }
}

fn entry(x: i64, y: i64, hx: i64, hy: i64, id: u32) -> RTreeEntity {
    RTreeEntity::new(v(x, y), v(hx, hy), id)
}

#[test]
fn fall_speed_grows_monotonically_to_the_cap() {
    let g = GravityDirection(CollisionDirection::FromTop);
    let mut vel = Velocity(v(3, 0));
    let mut prev: i64 = 0;
    let mut reached_cap = false;
    for _ in 0..(TERMINAL_VELOCITY / GRAVITY_ACCEL + 5) {
        apply_gravity(&mut vel, &g, false);
        if !reached_cap {
            // strictly faster downward than before, never past the cap
            assert!(vel.0.y < prev);
            assert!(vel.0.y >= -TERMINAL_VELOCITY);
        } else {
            assert_eq!(vel.0.y, -TERMINAL_VELOCITY);
        }
        // the cross component is untouched
        assert_eq!(vel.0.x, 3);
        prev = vel.0.y;
        reached_cap = vel.0.y == -TERMINAL_VELOCITY;
    }
    assert!(reached_cap);
}

#[test]
fn gravity_respects_direction_and_blocking() {
    let mut vel = Velocity(v(0, 0));
    apply_gravity(&mut vel, &GravityDirection(CollisionDirection::FromBottom), false);
    assert_eq!(vel.0, v(0, GRAVITY_ACCEL));
    let mut vel = Velocity(v(0, 0));
    apply_gravity(&mut vel, &GravityDirection(CollisionDirection::FromLeft), false);
    assert_eq!(vel.0, v(GRAVITY_ACCEL, 0));
    let mut vel = Velocity(v(0, 0));
    apply_gravity(&mut vel, &GravityDirection(CollisionDirection::FromRight), false);
    assert_eq!(vel.0, v(-GRAVITY_ACCEL, 0));
    // a blocked entity is not accelerated
    let mut vel = Velocity(v(0, -6));
    apply_gravity(&mut vel, &GravityDirection(CollisionDirection::FromTop), true);
    assert_eq!(vel.0, v(0, -6));
}

#[test]
fn blocked_axis_is_snapped_and_stopped_exactly() {
    let mut collidee = Collidee::new();
    let mut d = CollideeDetails::new();
    d.new_collider_pos = v(7, 8);
    d.side = CollisionSideOfBlock::Top;
    collidee.vertical = Some(d);
    let mut pos = Position(v(0, 3));
    let mut vel = Velocity(v(5, -9));
    apply_collision(&mut pos, &mut vel, &collidee);
    // vertical axis snapped and zeroed exactly; horizontal untouched
    assert_eq!(pos.0, v(0, 8));
    assert_eq!(vel.0, v(5, 0));
}

#[test]
fn applying_the_same_report_twice_moves_nothing() {
    let mut collidee = Collidee::new();
    let mut dh = CollideeDetails::new();
    dh.new_collider_pos = v(-2, 0);
    dh.side = CollisionSideOfBlock::Left;
    collidee.horizontal = Some(dh);
    let mut dv = CollideeDetails::new();
    dv.new_collider_pos = v(0, 11);
    collidee.vertical = Some(dv);
    let mut pos = Position(v(4, 4));
    let mut vel = Velocity(v(3, 3));
    apply_collision(&mut pos, &mut vel, &collidee);
    let once = (pos.0, vel.0);
    apply_collision(&mut pos, &mut vel, &collidee);
    assert_eq!((pos.0, vel.0), once);
    assert_eq!(pos.0, v(-2, 11));
    assert_eq!(vel.0, v(0, 0));
}

#[test]
fn velocity_integrates_only_unblocked_axes() {
    let mut collidee = Collidee::new();
    collidee.vertical = Some(CollideeDetails::new());
    let mut pos = Position(v(10, 20));
    let vel = Velocity(v(3, -5));
    apply_velocity(&mut pos, &vel, &collidee);
    // y was snapped this step, so only x integrates
    assert_eq!(pos.0, v(13, 20));
    let mut pos2 = Position(v(0, 0));
    apply_velocity(&mut pos2, &vel, &Collidee::new());
    assert_eq!(pos2.0, v(3, -5));
}

#[test]
fn sticky_grounded_rider_inherits_platform_motion() {
    let mut pos = Position(v(5, 8));
    apply_sticky(&mut pos, &Sticky(true), &Grounded(true), v(2, 0));
    assert_eq!(pos.0, v(7, 8));
    apply_sticky(&mut pos, &Sticky(false), &Grounded(true), v(2, 0));
    assert_eq!(pos.0, v(7, 8));
    apply_sticky(&mut pos, &Sticky(true), &Grounded(false), v(2, 0));
    assert_eq!(pos.0, v(7, 8));
}

#[test]
fn child_follows_parent_with_offset() {
    let child = ChildTo { parent: 1, offset: v(0, 5) };
    let mut pos = Position(v(100, -100));
    update_child_position(&Position(v(3, 3)), &child, &mut pos);
    assert_eq!(pos.0, v(3, 8));
}

#[test]
fn grounded_tracks_gravity_side_with_hysteresis() {
    let g = GravityDirection(CollisionDirection::FromTop);
    let mut grounded = Grounded(false);
    let mut collidee = Collidee::new();
    update_grounded(&collidee, &g, &mut grounded);
    assert!(!grounded.0);
    // current contact on the resting side
    let mut d = CollideeDetails::new();
    d.side = CollisionSideOfBlock::Top;
    collidee.vertical = Some(d);
    update_grounded(&collidee, &g, &mut grounded);
    assert!(grounded.0);
    // contact just ended: previous report still counts for one step
    let mut d = CollideeDetails::new();
    d.side = CollisionSideOfBlock::Top;
    collidee.vertical = None;
    collidee.prev_vertical = Some(d);
    update_grounded(&collidee, &g, &mut grounded);
    assert!(grounded.0);
    // a side contact does not make a top-gravity entity grounded
    let mut d = CollideeDetails::new();
    d.side = CollisionSideOfBlock::Left;
    collidee.prev_vertical = None;
    collidee.horizontal = Some(d);
    update_grounded(&collidee, &g, &mut grounded);
    assert!(!grounded.0);
}

#[test]
fn actor_actor_pass_reports_overlaps_without_self() {
    let index = build_index(&vec![
        entry(0, 0, 4, 4, 1),   // the actor itself
        entry(3, 0, 4, 4, 2),   // overlapping enemy
        entry(50, 0, 4, 4, 3),  // far away
    ]);
    let events = actor_collisions(1, v(0, 0), v(4, 4), 7, &index);
    assert_eq!(events.len(), 1);
    match events[0] {
        CollisionEvent::EnemyCollision(id, dmg) => {
            assert_eq!(id, 2);
            assert_eq!(dmg, 7);
        }
    }
}

#[test]
fn falling_actor_comes_to_rest_on_the_platform() {
    // Actor at (0, 10), half-size (4, 4), gravity from the top, initial
    // velocity (0, -1); platform of half-size (50, 4) at the origin.  The
    // actor must come to rest with its bottom probe exactly on the
    // platform's top face: position y = 8, vertical velocity 0, grounded.
    let g = GravityDirection(CollisionDirection::FromTop);
    let points = PlatformCollisionPoints::plus(4, 4);
    let index = build_index(&vec![entry(0, 0, 50, 4, 7)]);
    let mut pos = Position(v(0, 10));
    let mut vel = Velocity(v(0, -1));
    let mut collidee = Collidee::new();
    let mut grounded = Grounded(false);
    for _ in 0..4 {
        step_actor(&mut pos, &mut vel, &points, &g, &mut collidee, &mut grounded, &index);
    }
    assert_eq!(pos.0, v(0, 8));
    assert_eq!(vel.0, v(0, 0));
    assert!(grounded.0);
    let d = collidee.vertical.as_ref().expect("resting contact");
    assert_eq!(d.side, CollisionSideOfBlock::Top);
    assert_eq!(d.entity, 7);
    // resting contact grazes the face: zero penetration
    assert_eq!(d.distance, 0);
    // and stays put over further steps
    step_actor(&mut pos, &mut vel, &points, &g, &mut collidee, &mut grounded, &index);
    assert_eq!(pos.0, v(0, 8));
    assert_eq!(vel.0, v(0, 0));
    assert!(grounded.0);
}

#[test]
fn sticky_rider_moves_with_its_platform() {
    // A grounded sticky actor whose platform moves +2 on x this step ends
    // the step displaced by exactly those 2 units beyond its own motion.
    let g = GravityDirection(CollisionDirection::FromTop);
    let points = PlatformCollisionPoints::plus(4, 4);
    let index = build_index(&vec![entry(0, 0, 50, 4, 7)]);
    let mut pos = Position(v(0, 8));
    let mut vel = Velocity(v(0, 0));
    let mut collidee = Collidee::new();
    let mut grounded = Grounded(false);
    step_actor(&mut pos, &mut vel, &points, &g, &mut collidee, &mut grounded, &index);
    assert!(grounded.0);
    let before = pos.0;
    let platform_delta = v(2, 0);
    apply_sticky(&mut pos, &Sticky(true), &grounded, platform_delta);
    assert_eq!(pos.0, v(before.x + 2, before.y));
}

#[test]
fn actor_actor_pass_reports_each_overlap_once() {
    // Two identical overlapping colliders under the same identifier: one
    // event per stored entry, no more, no fewer.
    let index = build_index(&vec![
        entry(3, 0, 4, 4, 2),
        entry(3, 0, 4, 4, 2),
        entry(50, 0, 4, 4, 3),
    ]);
    let events = actor_collisions(1, v(0, 0), v(4, 4), 5, &index);
    assert_eq!(events.len(), 2);
    for event in &events {
        match event {
            CollisionEvent::EnemyCollision(id, dmg) => {
                assert_eq!(*id, 2);
                assert_eq!(*dmg, 5);
            }
        }
    }
}
