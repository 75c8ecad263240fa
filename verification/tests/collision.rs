//! Narrow-phase behavior: side classification, minimum-penetration seam
//! resolution, tie-breaking, degeneracy, and the previous-report carry-over.

use pizzatopia::collision::{detect_axis, platform_collision};
use pizzatopia::physics::{
    Collidee, CollisionSideOfBlock, GravityDirection, PlatformCollisionPoints, Position, Velocity,
};
use pizzatopia::spatial::{build_index, RTreeEntity};
use pizzatopia::vec2::Vec2;

fn v(x: i64, y: i64) -> Vec2 {
    Vec2 { x, y }
}

fn entry(x: i64, y: i64, hx: i64, hy: i64, id: u32) -> RTreeEntity {
    RTreeEntity::new(v(x, y), v(hx, hy), id)
}

#[test]
fn falling_actor_lands_on_platform_top() {
    // Actor centered at (0, 10) with half-size (4, 4); platform of half-size
    // (50, 4) at the origin, so its top face is at y = 4.
    let pos = Position(v(0, 10));
    let vel = Velocity(v(0, -3));
    let points = PlatformCollisionPoints::plus(4, 4);
    let index = build_index(&vec![entry(0, 0, 50, 4, 1)]);
    let mut collidee = Collidee::new();
    platform_collision(&pos, &vel, &points, &index, &mut collidee);
    assert!(collidee.horizontal.is_none());
    let d = collidee.vertical.as_ref().expect("vertical contact");
    assert_eq!(d.side, CollisionSideOfBlock::Top);
    assert_eq!(d.entity, 1);
    assert_eq!(d.position, v(0, 0));
    assert_eq!(d.half_size, v(50, 4));
    // projected bottom probe: 10 - 3 - 4 = 3; one unit past the face at 4
    assert_eq!(d.distance, 1);
    // corrected position puts the bottom probe exactly on the face: 4 + 4
    assert_eq!(d.new_collider_pos, v(0, 8));
    assert_eq!(d.new_collider_vel, v(0, 0));
    assert_eq!(d.num_points_of_collision, 1);
}

#[test]
fn actor_clear_of_platforms_reports_nothing() {
    let pos = Position(v(0, 100));
    let vel = Velocity(v(0, -1));
    let points = PlatformCollisionPoints::plus(4, 4);
    let index = build_index(&vec![entry(0, 0, 50, 4, 1)]);
    let mut collidee = Collidee::new();
    platform_collision(&pos, &vel, &points, &index, &mut collidee);
    assert!(collidee.horizontal.is_none());
    assert!(collidee.vertical.is_none());
}

#[test]
fn seam_resolves_to_minimum_penetration() {
    // Two platforms with a gap; the actor straddles the seam, the left probe
    // penetrating platform 1 deeper than the right probe penetrates
    // platform 2.  The shallower correction must win, not a sum or average.
    let pos = Position(v(0, 0));
    let vel = Velocity(v(1, 0));
    let points = PlatformCollisionPoints::plus(2, 2);
    let index = build_index(&vec![entry(-3, 0, 2, 4, 1), entry(3, 0, 2, 4, 2)]);
    let mut collidee = Collidee::new();
    platform_collision(&pos, &vel, &points, &index, &mut collidee);
    let d = collidee.horizontal.as_ref().expect("horizontal contact");
    // moving right: the struck face is a left face
    assert_eq!(d.side, CollisionSideOfBlock::Left);
    // projected left probe: -1, depth past platform 1's left face (-5): 4;
    // projected right probe: 3, depth past platform 2's left face (1): 2.
    assert_eq!(d.entity, 2);
    assert_eq!(d.distance, 2);
    // corrected so the right probe sits on the face at x = 1
    assert_eq!(d.new_collider_pos.x, -1);
}

#[test]
fn equal_penetration_prefers_more_probes() {
    // Both candidates are touched with zero minimum penetration, but the
    // second is touched by two probes of the vertical axis.
    let probes = PlatformCollisionPoints::plus(4, 4);
    let candidates = vec![entry(0, -8, 10, 4, 1), entry(0, -4, 10, 8, 2)];
    let r = detect_axis(v(0, 0), v(0, -1), &probes.collision_points, &candidates, false);
    let d = r.expect("vertical contact");
    assert_eq!(d.distance, 0);
    assert_eq!(d.num_points_of_collision, 2);
    assert_eq!(d.entity, 2);
}

#[test]
fn equal_penetration_and_count_prefers_smaller_id() {
    // Identical twin platforms under different identifiers.
    let probes = PlatformCollisionPoints::plus(4, 4);
    let candidates = vec![entry(0, 0, 50, 4, 9), entry(0, 0, 50, 4, 3)];
    let r = detect_axis(v(0, 7), v(0, -3), &probes.collision_points, &candidates, false);
    let d = r.expect("vertical contact");
    assert_eq!(d.entity, 3);
}

#[test]
fn degenerate_colliders_never_collide() {
    // Zero-height collider right where the actor stands: treated as
    // no-collision, not as a contact.
    let pos = Position(v(0, 0));
    let vel = Velocity(v(0, -1));
    let points = PlatformCollisionPoints::plus(4, 4);
    let index = build_index(&vec![entry(0, 0, 50, 0, 1)]);
    let mut collidee = Collidee::new();
    platform_collision(&pos, &vel, &points, &index, &mut collidee);
    assert!(collidee.vertical.is_none());
    assert!(collidee.horizontal.is_none());
}

#[test]
fn previous_report_is_carried_over() {
    let points = PlatformCollisionPoints::plus(4, 4);
    let index = build_index(&vec![entry(0, 0, 50, 4, 1)]);
    let mut collidee = Collidee::new();
    // First pass: contact.
    platform_collision(
        &Position(v(0, 10)),
        &Velocity(v(0, -3)),
        &points,
        &index,
        &mut collidee,
    );
    let first_entity = collidee.vertical.as_ref().unwrap().entity;
    // Second pass, far away: no new contact, previous one retained.
    platform_collision(
        &Position(v(0, 100)),
        &Velocity(v(0, 0)),
        &points,
        &index,
        &mut collidee,
    );
    assert!(collidee.vertical.is_none());
    let prev = collidee.prev_vertical.as_ref().expect("carried over");
    assert_eq!(prev.entity, first_entity);
    assert!(collidee.prev_horizontal.is_none());
}

#[test]
fn rising_actor_hits_platform_underside() {
    // Platform overhead; moving up the struck face is the platform's bottom.
    let pos = Position(v(0, 0));
    let vel = Velocity(v(0, 3));
    let points = PlatformCollisionPoints::plus(4, 4);
    let index = build_index(&vec![entry(0, 10, 50, 4, 1)]);
    let mut collidee = Collidee::new();
    platform_collision(&pos, &vel, &points, &index, &mut collidee);
    let d = collidee.vertical.as_ref().expect("vertical contact");
    assert_eq!(d.side, CollisionSideOfBlock::Bottom);
    // top probe projected to 7, platform underside at 6: depth 1
    assert_eq!(d.distance, 1);
    // corrected so the top probe sits on the underside: 6 - 4 = 2
    assert_eq!(d.new_collider_pos.y, 2);
}

#[test]
fn gravity_direction_is_independent_of_geometry() {
    // With gravity from the bottom the same geometry still reports the same
    // geometric side; direction only matters for grounded interpretation.
    let _ = GravityDirection::default();
    let pos = Position(v(0, 10));
    let vel = Velocity(v(0, -3));
    let points = PlatformCollisionPoints::plus(4, 4);
    let index = build_index(&vec![entry(0, 0, 50, 4, 1)]);
    let mut collidee = Collidee::new();
    platform_collision(&pos, &vel, &points, &index, &mut collidee);
    assert_eq!(
        collidee.vertical.as_ref().unwrap().side,
        CollisionSideOfBlock::Top
    );
}

#[test]
fn corner_overlap_blocks_both_axes_independently() {
    // An actor pushed diagonally into a platform corner: both axes report a
    // contact, and the two corrections apply without interfering.
    let pos = Position(v(12, 12));
    let vel = Velocity(v(-3, -3));
    let points = PlatformCollisionPoints::plus(4, 4);
    let index = build_index(&vec![entry(0, 0, 10, 10, 1)]);
    let mut collidee = Collidee::new();
    platform_collision(&pos, &vel, &points, &index, &mut collidee);
    assert!(collidee.both());
    let h = collidee.horizontal.as_ref().unwrap();
    let d = collidee.vertical.as_ref().unwrap();
    // moving left into the right face, moving down into the top face
    assert_eq!(h.side, CollisionSideOfBlock::Right);
    assert_eq!(d.side, CollisionSideOfBlock::Top);
    // left probe projected to (5, 9), right face at 10: depth 5, corrected
    // so the probe sits on the face: x = 10 + 4; symmetrically for y.
    assert_eq!(h.new_collider_pos.x, 14);
    assert_eq!(d.new_collider_pos.y, 14);
}

#[test]
fn crouching_clears_a_low_ceiling() {
    // A ceiling the full probe pattern touches; after shrinking the profile
    // for a crouch, the same pass reports no contact, so the resize must
    // simply happen before the pass runs.
    let pos = Position(v(0, 0));
    let vel = Velocity(v(0, 0));
    let index = build_index(&vec![entry(0, 6, 50, 2, 1)]);
    let mut points = PlatformCollisionPoints::plus(4, 4);
    let mut collidee = Collidee::new();
    platform_collision(&pos, &vel, &points, &index, &mut collidee);
    assert!(collidee.vertical.is_some());
    points.shrink_height_collision_points(2);
    platform_collision(&pos, &vel, &points, &index, &mut collidee);
    assert!(collidee.vertical.is_none());
}

#[test]
fn fast_fall_cannot_tunnel_through_a_thin_platform() {
    // The step's displacement (18) far exceeds the platform's thickness (2):
    // the probe's swept interval still meets the platform, so the contact is
    // reported and the actor is snapped back onto the face it crossed.
    let pos = Position(v(0, 20));
    let vel = Velocity(v(0, -18));
    let points = PlatformCollisionPoints::plus(4, 4);
    let index = build_index(&vec![entry(0, 0, 50, 1, 1)]);
    let mut collidee = Collidee::new();
    platform_collision(&pos, &vel, &points, &index, &mut collidee);
    let d = collidee.vertical.as_ref().expect("swept contact");
    assert_eq!(d.side, CollisionSideOfBlock::Top);
    // bottom probe swept from 16 to -2, across the face at 1: reported
    // penetration is measured at the projected position
    assert_eq!(d.distance, 3);
    // corrected so the bottom probe sits on the face: 1 + 4
    assert_eq!(d.new_collider_pos.y, 5);
    assert!(collidee.horizontal.is_none());
}
