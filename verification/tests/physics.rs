//! Component-level behavior: probe patterns, crouch round trip, collision
//! report bookkeeping, and cuboid range tests.

use pizzatopia::physics::{
    Collidee, CollideeDetails, CollisionPoint, CollisionSideOfBlock, Ducking, GravityDirection,
    Orientation, PlatformCollisionPoints, PlatformCuboid, Position, Velocity,
};
use pizzatopia::graphics::SpriteSheetType;
use pizzatopia::vec2::{Vec2, TILE_HEIGHT, TILE_WIDTH};

fn point(x: i64, y: i64) -> Vec2 {
    Vec2 { x, y }
}

#[test]
fn plus_pattern_has_four_probes() {
    let p = PlatformCollisionPoints::plus(4, 4);
    assert_eq!(p.half_size, point(4, 4));
    assert_eq!(p.collision_points.len(), 4);
    let left = &p.collision_points[0];
    assert_eq!(left.point, point(-4, 0));
    assert_eq!(left.half_reach, 4);
    assert!(left.is_horizontal);
    let right = &p.collision_points[1];
    assert_eq!(right.point, point(4, 0));
    assert_eq!(right.half_reach, 4);
    assert!(right.is_horizontal);
    let top = &p.collision_points[2];
    assert_eq!(top.point, point(0, 4));
    assert_eq!(top.half_reach, 4);
    assert!(!top.is_horizontal);
    let bottom = &p.collision_points[3];
    assert_eq!(bottom.point, point(0, -4));
    assert_eq!(bottom.half_reach, 4);
    assert!(!bottom.is_horizontal);
}

#[test]
fn shrink_keeps_bottom_anchored() {
    let mut p = PlatformCollisionPoints::plus(4, 4);
    p.shrink_height_collision_points(2);
    assert_eq!(p.half_size, point(4, 4));
    assert_eq!(p.collision_points.len(), 4);
    // center of the reduced profile: -4 + 2 = -2
    assert_eq!(p.collision_points[0].point, point(-4, -2));
    assert_eq!(p.collision_points[0].half_reach, 2);
    assert!(p.collision_points[0].is_horizontal);
    assert_eq!(p.collision_points[1].point, point(4, -2));
    assert_eq!(p.collision_points[1].half_reach, 2);
    assert_eq!(p.collision_points[2].point, point(0, 0));
    assert_eq!(p.collision_points[2].half_reach, 4);
    assert!(!p.collision_points[2].is_horizontal);
    // bottom probe still at the original bottom edge
    assert_eq!(p.collision_points[3].point, point(0, -4));
    assert_eq!(p.collision_points[3].half_reach, 4);
}

#[test]
fn shrink_then_reset_round_trip() {
    let original = PlatformCollisionPoints::plus(5, 7);
    let mut p = PlatformCollisionPoints::plus(5, 7);
    p.shrink_height_collision_points(3);
    p.reset_collision_points();
    assert_eq!(p.half_size, original.half_size);
    assert_eq!(p.collision_points.len(), original.collision_points.len());
    for i in 0..original.collision_points.len() {
        assert_eq!(p.collision_points[i], original.collision_points[i]);
    }
}

#[test]
fn both_is_true_only_with_both_slots() {
    let mut c = Collidee::new();
    assert!(!c.both());
    c.horizontal = Some(CollideeDetails::new());
    assert!(!c.both());
    c.vertical = Some(CollideeDetails::new());
    assert!(c.both());
    c.horizontal = None;
    assert!(!c.both());
}

#[test]
fn collision_point_sums() {
    let mut c = Collidee::new();
    assert_eq!(c.current_collision_points(), 0);
    assert_eq!(c.prev_collision_points(), 0);
    let mut d = CollideeDetails::new();
    d.num_points_of_collision = 2;
    c.horizontal = Some(d);
    let mut d2 = CollideeDetails::new();
    d2.num_points_of_collision = 1;
    c.vertical = Some(d2);
    assert_eq!(c.current_collision_points(), 3);
    let mut d3 = CollideeDetails::new();
    d3.num_points_of_collision = 4;
    c.prev_vertical = Some(d3);
    assert_eq!(c.prev_collision_points(), 4);
}

#[test]
fn side_classification_helpers() {
    assert!(CollisionSideOfBlock::Left.is_horizontal());
    assert!(CollisionSideOfBlock::Right.is_horizontal());
    assert!(!CollisionSideOfBlock::Top.is_horizontal());
    assert!(!CollisionSideOfBlock::Bottom.is_horizontal());
    assert!(CollisionSideOfBlock::Top.is_vertical());
    assert!(CollisionSideOfBlock::Bottom.is_vertical());
    assert!(!CollisionSideOfBlock::Left.is_vertical());
    assert!(!CollisionSideOfBlock::Right.is_vertical());
}

#[test]
fn cuboid_point_tests() {
    let c = PlatformCuboid::create(100, 8);
    assert_eq!(c.half_width, 50);
    assert_eq!(c.half_height, 4);
    let pos = point(0, 0);
    assert!(c.intersects_point(&point(0, 0), &pos));
    assert!(c.intersects_point(&point(50, 4), &pos));
    assert!(c.intersects_point(&point(-50, -4), &pos));
    assert!(!c.intersects_point(&point(51, 0), &pos));
    assert!(!c.intersects_point(&point(0, 5), &pos));
    assert!(c.within_range_x(&point(53, 0), &pos, 3));
    assert!(!c.within_range_x(&point(54, 0), &pos, 3));
    assert!(c.within_range_y(&point(0, 6), &pos, 2));
    assert!(!c.within_range_y(&point(0, 7), &pos, 2));
}

#[test]
fn cuboid_defaults_to_tile_size() {
    let c = PlatformCuboid::new();
    assert_eq!(c.half_width, TILE_WIDTH / 2);
    assert_eq!(c.half_height, TILE_HEIGHT / 2);
    assert_eq!(c.to_vec2(), point(TILE_WIDTH / 2, TILE_HEIGHT / 2));
}

#[test]
fn velocity_projects_one_step() {
    let v = Velocity(point(3, -2));
    assert_eq!(v.project_move(), point(3, -2));
}

#[test]
fn component_defaults() {
    assert_eq!(Orientation::default().vec, point(1, 0));
    assert_eq!(Position::default().0, point(0, 0));
    assert_eq!(Velocity::default().0, point(0, 0));
    let g = GravityDirection::default();
    assert_eq!(g.0, pizzatopia::physics::CollisionDirection::FromTop);
}

#[test]
fn ducking_stores_both_sizes() {
    let d = Ducking::new(point(4, 2), point(4, 4));
    assert_eq!(d.new_half_size, point(4, 2));
    assert_eq!(d.old_half_size, point(4, 4));
}

#[test]
fn collision_point_new_stores_fields() {
    let p = CollisionPoint::new(point(-4, 0), 4, true);
    assert_eq!(p.point, point(-4, 0));
    assert_eq!(p.half_reach, 4);
    assert!(p.is_horizontal);
}

#[test]
fn sprite_sheet_cycling_round_trips() {
    let all = [
        SpriteSheetType::Tiles,
        SpriteSheetType::Didi,
        SpriteSheetType::Snap,
        SpriteSheetType::Ui,
        SpriteSheetType::Animation,
        SpriteSheetType::RollingHillsBg,
    ];
    for s in all {
        assert_eq!(s.next().prev(), s);
        assert_eq!(s.prev().next(), s);
    }
    // six forward steps come back around
    let mut s = SpriteSheetType::Tiles;
    for _ in 0..6 {
        s = s.next();
    }
    assert_eq!(s, SpriteSheetType::Tiles);
    assert_eq!(SpriteSheetType::RollingHillsBg.next(), SpriteSheetType::Tiles);
    assert_eq!(SpriteSheetType::Tiles.prev(), SpriteSheetType::RollingHillsBg);
}
