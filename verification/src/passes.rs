//! The ordered resolution passes of a simulation step: gravity integration,
//! collision application, velocity integration, sticky-platform adjustment,
//! grounded bookkeeping, parent-relative repositioning, and the actor-actor
//! broad phase.
//!
//! Pass order within a step is: gravity, actor-actor, platform collision,
//! apply-collision, apply-velocity, apply-sticky; `step_actor` drives that
//! order for a single actor.

use vstd::prelude::*;

use vstd::multiset::Multiset;

use crate::collision::{axis_report_ok, platform_collision, projected};
use crate::game::CollisionEvent;
use crate::physics::{
    ChildTo, Collidee, CollisionDirection, CollisionSideOfBlock, GravityDirection, Grounded,
    PlatformCollisionPoints, Position, Sticky, Velocity,
};
use crate::spatial::{index_entries, index_wf, query_hit, RTreeEntity, SpatialIndex};
use crate::vec2::{Vec2, WORLD_LIMIT};

verus! {

/// Per-step gain of speed along the gravity axis.
pub const GRAVITY_ACCEL: i64 = 2;

/// Maximum fall speed along the gravity axis.
pub const TERMINAL_VELOCITY: i64 = 40;

/// +1 when gravity pulls toward positive coordinates on its axis.
pub open spec fn gravity_sign(d: CollisionDirection) -> int {
    match d {
        CollisionDirection::FromTop => -1,
        CollisionDirection::FromBottom => 1,
        CollisionDirection::FromLeft => 1,
        CollisionDirection::FromRight => -1,
    }
}

/// Gravity from top or bottom acts on the y axis; from left or right, on x.
pub open spec fn gravity_is_vertical(d: CollisionDirection) -> bool {
    d is FromTop || d is FromBottom
}

/// The velocity component along the entity's gravity axis.
pub open spec fn axis_component(v: Vec2, d: CollisionDirection) -> int {
    if gravity_is_vertical(d) {
        v.y as int
    } else {
        v.x as int
    }
}

/// The velocity component across the entity's gravity axis.
pub open spec fn off_axis_component(v: Vec2, d: CollisionDirection) -> int {
    if gravity_is_vertical(d) {
        v.x as int
    } else {
        v.y as int
    }
}

/// One gravity step on a single component, with pull sign `s`: speed in the
/// pull direction grows by `GRAVITY_ACCEL` up to `TERMINAL_VELOCITY`; a
/// component already at or past the cap is left alone.
pub open spec fn accel_component(c: int, s: int) -> int {
    let p = s * c;
    if p >= TERMINAL_VELOCITY {
        c
    } else if p + GRAVITY_ACCEL >= TERMINAL_VELOCITY {
        s * TERMINAL_VELOCITY
    } else {
        s * (p + GRAVITY_ACCEL)
    }
}

/// One gravity step on a velocity: the gravity-axis component accelerates,
/// the other component is untouched.
pub open spec fn gravity_spec(v: Vec2, d: CollisionDirection) -> Vec2 {
    if gravity_is_vertical(d) {
        Vec2 { x: v.x, y: accel_component(v.y as int, gravity_sign(d)) as i64 }
    } else {
        Vec2 { x: accel_component(v.x as int, gravity_sign(d)) as i64, y: v.y }
    }
}

/// Exec gravity step on one component; `positive` selects the pull sign.
fn accel_toward(c: i64, positive: bool) -> (r: i64)
    requires
        -WORLD_LIMIT <= c <= WORLD_LIMIT,
    ensures
        r == accel_component(c as int, if positive { 1int } else { -1int }),
        -WORLD_LIMIT <= r <= WORLD_LIMIT,
{
    let p = if positive {
        c
    } else {
        -c
    };
    if p >= TERMINAL_VELOCITY {
        c
    } else if p + GRAVITY_ACCEL >= TERMINAL_VELOCITY {
        if positive {
            TERMINAL_VELOCITY
        } else {
            -TERMINAL_VELOCITY
        }
    } else {
        if positive {
            p + GRAVITY_ACCEL
        } else {
            -(p + GRAVITY_ACCEL)
        }
    }
}

/// Gravity pass for one entity: unless the entity is currently held by a
/// blocking contact on its gravity axis, accelerate its velocity along that
/// axis, clamped to the maximum fall speed.
pub fn apply_gravity(vel: &mut Velocity, g: &GravityDirection, blocked: bool)
    requires
        old(vel).0.in_world(),
    ensures
        final(vel).0 == (if blocked {
            old(vel).0
        } else {
            gravity_spec(old(vel).0, g.0)
        }),
        final(vel).0.in_world(),
{
    if blocked {
        return ;
    }
    match g.0 {
        CollisionDirection::FromTop => {
            vel.0.y = accel_toward(vel.0.y, false);
        },
        CollisionDirection::FromBottom => {
            vel.0.y = accel_toward(vel.0.y, true);
        },
        CollisionDirection::FromLeft => {
            vel.0.x = accel_toward(vel.0.x, true);
        },
        CollisionDirection::FromRight => {
            vel.0.x = accel_toward(vel.0.x, false);
        },
    }
}

/// Law: for an entity free to fall (axis speed resting or already moving
/// with the pull, below the cap), one gravity step gives the axis speed the
/// exact magnitude `min(previous + GRAVITY_ACCEL, TERMINAL_VELOCITY)` — so
/// it strictly increases, never past the cap — and leaves the other
/// component unchanged.  The aligned-with-the-pull premise is needed: for
/// motion against gravity the step shrinks the magnitude instead, and every
/// state reachable from rest satisfies it.
pub proof fn lemma_gravity_monotonic(v: Vec2, d: CollisionDirection)
    requires
        0 <= gravity_sign(d) * axis_component(v, d) < TERMINAL_VELOCITY,
        v.in_world(),
    ensures
        gravity_sign(d) * axis_component(gravity_spec(v, d), d) == (if gravity_sign(d)
            * axis_component(v, d) + GRAVITY_ACCEL >= TERMINAL_VELOCITY {
            TERMINAL_VELOCITY as int
        } else {
            gravity_sign(d) * axis_component(v, d) + GRAVITY_ACCEL
        }),
        gravity_sign(d) * axis_component(gravity_spec(v, d), d) > gravity_sign(d) * axis_component(
            v,
            d,
        ),
        gravity_sign(d) * axis_component(gravity_spec(v, d), d) <= TERMINAL_VELOCITY,
        off_axis_component(gravity_spec(v, d), d) == off_axis_component(v, d),
{
}

/// Law: once the axis speed has reached the cap (or was set past it), a
/// gravity step changes nothing.
pub proof fn lemma_gravity_capped(v: Vec2, d: CollisionDirection)
    requires
        gravity_sign(d) * axis_component(v, d) >= TERMINAL_VELOCITY,
        v.in_world(),
    ensures
        gravity_spec(v, d) == v,
{
}

/// Position after applying the per-axis corrections of a collision report.
pub open spec fn apply_collision_pos(pos: Vec2, c: Collidee) -> Vec2 {
    Vec2 {
        x: (match c.horizontal {
            Option::Some(d) => d.new_collider_pos.x,
            Option::None => pos.x,
        }),
        y: (match c.vertical {
            Option::Some(d) => d.new_collider_pos.y,
            Option::None => pos.y,
        }),
    }
}

/// Velocity after zeroing each blocked axis of a collision report.
pub open spec fn apply_collision_vel(vel: Vec2, c: Collidee) -> Vec2 {
    Vec2 {
        x: (if c.horizontal is Some {
            0i64
        } else {
            vel.x
        }),
        y: (if c.vertical is Some {
            0i64
        } else {
            vel.y
        }),
    }
}

/// Apply-collision pass: on each axis with a filled report slot, snap the
/// position to the corrected value and zero the velocity, so the entity does
/// not keep pressing into the platform; axes without a report are untouched.
pub fn apply_collision(pos: &mut Position, vel: &mut Velocity, collidee: &Collidee)
    requires
        collidee.wf(),
    ensures
        final(pos).0 == apply_collision_pos(old(pos).0, *collidee),
        final(vel).0 == apply_collision_vel(old(vel).0, *collidee),
{
    if let Some(d) = &collidee.horizontal {
        pos.0.x = d.new_collider_pos.x;
        vel.0.x = 0;
    }
    if let Some(d) = &collidee.vertical {
        pos.0.y = d.new_collider_pos.y;
        vel.0.y = 0;
    }
}

/// Law: a corrected state is a fixed point of the correction — applying the
/// same report a second time (no new detection in between) moves nothing.
pub proof fn lemma_apply_collision_idempotent(pos: Vec2, vel: Vec2, c: Collidee)
    ensures
        apply_collision_pos(apply_collision_pos(pos, c), c) == apply_collision_pos(pos, c),
        apply_collision_vel(apply_collision_vel(vel, c), c) == apply_collision_vel(vel, c),
{
}

/// The report blocks the entity's gravity axis: the slot on that axis is
/// filled and the struck face is the one the entity rests on.
pub open spec fn gravity_blocked(c: Collidee, d: CollisionDirection) -> bool {
    match d {
        CollisionDirection::FromTop => c.vertical matches Option::Some(det) && det.side is Top,
        CollisionDirection::FromBottom => c.vertical matches Option::Some(det)
            && det.side is Bottom,
        CollisionDirection::FromLeft => c.horizontal matches Option::Some(det) && det.side is Left,
        CollisionDirection::FromRight => c.horizontal matches Option::Some(det)
            && det.side is Right,
    }
}

/// As `gravity_blocked`, over the previous step's slots.
pub open spec fn prev_gravity_blocked(c: Collidee, d: CollisionDirection) -> bool {
    match d {
        CollisionDirection::FromTop => c.prev_vertical matches Option::Some(det)
            && det.side is Top,
        CollisionDirection::FromBottom => c.prev_vertical matches Option::Some(det)
            && det.side is Bottom,
        CollisionDirection::FromLeft => c.prev_horizontal matches Option::Some(det)
            && det.side is Left,
        CollisionDirection::FromRight => c.prev_horizontal matches Option::Some(det)
            && det.side is Right,
    }
}

/// Law: whenever the gravity axis is blocked this step, the corrected
/// velocity along that axis is exactly zero — not merely reduced.
pub proof fn lemma_blocked_axis_stopped(vel: Vec2, c: Collidee, d: CollisionDirection)
    requires
        gravity_blocked(c, d),
    ensures
        axis_component(apply_collision_vel(vel, c), d) == 0,
{
}

/// Grounded bookkeeping: grounded now, or still within the one-step
/// hysteresis window of the previous report.
pub fn update_grounded(collidee: &Collidee, g: &GravityDirection, grounded: &mut Grounded)
    ensures
        final(grounded).0 == (gravity_blocked(*collidee, g.0) || prev_gravity_blocked(
            *collidee,
            g.0,
        )),
{
    let now = match g.0 {
        CollisionDirection::FromTop => match &collidee.vertical {
            Option::Some(det) => matches!(det.side, CollisionSideOfBlock::Top),
            Option::None => false,
        },
        CollisionDirection::FromBottom => match &collidee.vertical {
            Option::Some(det) => matches!(det.side, CollisionSideOfBlock::Bottom),
            Option::None => false,
        },
        CollisionDirection::FromLeft => match &collidee.horizontal {
            Option::Some(det) => matches!(det.side, CollisionSideOfBlock::Left),
            Option::None => false,
        },
        CollisionDirection::FromRight => match &collidee.horizontal {
            Option::Some(det) => matches!(det.side, CollisionSideOfBlock::Right),
            Option::None => false,
        },
    };
    let before = match g.0 {
        CollisionDirection::FromTop => match &collidee.prev_vertical {
            Option::Some(det) => matches!(det.side, CollisionSideOfBlock::Top),
            Option::None => false,
        },
        CollisionDirection::FromBottom => match &collidee.prev_vertical {
            Option::Some(det) => matches!(det.side, CollisionSideOfBlock::Bottom),
            Option::None => false,
        },
        CollisionDirection::FromLeft => match &collidee.prev_horizontal {
            Option::Some(det) => matches!(det.side, CollisionSideOfBlock::Left),
            Option::None => false,
        },
        CollisionDirection::FromRight => match &collidee.prev_horizontal {
            Option::Some(det) => matches!(det.side, CollisionSideOfBlock::Right),
            Option::None => false,
        },
    };
    grounded.0 = now || before;
}

/// Position after integrating the velocity on every axis that was not
/// snapped by the apply-collision pass this step.
pub open spec fn apply_velocity_pos(pos: Vec2, vel: Vec2, c: Collidee) -> Vec2 {
    Vec2 {
        x: (if c.horizontal is Some {
            pos.x
        } else {
            (pos.x + vel.x) as i64
        }),
        y: (if c.vertical is Some {
            pos.y
        } else {
            (pos.y + vel.y) as i64
        }),
    }
}

/// Apply-velocity pass: integrates the remaining (post-correction) velocity
/// into the position; must run strictly after apply-collision, which is why
/// snapped axes are skipped here.
pub fn apply_velocity(pos: &mut Position, vel: &Velocity, collidee: &Collidee)
    requires
        old(pos).0.in_space(),
        vel.0.in_space(),
    ensures
        final(pos).0 == apply_velocity_pos(old(pos).0, vel.0, *collidee),
{
    if collidee.horizontal.is_none() {
        pos.0.x = pos.0.x + vel.0.x;
    }
    if collidee.vertical.is_none() {
        pos.0.y = pos.0.y + vel.0.y;
    }
}

/// Apply-sticky pass: a sticky, grounded rider inherits the platform's own
/// per-step displacement, layered on top of its already-resolved position.
pub fn apply_sticky(pos: &mut Position, sticky: &Sticky, grounded: &Grounded, platform_delta: Vec2)
    requires
        old(pos).0.in_space(),
        platform_delta.in_space(),
    ensures
        final(pos).0 == (if sticky.0 && grounded.0 {
            Vec2 {
                x: (old(pos).0.x + platform_delta.x) as i64,
                y: (old(pos).0.y + platform_delta.y) as i64,
            }
        } else {
            old(pos).0
        }),
{
    if sticky.0 && grounded.0 {
        pos.0.x = pos.0.x + platform_delta.x;
        pos.0.y = pos.0.y + platform_delta.y;
    }
}

/// Parenting pass: a child's position is derived, never authoritative — it
/// is recomputed as the parent's (already finalized) position plus the fixed
/// local offset.
pub fn update_child_position(parent_pos: &Position, child: &ChildTo, pos: &mut Position)
    requires
        parent_pos.0.in_space(),
        child.offset.in_space(),
    ensures
        final(pos).0.x == parent_pos.0.x + child.offset.x,
        final(pos).0.y == parent_pos.0.y + child.offset.y,
{
    pos.0.x = parent_pos.0.x + child.offset.x;
    pos.0.y = parent_pos.0.y + child.offset.y;
}

/// The entries of the collider multiset that the actor-actor pass reports:
/// those whose box overlaps the closed query box, the actor itself excluded.
pub open spec fn reported_overlaps(
    m: Multiset<RTreeEntity>,
    self_entity: u32,
    min_x: int,
    min_y: int,
    max_x: int,
    max_y: int,
) -> Multiset<RTreeEntity> {
    m.filter(
        |e: RTreeEntity| query_hit(e, min_x, min_y, max_x, max_y) && e.entity != self_entity,
    )
}

/// Actor-actor broad phase for one actor: report one contact event for every
/// indexed collider overlapping the actor's box — duplicates included, the
/// actor itself excluded.  No positions change here; the events feed
/// gameplay logic.
pub fn actor_collisions(
    self_entity: u32,
    pos: Vec2,
    half_size: Vec2,
    damage: u8,
    index: &SpatialIndex,
) -> (r: Vec<CollisionEvent>)
    requires
        pos.in_world(),
        0 <= half_size.x <= WORLD_LIMIT,
        0 <= half_size.y <= WORLD_LIMIT,
    ensures
        exists|s: Seq<RTreeEntity>|
            s.to_multiset() == reported_overlaps(
                index_entries(*index),
                self_entity,
                pos.x - half_size.x,
                pos.y - half_size.y,
                pos.x + half_size.x,
                pos.y + half_size.y,
            ) && r@ == s.map_values(
                (|e: RTreeEntity| CollisionEvent::EnemyCollision(e.entity, damage)),
            ),
        forall|k: int|
            0 <= k < r@.len() ==> ((#[trigger] r@[k]) matches CollisionEvent::EnemyCollision(
                id,
                dmg,
            ) && dmg == damage && id != self_entity && (exists|e: RTreeEntity|
                index_entries(*index).contains(e) && e.entity == id && query_hit(
                    e,
                    pos.x - half_size.x,
                    pos.y - half_size.y,
                    pos.x + half_size.x,
                    pos.y + half_size.y,
                ))),
        forall|e: RTreeEntity|
            index_entries(*index).contains(e) && query_hit(
                e,
                pos.x - half_size.x,
                pos.y - half_size.y,
                pos.x + half_size.x,
                pos.y + half_size.y,
            ) && e.entity != self_entity ==> r@.contains(
                CollisionEvent::EnemyCollision(e.entity, damage),
            ),
{
    let min_x = pos.x - half_size.x;
    let min_y = pos.y - half_size.y;
    let max_x = pos.x + half_size.x;
    let max_y = pos.y + half_size.y;
    let candidates = index.query(min_x, min_y, max_x, max_y);
    let ghost gsel: spec_fn(RTreeEntity) -> bool = |e: RTreeEntity|
        query_hit(e, min_x as int, min_y as int, max_x as int, max_y as int) && e.entity
            != self_entity;
    let ghost fev: spec_fn(RTreeEntity) -> CollisionEvent = |e: RTreeEntity|
        CollisionEvent::EnemyCollision(e.entity, damage);
    let ghost mut src: Seq<RTreeEntity> = Seq::empty();
    proof {
        broadcast use vstd::seq_lib::group_to_multiset_ensures;

        assert(candidates@.take(0).to_multiset() =~= Multiset::<RTreeEntity>::empty());
        assert(src.to_multiset() =~= candidates@.take(0).to_multiset().filter(gsel));
    }
    let mut r: Vec<CollisionEvent> = Vec::new();
    let mut j: usize = 0;
    while j < candidates.len()
        invariant
            j <= candidates@.len(),
            min_x == pos.x - half_size.x,
            min_y == pos.y - half_size.y,
            max_x == pos.x + half_size.x,
            max_y == pos.y + half_size.y,
            gsel == (|e: RTreeEntity|
                query_hit(e, min_x as int, min_y as int, max_x as int, max_y as int) && e.entity
                    != self_entity),
            fev == (|e: RTreeEntity| CollisionEvent::EnemyCollision(e.entity, damage)),
            forall|jj: int|
                0 <= jj < candidates@.len() ==> index_entries(*index).contains(
                    #[trigger] candidates@[jj],
                ) && query_hit(
                    candidates@[jj],
                    min_x as int,
                    min_y as int,
                    max_x as int,
                    max_y as int,
                ),
            src.to_multiset() == candidates@.take(j as int).to_multiset().filter(gsel),
            r@ == src.map_values(fev),
            forall|k: int|
                0 <= k < r@.len() ==> ((#[trigger] r@[k]) matches CollisionEvent::EnemyCollision(
                    id,
                    dmg,
                ) && dmg == damage && id != self_entity && (exists|e: RTreeEntity|
                    index_entries(*index).contains(e) && e.entity == id && query_hit(
                        e,
                        min_x as int,
                        min_y as int,
                        max_x as int,
                        max_y as int,
                    ))),
            forall|jj: int|
                0 <= jj < j && (#[trigger] candidates@[jj]).entity != self_entity ==> r@.contains(
                    CollisionEvent::EnemyCollision(candidates@[jj].entity, damage),
                ),
        decreases candidates@.len() - j,
    {
        let e = &candidates[j];
        proof {
            broadcast use vstd::seq_lib::group_to_multiset_ensures;

            assert(candidates@.take(j + 1) =~= candidates@.take(j as int).push(
                candidates@[j as int],
            ));
        }
        if e.entity != self_entity {
            let ghost r_old = r@;
            let ghost src_old = src;
            proof {
                src = src.push(*e);
            }
            r.push(CollisionEvent::EnemyCollision(e.entity, damage));
            proof {
                broadcast use vstd::seq_lib::group_to_multiset_ensures;

                assert(r@ == r_old.push(CollisionEvent::EnemyCollision(e.entity, damage)));
                assert(r@[r@.len() - 1] == CollisionEvent::EnemyCollision(e.entity, damage));
                lemma_take_filter_step(candidates@, j as int, gsel, src_old);
                assert(r@ =~= src.map_values(fev));
                assert forall|jj: int|
                    0 <= jj < j + 1 && (#[trigger] candidates@[jj]).entity
                        != self_entity implies r@.contains(
                    CollisionEvent::EnemyCollision(candidates@[jj].entity, damage),
                ) by {
                    if jj < j {
                        assert(r_old.contains(
                            CollisionEvent::EnemyCollision(candidates@[jj].entity, damage),
                        ));
                        let k = choose|k: int|
                            0 <= k < r_old.len() && r_old[k] == CollisionEvent::EnemyCollision(
                                candidates@[jj].entity,
                                damage,
                            );
                        assert(r@[k] == CollisionEvent::EnemyCollision(
                            candidates@[jj].entity,
                            damage,
                        ));
                    } else {
                        assert(r@[r@.len() - 1] == CollisionEvent::EnemyCollision(
                            candidates@[jj].entity,
                            damage,
                        ));
                    }
                }
            }
        } else {
            proof {
                broadcast use vstd::seq_lib::group_to_multiset_ensures;

                lemma_take_filter_step(candidates@, j as int, gsel, src);
            }
        }
        j += 1;
    }
    proof {
        assert(candidates@.take(candidates@.len() as int) =~= candidates@);
        let reported = reported_overlaps(
            index_entries(*index),
            self_entity,
            min_x as int,
            min_y as int,
            max_x as int,
            max_y as int,
        );
        assert forall|v: RTreeEntity| src.to_multiset().count(v) == reported.count(v) by {}
        assert(src.to_multiset() =~= reported);
        assert(r@ =~= src.map_values(
            (|e: RTreeEntity| CollisionEvent::EnemyCollision(e.entity, damage)),
        ));
        assert forall|e: RTreeEntity|
            index_entries(*index).contains(e) && query_hit(
                e,
                min_x as int,
                min_y as int,
                max_x as int,
                max_y as int,
            ) && e.entity != self_entity implies r@.contains(
            CollisionEvent::EnemyCollision(e.entity, damage),
        ) by {
            assert(candidates@.contains(e));
            let jj = choose|jj: int| 0 <= jj < candidates@.len() && candidates@[jj] == e;
            assert(candidates@[jj].entity != self_entity);
        }
    }
    r
}

/// Extending the scanned prefix by one candidate extends its filtered
/// multiset by that candidate exactly when the selector admits it.
proof fn lemma_take_filter_step(
    cands: Seq<RTreeEntity>,
    j: int,
    gsel: spec_fn(RTreeEntity) -> bool,
    src: Seq<RTreeEntity>,
)
    requires
        0 <= j < cands.len(),
        src.to_multiset() == cands.take(j).to_multiset().filter(gsel),
    ensures
        gsel(cands[j]) ==> cands.take(j + 1).to_multiset().filter(gsel) == src.push(
            cands[j],
        ).to_multiset(),
        !gsel(cands[j]) ==> cands.take(j + 1).to_multiset().filter(gsel) == src.to_multiset(),
{
    broadcast use vstd::seq_lib::group_to_multiset_ensures;

    let e = cands[j];
    assert(cands.take(j + 1) =~= cands.take(j).push(e));
    assert(cands.take(j + 1).to_multiset() =~= cands.take(j).to_multiset().insert(e));
    if gsel(e) {
        assert forall|v: RTreeEntity|
            cands.take(j + 1).to_multiset().filter(gsel).count(v) == src.push(
                e,
            ).to_multiset().count(v) by {
            if v != e {
                assert(Multiset::<RTreeEntity>::singleton(e).count(v) == 0);
            }
        }
        assert(cands.take(j + 1).to_multiset().filter(gsel) =~= src.push(e).to_multiset());
    } else {
        assert forall|v: RTreeEntity|
            cands.take(j + 1).to_multiset().filter(gsel).count(v) == src.to_multiset().count(
                v,
            ) by {
            if v != e {
                assert(Multiset::<RTreeEntity>::singleton(e).count(v) == 0);
            }
        }
        assert(cands.take(j + 1).to_multiset().filter(gsel) =~= src.to_multiset());
    }
}

/// One full step for a single actor, in the required pass order: gravity
/// (skipped while grounded and blocked on the gravity axis), platform
/// collision against the index, apply-collision, apply-velocity, and the
/// grounded update.  The sticky adjustment runs after this, through
/// `apply_sticky`, once the carrying platform's displacement is known.
/// A crouch resize of the probe points must happen before the step, never
/// during it, so the narrower profile is what collides.
pub fn step_actor(
    pos: &mut Position,
    vel: &mut Velocity,
    points: &PlatformCollisionPoints,
    g: &GravityDirection,
    collidee: &mut Collidee,
    grounded: &mut Grounded,
    index: &SpatialIndex,
)
    requires
        old(pos).0.in_world(),
        old(vel).0.in_world(),
        points.wf(),
        index_wf(*index),
        old(collidee).wf(),
    ensures
        ({
            let v1 = if old(grounded).0 && gravity_blocked(*old(collidee), g.0) {
                old(vel).0
            } else {
                gravity_spec(old(vel).0, g.0)
            };
            let proj = projected(old(pos).0, v1);
            &&& final(collidee).prev_horizontal == old(collidee).horizontal
            &&& final(collidee).prev_vertical == old(collidee).vertical
            &&& axis_report_ok(
                final(collidee).horizontal,
                index_entries(*index),
                points.collision_points@,
                proj,
                v1,
                true,
            )
            &&& axis_report_ok(
                final(collidee).vertical,
                index_entries(*index),
                points.collision_points@,
                proj,
                v1,
                false,
            )
            &&& final(vel).0 == apply_collision_vel(v1, *final(collidee))
            &&& final(pos).0 == apply_velocity_pos(
                apply_collision_pos(old(pos).0, *final(collidee)),
                final(vel).0,
                *final(collidee),
            )
            &&& final(grounded).0 == (gravity_blocked(*final(collidee), g.0)
                || prev_gravity_blocked(*final(collidee), g.0))
            &&& final(collidee).wf()
        }),
{
    let blocked = grounded.0 && match g.0 {
        CollisionDirection::FromTop => match &collidee.vertical {
            Option::Some(det) => matches!(det.side, CollisionSideOfBlock::Top),
            Option::None => false,
        },
        CollisionDirection::FromBottom => match &collidee.vertical {
            Option::Some(det) => matches!(det.side, CollisionSideOfBlock::Bottom),
            Option::None => false,
        },
        CollisionDirection::FromLeft => match &collidee.horizontal {
            Option::Some(det) => matches!(det.side, CollisionSideOfBlock::Left),
            Option::None => false,
        },
        CollisionDirection::FromRight => match &collidee.horizontal {
            Option::Some(det) => matches!(det.side, CollisionSideOfBlock::Right),
            Option::None => false,
        },
    };
    apply_gravity(vel, g, blocked);
    platform_collision(pos, vel, points, index, collidee);
    apply_collision(pos, vel, collidee);
    apply_velocity(pos, &*vel, collidee);
    update_grounded(collidee, g, grounded);
}

} // verus!
