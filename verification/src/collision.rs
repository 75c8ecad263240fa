//! Narrow-phase platform collision: sweeps each probe point from the actor's
//! old to its projected position, finds every platform it touches on the
//! way, classifies the side that was struck, and reports, per axis, the
//! contact needing the least correction at the projected position.
//!
//! Tie-break policy, applied in this order: least penetration first; among
//! equally penetrating platforms the one touched by more probes; among those
//! the smallest entity identifier.  The result is therefore independent of
//! the order in which the spatial index returns candidates.

use vstd::prelude::*;

use vstd::multiset::Multiset;

use crate::physics::{
    Collidee, CollideeDetails, CollisionPoint, CollisionSideOfBlock, PlatformCollisionPoints,
    Position, Velocity,
};
use crate::spatial::{index_entries, index_wf, query_hit, RTreeEntity, SpatialIndex};
use crate::vec2::{Vec2, WORLD_LIMIT};

verus! {

/// Zero-area or inverted colliders are geometric degeneracies: they never
/// collide with anything.
pub open spec fn degenerate(e: RTreeEntity) -> bool {
    e.half_size.x <= 0 || e.half_size.y <= 0
}

/// Probes whose flag matches the axis take part in that axis's report.
pub open spec fn probe_on_axis(p: CollisionPoint, horizontal: bool) -> bool {
    p.is_horizontal == horizontal
}

/// World-space x coordinate of the probe at the projected position.
pub open spec fn probe_x(proj: Vec2, p: CollisionPoint) -> int {
    proj.x + p.point.x
}

/// World-space y coordinate of the probe at the projected position.
pub open spec fn probe_y(proj: Vec2, p: CollisionPoint) -> int {
    proj.y + p.point.y
}

/// Lower end of the interval a coordinate sweeps during the step: `n` is the
/// coordinate at the projected position, `d` the displacement that carried
/// it there, so the old coordinate is `n - d`.
pub open spec fn sweep_lo(n: int, d: int) -> int {
    if d >= 0 {
        n - d
    } else {
        n
    }
}

/// Upper end of the swept interval; see `sweep_lo`.
pub open spec fn sweep_hi(n: int, d: int) -> int {
    if d >= 0 {
        n
    } else {
        n - d
    }
}

/// The probe touches the platform during the step.  On the axis the probe
/// reports on, the interval it sweeps between the old and the projected
/// position must meet the platform's range — so a displacement larger than
/// the platform is still caught; on the other axis the probe must lie in the
/// platform's range at the projected position.  Bounds are included, and the
/// probe's reach does not widen this test (it only widens the index query),
/// so a probe grazing a face reports exactly zero penetration there.
pub open spec fn probe_hits(e: RTreeEntity, p: CollisionPoint, proj: Vec2, vel: Vec2) -> bool {
    &&& !degenerate(e)
    &&& if p.is_horizontal {
        &&& sweep_lo(probe_x(proj, p), vel.x as int) <= e.pos.x + e.half_size.x
        &&& e.pos.x - e.half_size.x <= sweep_hi(probe_x(proj, p), vel.x as int)
        &&& e.pos.y - e.half_size.y <= probe_y(proj, p) <= e.pos.y + e.half_size.y
    } else {
        &&& e.pos.x - e.half_size.x <= probe_x(proj, p) <= e.pos.x + e.half_size.x
        &&& sweep_lo(probe_y(proj, p), vel.y as int) <= e.pos.y + e.half_size.y
        &&& e.pos.y - e.half_size.y <= sweep_hi(probe_y(proj, p), vel.y as int)
    }
}

/// Side of the block struck on the vertical axis: the sign of the vertical
/// displacement decides; an entity at rest falls back to the probe's own
/// placement relative to the entity's center.
pub open spec fn side_vertical(vel: Vec2, p: CollisionPoint) -> CollisionSideOfBlock {
    if vel.y < 0 {
        CollisionSideOfBlock::Top
    } else if vel.y > 0 {
        CollisionSideOfBlock::Bottom
    } else if p.point.y <= 0 {
        CollisionSideOfBlock::Top
    } else {
        CollisionSideOfBlock::Bottom
    }
}

/// Side of the block struck on the horizontal axis.
pub open spec fn side_horizontal(vel: Vec2, p: CollisionPoint) -> CollisionSideOfBlock {
    if vel.x < 0 {
        CollisionSideOfBlock::Right
    } else if vel.x > 0 {
        CollisionSideOfBlock::Left
    } else if p.point.x <= 0 {
        CollisionSideOfBlock::Right
    } else {
        CollisionSideOfBlock::Left
    }
}

/// Side classification for the given axis.
pub open spec fn collision_side(vel: Vec2, p: CollisionPoint, horizontal: bool) -> CollisionSideOfBlock {
    if horizontal {
        side_horizontal(vel, p)
    } else {
        side_vertical(vel, p)
    }
}

/// Coordinate (on the blocked axis) of the platform face that was struck.
pub open spec fn surface_coord(e: RTreeEntity, side: CollisionSideOfBlock) -> int {
    match side {
        CollisionSideOfBlock::Top => e.pos.y + e.half_size.y,
        CollisionSideOfBlock::Bottom => e.pos.y - e.half_size.y,
        CollisionSideOfBlock::Left => e.pos.x - e.half_size.x,
        CollisionSideOfBlock::Right => e.pos.x + e.half_size.x,
    }
}

/// Penetration depth of the probe past the struck face; non-negative for
/// every actual hit.
pub open spec fn penetration(
    e: RTreeEntity,
    p: CollisionPoint,
    proj: Vec2,
    vel: Vec2,
    horizontal: bool,
) -> int {
    match collision_side(vel, p, horizontal) {
        CollisionSideOfBlock::Top => surface_coord(e, CollisionSideOfBlock::Top) - probe_y(proj, p),
        CollisionSideOfBlock::Bottom => probe_y(proj, p) - surface_coord(
            e,
            CollisionSideOfBlock::Bottom,
        ),
        CollisionSideOfBlock::Left => probe_x(proj, p) - surface_coord(
            e,
            CollisionSideOfBlock::Left,
        ),
        CollisionSideOfBlock::Right => surface_coord(e, CollisionSideOfBlock::Right) - probe_x(
            proj,
            p,
        ),
    }
}

/// Corrected entity coordinate on the blocked axis: the position that puts
/// the probe point exactly on the struck face (zero penetration).
pub open spec fn corrected_axis(e: RTreeEntity, p: CollisionPoint, vel: Vec2, horizontal: bool) -> int {
    let side = collision_side(vel, p, horizontal);
    if horizontal {
        surface_coord(e, side) - p.point.x
    } else {
        surface_coord(e, side) - p.point.y
    }
}

/// Number of probes of the given axis that touch the platform.
pub open spec fn hit_count_rec(
    e: RTreeEntity,
    probes: Seq<CollisionPoint>,
    proj: Vec2,
    vel: Vec2,
    horizontal: bool,
) -> int
    decreases probes.len(),
{
    if probes.len() == 0 {
        0
    } else {
        hit_count_rec(e, probes.drop_last(), proj, vel, horizontal) + if probe_on_axis(
            probes.last(),
            horizontal,
        ) && probe_hits(e, probes.last(), proj, vel) {
            1int
        } else {
            0int
        }
    }
}

/// Probe `i` of the given axis touches candidate `j`.
pub open spec fn pair_hit(
    probes: Seq<CollisionPoint>,
    cands: Seq<RTreeEntity>,
    proj: Vec2,
    vel: Vec2,
    horizontal: bool,
    i: int,
    j: int,
) -> bool {
    &&& 0 <= i < probes.len()
    &&& 0 <= j < cands.len()
    &&& probe_on_axis(probes[i], horizontal)
    &&& probe_hits(cands[j], probes[i], proj, vel)
}

/// The axis report `d` is the one produced by choosing probe `p` against
/// platform `e`.
pub open spec fn details_match(
    d: CollideeDetails,
    e: RTreeEntity,
    p: CollisionPoint,
    probes: Seq<CollisionPoint>,
    proj: Vec2,
    vel: Vec2,
    horizontal: bool,
) -> bool {
    &&& d.position == e.pos
    &&& d.half_size == e.half_size
    &&& d.entity == e.entity
    &&& d.side == collision_side(vel, p, horizontal)
    &&& d.distance == penetration(e, p, proj, vel, horizontal)
    &&& d.num_points_of_collision == hit_count_rec(e, probes, proj, vel, horizontal)
    &&& d.new_collider_pos == (if horizontal {
        Vec2 { x: corrected_axis(e, p, vel, horizontal) as i64, y: proj.y }
    } else {
        Vec2 { x: proj.x, y: corrected_axis(e, p, vel, horizontal) as i64 }
    })
    &&& d.correction == (if horizontal {
        corrected_axis(e, p, vel, horizontal) - proj.x
    } else {
        corrected_axis(e, p, vel, horizontal) - proj.y
    })
    &&& d.old_collider_vel == vel
    &&& d.new_collider_vel == (if horizontal {
        Vec2 { x: 0i64, y: vel.y }
    } else {
        Vec2 { x: vel.x, y: 0i64 }
    })
    &&& d.name@ == Seq::<char>::empty()
}

/// The chosen report beats (or equals) the platform `e` under the tie-break
/// policy, given both penetrate equally far.
pub open spec fn wins_tie(
    d: CollideeDetails,
    e: RTreeEntity,
    probes: Seq<CollisionPoint>,
    proj: Vec2,
    vel: Vec2,
    horizontal: bool,
) -> bool {
    ||| hit_count_rec(e, probes, proj, vel, horizontal) < d.num_points_of_collision
    ||| (hit_count_rec(e, probes, proj, vel, horizontal) == d.num_points_of_collision && d.entity
        <= e.entity)
}

/// Exec mirror of `probe_hits`.
fn probe_hit_exec(e: &RTreeEntity, p: &CollisionPoint, proj: Vec2, vel: Vec2) -> (r: bool)
    requires
        e.wf(),
        p.wf(),
        proj.within(2 * WORLD_LIMIT),
        vel.within(2 * WORLD_LIMIT),
    ensures
        r == probe_hits(*e, *p, proj, vel),
{
    if e.half_size.x <= 0 || e.half_size.y <= 0 {
        return false;
    }
    let wx = proj.x + p.point.x;
    let wy = proj.y + p.point.y;
    let (sx_lo, sx_hi): (i64, i64) = if vel.x >= 0 {
        (wx - vel.x, wx)
    } else {
        (wx, wx - vel.x)
    };
    let (sy_lo, sy_hi): (i64, i64) = if vel.y >= 0 {
        (wy - vel.y, wy)
    } else {
        (wy, wy - vel.y)
    };
    if p.is_horizontal {
        sx_lo <= e.pos.x + e.half_size.x && e.pos.x - e.half_size.x <= sx_hi && e.pos.y
            - e.half_size.y <= wy && wy <= e.pos.y + e.half_size.y
    } else {
        e.pos.x - e.half_size.x <= wx && wx <= e.pos.x + e.half_size.x && sy_lo <= e.pos.y
            + e.half_size.y && e.pos.y - e.half_size.y <= sy_hi
    }
}

/// Exec mirror of `collision_side`.
fn side_exec(vel: Vec2, p: &CollisionPoint, horizontal: bool) -> (r: CollisionSideOfBlock)
    ensures
        r == collision_side(vel, *p, horizontal),
{
    if horizontal {
        if vel.x < 0 {
            CollisionSideOfBlock::Right
        } else if vel.x > 0 {
            CollisionSideOfBlock::Left
        } else if p.point.x <= 0 {
            CollisionSideOfBlock::Right
        } else {
            CollisionSideOfBlock::Left
        }
    } else {
        if vel.y < 0 {
            CollisionSideOfBlock::Top
        } else if vel.y > 0 {
            CollisionSideOfBlock::Bottom
        } else if p.point.y <= 0 {
            CollisionSideOfBlock::Top
        } else {
            CollisionSideOfBlock::Bottom
        }
    }
}

/// Exec mirror of `penetration`.
fn penetration_exec(e: &RTreeEntity, p: &CollisionPoint, proj: Vec2, vel: Vec2, horizontal: bool) -> (r:
    i64)
    requires
        e.wf(),
        p.wf(),
        proj.within(2 * WORLD_LIMIT),
    ensures
        r == penetration(*e, *p, proj, vel, horizontal),
{
    let side = side_exec(vel, p, horizontal);
    match side {
        CollisionSideOfBlock::Top => (e.pos.y + e.half_size.y) - (proj.y + p.point.y),
        CollisionSideOfBlock::Bottom => (proj.y + p.point.y) - (e.pos.y - e.half_size.y),
        CollisionSideOfBlock::Left => (proj.x + p.point.x) - (e.pos.x - e.half_size.x),
        CollisionSideOfBlock::Right => (e.pos.x + e.half_size.x) - (proj.x + p.point.x),
    }
}

/// Number of probes of the axis touching `e`, by a scan over the probes.
fn count_hits(
    e: &RTreeEntity,
    probes: &Vec<CollisionPoint>,
    proj: Vec2,
    vel: Vec2,
    horizontal: bool,
) -> (n: i32)
    requires
        e.wf(),
        forall|k: int| 0 <= k < probes@.len() ==> (#[trigger] probes@[k]).wf(),
        probes@.len() <= 0x2000_0000,
        proj.within(2 * WORLD_LIMIT),
        vel.within(2 * WORLD_LIMIT),
    ensures
        n == hit_count_rec(*e, probes@, proj, vel, horizontal),
        0 <= n <= probes@.len(),
{
    let mut n: i32 = 0;
    let mut i: usize = 0;
    while i < probes.len()
        invariant
            i <= probes@.len(),
            probes@.len() <= 0x2000_0000,
            forall|k: int| 0 <= k < probes@.len() ==> (#[trigger] probes@[k]).wf(),
            e.wf(),
            proj.within(2 * WORLD_LIMIT),
            vel.within(2 * WORLD_LIMIT),
            n == hit_count_rec(*e, probes@.take(i as int), proj, vel, horizontal),
            0 <= n <= i,
        decreases probes@.len() - i,
    {
        let p = &probes[i];
        proof {
            assert(probes@.take(i + 1).drop_last() =~= probes@.take(i as int));
            assert(probes@.take(i + 1).last() == probes@[i as int]);
        }
        if p.is_horizontal == horizontal && probe_hit_exec(e, p, proj, vel) {
            n += 1;
        }
        i += 1;
    }
    proof {
        assert(probes@.take(probes@.len() as int) =~= probes@);
    }
    n
}

/// The probe of the axis with the least penetration into `e`, if any probe
/// of the axis touches `e` at all.
fn best_probe(
    e: &RTreeEntity,
    probes: &Vec<CollisionPoint>,
    proj: Vec2,
    vel: Vec2,
    horizontal: bool,
) -> (r: Option<(usize, i64)>)
    requires
        e.wf(),
        forall|k: int| 0 <= k < probes@.len() ==> (#[trigger] probes@[k]).wf(),
        proj.within(2 * WORLD_LIMIT),
        vel.within(2 * WORLD_LIMIT),
    ensures
        r is Some <==> exists|i: int|
            0 <= i < probes@.len() && probe_on_axis(#[trigger] probes@[i], horizontal)
                && probe_hits(*e, probes@[i], proj, vel),
        r matches Some(pd) ==> {
            &&& 0 <= pd.0 < probes@.len()
            &&& probe_on_axis(probes@[pd.0 as int], horizontal)
            &&& probe_hits(*e, probes@[pd.0 as int], proj, vel)
            &&& pd.1 == penetration(*e, probes@[pd.0 as int], proj, vel, horizontal)
            &&& forall|i: int|
                0 <= i < probes@.len() && probe_on_axis(#[trigger] probes@[i], horizontal)
                    && probe_hits(*e, probes@[i], proj, vel) ==> pd.1 <= penetration(
                    *e,
                    probes@[i],
                    proj,
                    vel,
                    horizontal,
                )
        },
{
    let mut r: Option<(usize, i64)> = None;
    let mut i: usize = 0;
    while i < probes.len()
        invariant
            i <= probes@.len(),
            forall|k: int| 0 <= k < probes@.len() ==> (#[trigger] probes@[k]).wf(),
            e.wf(),
            proj.within(2 * WORLD_LIMIT),
            vel.within(2 * WORLD_LIMIT),
            r is Some <==> exists|k: int|
                0 <= k < i && probe_on_axis(#[trigger] probes@[k], horizontal) && probe_hits(
                    *e,
                    probes@[k],
                    proj, vel,
                ),
            r matches Some(pd) ==> {
                &&& 0 <= pd.0 < i
                &&& probe_on_axis(probes@[pd.0 as int], horizontal)
                &&& probe_hits(*e, probes@[pd.0 as int], proj, vel)
                &&& pd.1 == penetration(*e, probes@[pd.0 as int], proj, vel, horizontal)
                &&& forall|k: int|
                    0 <= k < i && probe_on_axis(#[trigger] probes@[k], horizontal) && probe_hits(
                        *e,
                        probes@[k],
                        proj, vel,
                    ) ==> pd.1 <= penetration(*e, probes@[k], proj, vel, horizontal)
            },
        decreases probes@.len() - i,
    {
        let p = &probes[i];
        if p.is_horizontal == horizontal && probe_hit_exec(e, p, proj, vel) {
            let dist = penetration_exec(e, p, proj, vel, horizontal);
            let replace = match &r {
                Option::None => true,
                Option::Some(pd) => dist < pd.1,
            };
            if replace {
                r = Some((i, dist));
            }
        }
        i += 1;
    }
    r
}

/// Builds the axis report for the chosen probe/platform contact.
fn make_details(
    e: &RTreeEntity,
    p: &CollisionPoint,
    proj: Vec2,
    vel: Vec2,
    horizontal: bool,
    cnt: i32,
) -> (d: CollideeDetails)
    requires
        e.wf(),
        p.wf(),
        proj.within(2 * WORLD_LIMIT),
        vel.within(2 * WORLD_LIMIT),
        probe_on_axis(*p, horizontal),
        probe_hits(*e, *p, proj, vel),
        0 <= cnt <= 0x2000_0000,
    ensures
        d.position == e.pos,
        d.half_size == e.half_size,
        d.entity == e.entity,
        d.side == collision_side(vel, *p, horizontal),
        d.distance == penetration(*e, *p, proj, vel, horizontal),
        d.num_points_of_collision == cnt,
        d.new_collider_pos == (if horizontal {
            Vec2 { x: corrected_axis(*e, *p, vel, horizontal) as i64, y: proj.y }
        } else {
            Vec2 { x: proj.x, y: corrected_axis(*e, *p, vel, horizontal) as i64 }
        }),
        d.correction == (if horizontal {
            corrected_axis(*e, *p, vel, horizontal) - proj.x
        } else {
            corrected_axis(*e, *p, vel, horizontal) - proj.y
        }),
        d.old_collider_vel == vel,
        d.new_collider_vel == (if horizontal {
            Vec2 { x: 0i64, y: vel.y }
        } else {
            Vec2 { x: vel.x, y: 0i64 }
        }),
        d.name@ == Seq::<char>::empty(),
        d.wf(),
{
    let side = side_exec(vel, p, horizontal);
    let dist = penetration_exec(e, p, proj, vel, horizontal);
    let surface: i64 = match side {
        CollisionSideOfBlock::Top => e.pos.y + e.half_size.y,
        CollisionSideOfBlock::Bottom => e.pos.y - e.half_size.y,
        CollisionSideOfBlock::Left => e.pos.x - e.half_size.x,
        CollisionSideOfBlock::Right => e.pos.x + e.half_size.x,
    };
    let corrected: i64 = if horizontal {
        surface - p.point.x
    } else {
        surface - p.point.y
    };
    let new_pos = if horizontal {
        Vec2 { x: corrected, y: proj.y }
    } else {
        Vec2 { x: proj.x, y: corrected }
    };
    let correction = if horizontal {
        corrected - proj.x
    } else {
        corrected - proj.y
    };
    let new_vel = if horizontal {
        Vec2 { x: 0, y: vel.y }
    } else {
        Vec2 { x: vel.x, y: 0 }
    };
    CollideeDetails {
        name: String::new(),
        position: e.pos,
        half_size: e.half_size,
        new_collider_pos: new_pos,
        old_collider_vel: vel,
        new_collider_vel: new_vel,
        num_points_of_collision: cnt,
        correction,
        distance: dist,
        side,
        entity: e.entity,
    }
}

/// Scans the candidate platforms and reports, for one axis, the contact with
/// the least penetration, ties broken by probe count and then by entity
/// identifier.
pub fn detect_axis(
    proj: Vec2,
    vel: Vec2,
    probes: &Vec<CollisionPoint>,
    candidates: &Vec<RTreeEntity>,
    horizontal: bool,
) -> (r: Option<CollideeDetails>)
    requires
        proj.within(2 * WORLD_LIMIT),
        vel.within(2 * WORLD_LIMIT),
        forall|k: int| 0 <= k < probes@.len() ==> (#[trigger] probes@[k]).wf(),
        probes@.len() <= 0x2000_0000,
        forall|k: int| 0 <= k < candidates@.len() ==> (#[trigger] candidates@[k]).wf(),
    ensures
        r is Some <==> exists|i: int, j: int|
            pair_hit(probes@, candidates@, proj, vel, horizontal, i, j),
        r matches Some(d) ==> {
            &&& d.wf()
            &&& exists|i: int, j: int|
                #[trigger] pair_hit(probes@, candidates@, proj, vel, horizontal, i, j) && details_match(
                    d,
                    candidates@[j],
                    probes@[i],
                    probes@,
                    proj,
                    vel,
                    horizontal,
                )
            &&& forall|i: int, j: int|
                #[trigger] pair_hit(probes@, candidates@, proj, vel, horizontal, i, j) ==> d.distance
                    <= penetration(candidates@[j], probes@[i], proj, vel, horizontal)
            &&& forall|i: int, j: int|
                #[trigger] pair_hit(probes@, candidates@, proj, vel, horizontal, i, j) && penetration(
                    candidates@[j],
                    probes@[i],
                    proj,
                    vel,
                    horizontal,
                ) == d.distance ==> wins_tie(d, candidates@[j], probes@, proj, vel, horizontal)
        },
{
    let mut best: Option<CollideeDetails> = None;
    let ghost mut bi: int = 0;
    let ghost mut bj: int = 0;
    let mut j: usize = 0;
    while j < candidates.len()
        invariant
            j <= candidates@.len(),
            proj.within(2 * WORLD_LIMIT),
            vel.within(2 * WORLD_LIMIT),
            forall|k: int| 0 <= k < probes@.len() ==> (#[trigger] probes@[k]).wf(),
            probes@.len() <= 0x2000_0000,
            forall|k: int| 0 <= k < candidates@.len() ==> (#[trigger] candidates@[k]).wf(),
            best is Some <==> exists|i: int, jj: int|
                #[trigger] pair_hit(probes@, candidates@, proj, vel, horizontal, i, jj) && jj < j,
            best matches Some(d) ==> {
                &&& d.wf()
                &&& pair_hit(probes@, candidates@, proj, vel, horizontal, bi, bj)
                &&& bj < j
                &&& details_match(
                    d,
                    candidates@[bj],
                    probes@[bi],
                    probes@,
                    proj,
                    vel,
                    horizontal,
                )
                &&& forall|i: int, jj: int|
                    #[trigger] pair_hit(probes@, candidates@, proj, vel, horizontal, i, jj) && jj < j
                        ==> d.distance <= penetration(
                        candidates@[jj],
                        probes@[i],
                        proj,
                        vel,
                        horizontal,
                    )
                &&& forall|i: int, jj: int|
                    #[trigger] pair_hit(probes@, candidates@, proj, vel, horizontal, i, jj) && jj < j
                        && penetration(candidates@[jj], probes@[i], proj, vel, horizontal)
                        == d.distance ==> wins_tie(d, candidates@[jj], probes@, proj, vel, horizontal)
            },
        decreases candidates@.len() - j,
    {
        let e = &candidates[j];
        match best_probe(e, probes, proj, vel, horizontal) {
            Option::None => {
                proof {
                    assert forall|i: int, jj: int| #[trigger]
                        pair_hit(probes@, candidates@, proj, vel, horizontal, i, jj) && jj < j
                            + 1 implies jj < j by {
                        if jj == j {
                            assert(exists|i2: int|
                                0 <= i2 < probes@.len() && probe_on_axis(
                                    #[trigger] probes@[i2],
                                    horizontal,
                                ) && probe_hits(candidates@[j as int], probes@[i2], proj, vel));
                            assert(false);
                        }
                    }
                }
            },
            Option::Some(pd) => {
                let cnt = count_hits(e, probes, proj, vel, horizontal);
                let ghost prev_best = best;
                let replace = match &best {
                    Option::None => true,
                    Option::Some(b) => pd.1 < b.distance || (pd.1 == b.distance && (cnt
                        > b.num_points_of_collision || (cnt == b.num_points_of_collision
                        && e.entity < b.entity))),
                };
                if replace {
                    let d = make_details(e, &probes[pd.0], proj, vel, horizontal, cnt);
                    best = Some(d);
                    proof {
                        bi = pd.0 as int;
                        bj = j as int;
                        assert(pair_hit(probes@, candidates@, proj, vel, horizontal, bi, bj));
                        assert(details_match(
                            d,
                            candidates@[bj],
                            probes@[bi],
                            probes@,
                            proj,
                            vel,
                            horizontal,
                        ));
                        assert forall|i: int, jj: int| #[trigger]
                            pair_hit(probes@, candidates@, proj, vel, horizontal, i, jj) && jj < j
                                + 1 implies d.distance <= penetration(
                            candidates@[jj],
                            probes@[i],
                            proj,
                            vel,
                            horizontal,
                        ) by {
                            if jj == j {
                                assert(pd.1 <= penetration(
                                    candidates@[jj],
                                    probes@[i],
                                    proj,
                                    vel,
                                    horizontal,
                                ));
                            } else {
                                let b = prev_best->Some_0;
                                assert(b.distance <= penetration(
                                    candidates@[jj],
                                    probes@[i],
                                    proj,
                                    vel,
                                    horizontal,
                                ));
                            }
                        }
                        assert forall|i: int, jj: int| #[trigger]
                            pair_hit(probes@, candidates@, proj, vel, horizontal, i, jj) && jj < j + 1
                                && penetration(candidates@[jj], probes@[i], proj, vel, horizontal)
                                == d.distance implies wins_tie(
                            d,
                            candidates@[jj],
                            probes@,
                            proj, vel,
                            horizontal,
                        ) by {
                            if jj == j {
                                assert(hit_count_rec(candidates@[jj], probes@, proj, vel, horizontal)
                                    == d.num_points_of_collision);
                            } else {
                                let b = prev_best->Some_0;
                                assert(b.distance <= penetration(
                                    candidates@[jj],
                                    probes@[i],
                                    proj,
                                    vel,
                                    horizontal,
                                ));
                                if penetration(candidates@[jj], probes@[i], proj, vel, horizontal)
                                    == b.distance {
                                    assert(wins_tie(b, candidates@[jj], probes@, proj, vel, horizontal));
                                }
                            }
                        }
                    }
                } else {
                    proof {
                        let b = prev_best->Some_0;
                        assert forall|i: int, jj: int| #[trigger]
                            pair_hit(probes@, candidates@, proj, vel, horizontal, i, jj) && jj < j
                                + 1 implies b.distance <= penetration(
                            candidates@[jj],
                            probes@[i],
                            proj,
                            vel,
                            horizontal,
                        ) by {
                            if jj == j {
                                assert(pd.1 <= penetration(
                                    candidates@[jj],
                                    probes@[i],
                                    proj,
                                    vel,
                                    horizontal,
                                ));
                            }
                        }
                        assert forall|i: int, jj: int| #[trigger]
                            pair_hit(probes@, candidates@, proj, vel, horizontal, i, jj) && jj < j + 1
                                && penetration(candidates@[jj], probes@[i], proj, vel, horizontal)
                                == b.distance implies wins_tie(
                            b,
                            candidates@[jj],
                            probes@,
                            proj, vel,
                            horizontal,
                        ) by {
                            if jj == j {
                                assert(pd.1 <= penetration(
                                    candidates@[jj],
                                    probes@[i],
                                    proj,
                                    vel,
                                    horizontal,
                                ));
                                assert(cnt == hit_count_rec(
                                    candidates@[jj],
                                    probes@,
                                    proj, vel,
                                    horizontal,
                                ));
                            }
                        }
                        assert(pair_hit(probes@, candidates@, proj, vel, horizontal, pd.0 as int, j as int));
                    }
                }
            },
        }
        j += 1;
    }
    best
}

/// Some probe of the given axis touches entry `e` of the collider multiset.
pub open spec fn entry_hit(
    m: Multiset<RTreeEntity>,
    probes: Seq<CollisionPoint>,
    proj: Vec2,
    vel: Vec2,
    horizontal: bool,
    e: RTreeEntity,
    i: int,
) -> bool {
    &&& m.contains(e)
    &&& 0 <= i < probes.len()
    &&& probe_on_axis(probes[i], horizontal)
    &&& probe_hits(e, probes[i], proj, vel)
}

/// The axis slot of the report is correct with respect to the full collider
/// multiset: filled exactly when some probe of the axis touches some entry,
/// with the least-penetration contact, tie-broken as documented.
pub open spec fn axis_report_ok(
    slot: Option<CollideeDetails>,
    m: Multiset<RTreeEntity>,
    probes: Seq<CollisionPoint>,
    proj: Vec2,
    vel: Vec2,
    horizontal: bool,
) -> bool {
    &&& (slot is Some <==> exists|e: RTreeEntity, i: int|
        entry_hit(m, probes, proj, vel, horizontal, e, i))
    &&& match slot {
        Option::Some(d) => {
            &&& d.wf()
            &&& exists|e: RTreeEntity, i: int|
                #[trigger] entry_hit(m, probes, proj, vel, horizontal, e, i) && details_match(
                    d,
                    e,
                    probes[i],
                    probes,
                    proj,
                    vel,
                    horizontal,
                )
            &&& forall|e: RTreeEntity, i: int|
                #[trigger] entry_hit(m, probes, proj, vel, horizontal, e, i) ==> d.distance
                    <= penetration(e, probes[i], proj, vel, horizontal)
            &&& forall|e: RTreeEntity, i: int|
                #[trigger] entry_hit(m, probes, proj, vel, horizontal, e, i) && penetration(
                    e,
                    probes[i],
                    proj,
                    vel,
                    horizontal,
                ) == d.distance ==> wins_tie(d, e, probes, proj, vel, horizontal)
        },
        Option::None => true,
    }
}

/// The actor's position projected one step ahead.
pub open spec fn projected(pos: Vec2, vel: Vec2) -> Vec2 {
    Vec2 { x: (pos.x + vel.x) as i64, y: (pos.y + vel.y) as i64 }
}

/// The index query box covers, for each probe, the whole interval swept
/// between the old and the projected position, widened by the probe's reach
/// — the half extent of the edge the probe stands for — so every candidate
/// the hit test could accept is fetched; the exact test above then decides.
///
/// Lower x bound of the region covered by a probe during the step.
pub open spec fn seg_lo_x(p: CollisionPoint, proj: Vec2, vel: Vec2) -> int {
    if p.is_horizontal {
        sweep_lo(probe_x(proj, p), vel.x as int)
    } else {
        sweep_lo(probe_x(proj, p), vel.x as int) - p.half_reach
    }
}

/// Upper x bound of the region covered by a probe during the step.
pub open spec fn seg_hi_x(p: CollisionPoint, proj: Vec2, vel: Vec2) -> int {
    if p.is_horizontal {
        sweep_hi(probe_x(proj, p), vel.x as int)
    } else {
        sweep_hi(probe_x(proj, p), vel.x as int) + p.half_reach
    }
}

/// Lower y bound of the region covered by a probe during the step.
pub open spec fn seg_lo_y(p: CollisionPoint, proj: Vec2, vel: Vec2) -> int {
    if p.is_horizontal {
        sweep_lo(probe_y(proj, p), vel.y as int) - p.half_reach
    } else {
        sweep_lo(probe_y(proj, p), vel.y as int)
    }
}

/// Upper y bound of the region covered by a probe during the step.
pub open spec fn seg_hi_y(p: CollisionPoint, proj: Vec2, vel: Vec2) -> int {
    if p.is_horizontal {
        sweep_hi(probe_y(proj, p), vel.y as int) + p.half_reach
    } else {
        sweep_hi(probe_y(proj, p), vel.y as int)
    }
}

/// Law: the axis report is independent of the order in which the spatial
/// index hands out candidates.  Any two reports that satisfy the report
/// contract over the same colliders agree on whether there is a contact and
/// on its penetration, probe count, and platform identity — the tie-break
/// policy leaves no room for order to decide.
pub proof fn lemma_axis_report_deterministic(
    slot1: Option<CollideeDetails>,
    slot2: Option<CollideeDetails>,
    m: Multiset<RTreeEntity>,
    probes: Seq<CollisionPoint>,
    proj: Vec2,
    vel: Vec2,
    horizontal: bool,
)
    requires
        axis_report_ok(slot1, m, probes, proj, vel, horizontal),
        axis_report_ok(slot2, m, probes, proj, vel, horizontal),
    ensures
        slot1 is Some <==> slot2 is Some,
        (slot1 is Some && slot2 is Some) ==> ({
            let d1 = slot1->Some_0;
            let d2 = slot2->Some_0;
            &&& d1.distance == d2.distance
            &&& d1.num_points_of_collision == d2.num_points_of_collision
            &&& d1.entity == d2.entity
        }),
{
    if slot1 is Some && slot2 is Some {
        let d1 = slot1->Some_0;
        let d2 = slot2->Some_0;
        let (e1, i1): (RTreeEntity, int) = choose|e: RTreeEntity, i: int|
            #[trigger] entry_hit(m, probes, proj, vel, horizontal, e, i) && details_match(
                d1,
                e,
                probes[i],
                probes,
                proj,
                vel,
                horizontal,
            );
        let (e2, i2): (RTreeEntity, int) = choose|e: RTreeEntity, i: int|
            #[trigger] entry_hit(m, probes, proj, vel, horizontal, e, i) && details_match(
                d2,
                e,
                probes[i],
                probes,
                proj,
                vel,
                horizontal,
            );
        // Each report's own contact bounds the other's minimum, so the
        // penetrations agree.
        assert(d2.distance <= penetration(e1, probes[i1], proj, vel, horizontal));
        assert(d1.distance <= penetration(e2, probes[i2], proj, vel, horizontal));
        // Both witnesses penetrate exactly that far, so each report wins the
        // tie against the other's platform, forcing equal counts and ids.
        assert(wins_tie(d2, e1, probes, proj, vel, horizontal));
        assert(wins_tie(d1, e2, probes, proj, vel, horizontal));
    }
}

/// Law: the corrected position places the chosen probe point exactly on the
/// struck platform face — zero penetration, not merely reduced.
pub proof fn lemma_zero_penetration(
    d: CollideeDetails,
    e: RTreeEntity,
    p: CollisionPoint,
    probes: Seq<CollisionPoint>,
    proj: Vec2,
    vel: Vec2,
    horizontal: bool,
)
    requires
        e.wf(),
        p.wf(),
        details_match(d, e, p, probes, proj, vel, horizontal),
    ensures
        horizontal ==> d.new_collider_pos.x + p.point.x == surface_coord(
            e,
            collision_side(vel, p, horizontal),
        ),
        !horizontal ==> d.new_collider_pos.y + p.point.y == surface_coord(
            e,
            collision_side(vel, p, horizontal),
        ),
{
}

/// A hit implies the platform's box meets the region the probe covered
/// during the step, hence any box that covers that region.
proof fn lemma_hit_in_cover(
    e: RTreeEntity,
    p: CollisionPoint,
    proj: Vec2,
    vel: Vec2,
    min_x: int,
    min_y: int,
    max_x: int,
    max_y: int,
)
    requires
        0 <= p.half_reach,
        probe_hits(e, p, proj, vel),
        min_x <= seg_lo_x(p, proj, vel),
        seg_hi_x(p, proj, vel) <= max_x,
        min_y <= seg_lo_y(p, proj, vel),
        seg_hi_y(p, proj, vel) <= max_y,
    ensures
        query_hit(e, min_x, min_y, max_x, max_y),
{
}

/// The narrow phase for one actor: queries the spatial index once with a box
/// covering every probe's sweep from the old to the projected position, then
/// fills the collision report per axis; the previous report is retained in
/// the `prev` slots.
pub fn platform_collision(
    pos: &Position,
    vel: &Velocity,
    points: &PlatformCollisionPoints,
    index: &SpatialIndex,
    collidee: &mut Collidee,
)
    requires
        pos.0.in_world(),
        vel.0.in_world(),
        points.wf(),
        index_wf(*index),
    ensures
        final(collidee).prev_horizontal == old(collidee).horizontal,
        final(collidee).prev_vertical == old(collidee).vertical,
        axis_report_ok(
            final(collidee).horizontal,
            index_entries(*index),
            points.collision_points@,
            projected(pos.0, vel.0),
            vel.0,
            true,
        ),
        axis_report_ok(
            final(collidee).vertical,
            index_entries(*index),
            points.collision_points@,
            projected(pos.0, vel.0),
            vel.0,
            false,
        ),
        old(collidee).wf() ==> final(collidee).wf(),
{
    let proj = Vec2 { x: pos.0.x + vel.0.x, y: pos.0.y + vel.0.y };
    let probes = &points.collision_points;

    // Query box covering every probe's swept region over this step.
    let mut min_x: i64 = proj.x;
    let mut max_x: i64 = proj.x;
    let mut min_y: i64 = proj.y;
    let mut max_y: i64 = proj.y;
    let mut k: usize = 0;
    while k < probes.len()
        invariant
            k <= probes@.len(),
            proj == projected(pos.0, vel.0),
            proj.within(2 * WORLD_LIMIT),
            vel.0.in_world(),
            forall|t: int| 0 <= t < probes@.len() ==> (#[trigger] probes@[t]).wf(),
            min_x <= max_x,
            min_y <= max_y,
            -6 * WORLD_LIMIT <= min_x,
            max_x <= 6 * WORLD_LIMIT,
            -6 * WORLD_LIMIT <= min_y,
            max_y <= 6 * WORLD_LIMIT,
            forall|t: int|
                0 <= t < k ==> min_x <= seg_lo_x(#[trigger] probes@[t], proj, vel.0) && seg_hi_x(
                    probes@[t],
                    proj,
                    vel.0,
                ) <= max_x && min_y <= seg_lo_y(probes@[t], proj, vel.0) && seg_hi_y(
                    probes@[t],
                    proj,
                    vel.0,
                ) <= max_y,
        decreases probes@.len() - k,
    {
        let p = &probes[k];
        let wx = proj.x + p.point.x;
        let wy = proj.y + p.point.y;
        let (sx_lo, sx_hi): (i64, i64) = if vel.0.x >= 0 {
            (wx - vel.0.x, wx)
        } else {
            (wx, wx - vel.0.x)
        };
        let (sy_lo, sy_hi): (i64, i64) = if vel.0.y >= 0 {
            (wy - vel.0.y, wy)
        } else {
            (wy, wy - vel.0.y)
        };
        let (lo_x, hi_x, lo_y, hi_y): (i64, i64, i64, i64) = if p.is_horizontal {
            (sx_lo, sx_hi, sy_lo - p.half_reach, sy_hi + p.half_reach)
        } else {
            (sx_lo - p.half_reach, sx_hi + p.half_reach, sy_lo, sy_hi)
        };
        if lo_x < min_x {
            min_x = lo_x;
        }
        if hi_x > max_x {
            max_x = hi_x;
        }
        if lo_y < min_y {
            min_y = lo_y;
        }
        if hi_y > max_y {
            max_y = hi_y;
        }
        k += 1;
    }

    let candidates = index.query(min_x, min_y, max_x, max_y);

    let h = detect_axis(proj, vel.0, probes, &candidates, true);
    let v = detect_axis(proj, vel.0, probes, &candidates, false);

    proof {
        lemma_axis_transfer(
            h,
            *index,
            candidates@,
            probes@,
            proj,
            vel.0,
            true,
            min_x as int,
            min_y as int,
            max_x as int,
            max_y as int,
        );
        lemma_axis_transfer(
            v,
            *index,
            candidates@,
            probes@,
            proj,
            vel.0,
            false,
            min_x as int,
            min_y as int,
            max_x as int,
            max_y as int,
        );
    }

    collidee.prev_horizontal = collidee.horizontal.take();
    collidee.prev_vertical = collidee.vertical.take();
    collidee.horizontal = h;
    collidee.vertical = v;
}

/// Lifts the per-candidate-list report guarantees of `detect_axis` to the
/// whole collider multiset, using that the query returned every entry whose
/// box meets the covering box, and only entries of the index.
proof fn lemma_axis_transfer(
    slot: Option<CollideeDetails>,
    index: SpatialIndex,
    cands: Seq<RTreeEntity>,
    probes: Seq<CollisionPoint>,
    proj: Vec2,
    vel: Vec2,
    horizontal: bool,
    min_x: int,
    min_y: int,
    max_x: int,
    max_y: int,
)
    requires
        forall|t: int| 0 <= t < probes.len() ==> 0 <= (#[trigger] probes[t]).half_reach,
        forall|t: int|
            0 <= t < probes.len() ==> min_x <= seg_lo_x(#[trigger] probes[t], proj, vel) && seg_hi_x(
                probes[t],
                proj, vel,
            ) <= max_x && min_y <= seg_lo_y(probes[t], proj, vel) && seg_hi_y(probes[t], proj, vel) <= max_y,
        forall|jj: int|
            0 <= jj < cands.len() ==> index_entries(index).contains(#[trigger] cands[jj]),
        forall|e: RTreeEntity|
            index_entries(index).contains(e) && query_hit(e, min_x, min_y, max_x, max_y)
                ==> cands.contains(e),
        slot is Some <==> exists|i: int, j: int| pair_hit(probes, cands, proj, vel, horizontal, i, j),
        slot matches Some(d) ==> {
            &&& d.wf()
            &&& exists|i: int, j: int|
                #[trigger] pair_hit(probes, cands, proj, vel, horizontal, i, j) && details_match(
                    d,
                    cands[j],
                    probes[i],
                    probes,
                    proj,
                    vel,
                    horizontal,
                )
            &&& forall|i: int, j: int|
                #[trigger] pair_hit(probes, cands, proj, vel, horizontal, i, j) ==> d.distance
                    <= penetration(cands[j], probes[i], proj, vel, horizontal)
            &&& forall|i: int, j: int|
                #[trigger] pair_hit(probes, cands, proj, vel, horizontal, i, j) && penetration(
                    cands[j],
                    probes[i],
                    proj,
                    vel,
                    horizontal,
                ) == d.distance ==> wins_tie(d, cands[j], probes, proj, vel, horizontal)
        },
    ensures
        axis_report_ok(slot, index_entries(index), probes, proj, vel, horizontal),
{
    let m = index_entries(index);

    // Every entry hit by a probe is among the candidates.
    assert forall|e: RTreeEntity, i: int| #[trigger]
        entry_hit(m, probes, proj, vel, horizontal, e, i) implies exists|j: int|
        pair_hit(probes, cands, proj, vel, horizontal, i, j) && cands[j] == e by {
        lemma_hit_in_cover(e, probes[i], proj, vel, min_x, min_y, max_x, max_y);
        assert(cands.contains(e));
        let j = choose|j: int| 0 <= j < cands.len() && cands[j] == e;
        assert(pair_hit(probes, cands, proj, vel, horizontal, i, j));
    }

    // Every candidate pair hit is an entry hit.
    assert forall|i: int, j: int| #[trigger]
        pair_hit(probes, cands, proj, vel, horizontal, i, j) implies entry_hit(
        m,
        probes,
        proj, vel,
        horizontal,
        cands[j],
        i,
    ) by {}

    if slot is Some {
        let d = slot->Some_0;
        assert forall|e: RTreeEntity, i: int| #[trigger]
            entry_hit(m, probes, proj, vel, horizontal, e, i) implies d.distance <= penetration(
            e,
            probes[i],
            proj,
            vel,
            horizontal,
        ) by {
            let j = choose|j: int|
                pair_hit(probes, cands, proj, vel, horizontal, i, j) && cands[j] == e;
        }
        assert forall|e: RTreeEntity, i: int| #[trigger]
            entry_hit(m, probes, proj, vel, horizontal, e, i) && penetration(
            e,
            probes[i],
            proj,
            vel,
            horizontal,
        ) == d.distance implies wins_tie(d, e, probes, proj, vel, horizontal) by {
            let j = choose|j: int|
                pair_hit(probes, cands, proj, vel, horizontal, i, j) && cands[j] == e;
        }
    }
}

} // verus!
