//! Per-entity physics components: positions, velocities, gravity orientation,
//! collision probe points, static platform colliders, and the per-step
//! collision report (`Collidee`).

use vstd::prelude::*;

use crate::vec2::{Vec2, COORD_LIMIT, TILE_HEIGHT, TILE_WIDTH, WORLD_LIMIT};

verus! {

/// Desired movement written by input or AI collaborators before a step runs.
#[derive(Clone, Copy, Debug, PartialEq, Eq, Structural)]
pub struct MoveIntent {
    pub vec: Vec2,
}

impl Default for MoveIntent {
    fn default() -> (r: Self)
        ensures
            r.vec == (Vec2 { x: 0i64, y: 0i64 }),
    {
        MoveIntent { vec: Vec2 { x: 0, y: 0 } }
    }
}

/// Facing direction; informational only, no effect on collision math.
#[derive(Clone, Copy, Debug, PartialEq, Eq, Structural)]
pub struct Orientation {
    pub vec: Vec2,
}

impl Default for Orientation {
    /// Facing right.
    fn default() -> (r: Self)
        ensures
            r.vec == (Vec2 { x: 1i64, y: 0i64 }),
    {
        Orientation { vec: Vec2 { x: 1, y: 0 } }
    }
}

/// The geometric side of a platform block that a probe ran into.
#[derive(Clone, Copy, Debug, PartialEq, Eq, Structural)]
pub enum CollisionSideOfBlock {
    Top,
    Bottom,
    Left,
    Right,
}

impl CollisionSideOfBlock {
    /// True for the sides reached by horizontal movement.
    pub fn is_horizontal(&self) -> (r: bool)
        ensures
            r == (self is Left || self is Right),
    {
        match self {
            CollisionSideOfBlock::Left => true,
            CollisionSideOfBlock::Right => true,
            _ => false,
        }
    }

    /// True for the sides reached by vertical movement.
    pub fn is_vertical(&self) -> (r: bool)
        ensures
            r == (self is Top || self is Bottom),
    {
        match self {
            CollisionSideOfBlock::Top => true,
            CollisionSideOfBlock::Bottom => true,
            _ => false,
        }
    }
}

/// Rigid offset from a parent entity: the owner's position is derived, each
/// step, as the parent's position plus `offset`.
#[derive(Clone, Copy, Debug, PartialEq, Eq, Structural)]
pub struct ChildTo {
    pub parent: u32,
    pub offset: Vec2,
}

/// One axis slot of a collision report: which platform was hit, where the
/// actor must be moved to, and how deep the contact was.
#[derive(Clone, Debug)]
pub struct CollideeDetails {
    pub name: String,
    pub position: Vec2,
    pub half_size: Vec2,
    pub new_collider_pos: Vec2,
    pub old_collider_vel: Vec2,
    pub new_collider_vel: Vec2,
    pub num_points_of_collision: i32,
    pub correction: i64,
    pub distance: i64,
    pub side: CollisionSideOfBlock,
    pub entity: u32,
}

impl CollideeDetails {
    /// All coordinates within the loose bound and the probe count small
    /// enough that sums of a few counts fit in `i32`.
    pub open spec fn wf(self) -> bool {
        &&& self.position.in_space()
        &&& self.half_size.in_space()
        &&& self.new_collider_pos.in_space()
        &&& self.old_collider_vel.in_space()
        &&& self.new_collider_vel.in_space()
        &&& 0 <= self.num_points_of_collision <= 0x2000_0000
        &&& -COORD_LIMIT <= self.correction <= COORD_LIMIT
        &&& 0 <= self.distance <= COORD_LIMIT
    }

    pub fn new() -> (r: CollideeDetails)
        ensures
            r.name@ == Seq::<char>::empty(),
            r.position == (Vec2 { x: 0i64, y: 0i64 }),
            r.half_size == (Vec2 { x: 0i64, y: 0i64 }),
            r.new_collider_pos == (Vec2 { x: 0i64, y: 0i64 }),
            r.old_collider_vel == (Vec2 { x: 0i64, y: 0i64 }),
            r.new_collider_vel == (Vec2 { x: 0i64, y: 0i64 }),
            r.num_points_of_collision == 0,
            r.correction == 0,
            r.distance == 0,
            r.side == CollisionSideOfBlock::Top,
            r.entity == 0,
            r.wf(),
    {
        CollideeDetails {
            name: String::new(),
            position: Vec2 { x: 0, y: 0 },
            half_size: Vec2 { x: 0, y: 0 },
            new_collider_pos: Vec2 { x: 0, y: 0 },
            old_collider_vel: Vec2 { x: 0, y: 0 },
            new_collider_vel: Vec2 { x: 0, y: 0 },
            num_points_of_collision: 0,
            correction: 0,
            distance: 0,
            side: CollisionSideOfBlock::Top,
            entity: 0,
        }
    }
}

/// Marks an entity whose vertical profile is temporarily reduced (crouch).
#[derive(Clone, Copy, Debug, PartialEq, Eq, Structural)]
pub struct Ducking {
    pub new_half_size: Vec2,
    pub old_half_size: Vec2,
}

impl Ducking {
    pub fn new(new_half_size: Vec2, old_half_size: Vec2) -> (r: Ducking)
        ensures
            r.new_half_size == new_half_size,
            r.old_half_size == old_half_size,
    {
        Ducking { new_half_size, old_half_size }
    }
}

/// Sum of the probe counts of an optional axis slot.
pub open spec fn slot_points(o: Option<CollideeDetails>) -> int {
    match o {
        Option::Some(d) => d.num_points_of_collision as int,
        Option::None => 0,
    }
}

/// True unless the slot holds a malformed report.
pub open spec fn slot_wf(o: Option<CollideeDetails>) -> bool {
    match o {
        Option::Some(d) => d.wf(),
        Option::None => true,
    }
}

/// Per-actor, per-step collision report, with the previous step's report
/// retained for one-step hysteresis.
pub struct Collidee {
    pub horizontal: Option<CollideeDetails>,
    pub vertical: Option<CollideeDetails>,
    pub prev_horizontal: Option<CollideeDetails>,
    pub prev_vertical: Option<CollideeDetails>,
}

impl Collidee {
    pub open spec fn wf(self) -> bool {
        &&& slot_wf(self.horizontal)
        &&& slot_wf(self.vertical)
        &&& slot_wf(self.prev_horizontal)
        &&& slot_wf(self.prev_vertical)
    }

    pub fn new() -> (r: Collidee)
        ensures
            r.horizontal is None,
            r.vertical is None,
            r.prev_horizontal is None,
            r.prev_vertical is None,
            r.wf(),
    {
        Collidee { horizontal: None, vertical: None, prev_horizontal: None, prev_vertical: None }
    }

    /// Both axes are simultaneously blocked this step, and only then.
    pub fn both(&self) -> (r: bool)
        ensures
            r == (self.horizontal is Some && self.vertical is Some),
    {
        self.horizontal.is_some() && self.vertical.is_some()
    }

    /// Total probe count of the previous step's report.
    pub fn prev_collision_points(&self) -> (r: i32)
        requires
            self.wf(),
        ensures
            r == slot_points(self.prev_horizontal) + slot_points(self.prev_vertical),
    {
        let mut result: i32 = 0;
        if let Some(x) = &self.prev_horizontal {
            result += x.num_points_of_collision;
        }
        if let Some(x) = &self.prev_vertical {
            result += x.num_points_of_collision;
        }
        result
    }

    /// Total probe count of this step's report.
    pub fn current_collision_points(&self) -> (r: i32)
        requires
            self.wf(),
        ensures
            r == slot_points(self.horizontal) + slot_points(self.vertical),
    {
        let mut result: i32 = 0;
        if let Some(x) = &self.horizontal {
            result += x.num_points_of_collision;
        }
        if let Some(x) = &self.vertical {
            result += x.num_points_of_collision;
        }
        result
    }
}

/// True iff the gravity-relative bottom side is currently (or was very
/// recently) blocked.
#[derive(Clone, Copy, Debug, PartialEq, Eq, Structural)]
pub struct Grounded(pub bool);

/// Marks an entity that inherits the per-step displacement of the platform
/// it rests on.
#[derive(Clone, Copy, Debug, PartialEq, Eq, Structural)]
pub struct Sticky(pub bool);

/// The four cardinal directions gravity can come from; `FromTop` is the
/// conventional downward pull.
#[derive(Clone, Copy, Debug, PartialEq, Eq, Structural)]
pub enum CollisionDirection {
    FromTop,
    FromBottom,
    FromLeft,
    FromRight,
}

impl Default for CollisionDirection {
    fn default() -> (r: Self)
        ensures
            r == CollisionDirection::FromTop,
    {
        CollisionDirection::FromTop
    }
}

/// Per-entity gravity orientation: which geometric side counts as "bottom".
#[derive(Clone, Copy, Debug, PartialEq, Eq, Structural)]
pub struct GravityDirection(pub CollisionDirection);

impl Default for GravityDirection {
    fn default() -> (r: Self)
        ensures
            r == GravityDirection(CollisionDirection::FromTop),
    {
        GravityDirection(CollisionDirection::FromTop)
    }
}

/// World-space coordinate of an entity's logical center.
#[derive(Clone, Copy, Debug, PartialEq, Eq, Structural)]
pub struct Position(pub Vec2);

impl Default for Position {
    fn default() -> (r: Self)
        ensures
            r.0 == (Vec2 { x: 0i64, y: 0i64 }),
    {
        Position(Vec2 { x: 0, y: 0 })
    }
}

/// Current per-step displacement vector (already scaled to one step).
#[derive(Clone, Copy, Debug, PartialEq, Eq, Structural)]
pub struct Velocity(pub Vec2);

impl Velocity {
    /// The displacement this velocity contributes over one step.
    pub fn project_move(&self) -> (r: Vec2)
        ensures
            r == self.0,
    {
        self.0
    }
}

impl Default for Velocity {
    fn default() -> (r: Self)
        ensures
            r.0 == (Vec2 { x: 0i64, y: 0i64 }),
    {
        Velocity(Vec2 { x: 0, y: 0 })
    }
}

/// One collision probe: an offset from the owner's position, a half-extent
/// along the axis perpendicular to the one it tests, and a flag that is true
/// for probes that test vertical surfaces (left/right edges).
#[derive(Clone, Copy, Debug, PartialEq, Eq, Structural)]
pub struct CollisionPoint {
    pub point: Vec2,
    pub half_reach: i64,
    pub is_horizontal: bool,
}

impl CollisionPoint {
    /// Offset and reach within the primary world bound.
    pub open spec fn wf(self) -> bool {
        self.point.in_world() && 0 <= self.half_reach <= WORLD_LIMIT
    }

    pub fn new(point: Vec2, half_reach: i64, is_horizontal: bool) -> (r: CollisionPoint)
        ensures
            r.point == point,
            r.half_reach == half_reach,
            r.is_horizontal == is_horizontal,
    {
        CollisionPoint { point, half_reach, is_horizontal }
    }
}

/// The full plus-pattern of four probes for an entity of the given half-size:
/// left, right, top, bottom, in that order.
pub open spec fn plus_points(half: Vec2) -> Seq<CollisionPoint> {
    seq![
        CollisionPoint {
            point: Vec2 { x: (-half.x) as i64, y: 0i64 },
            half_reach: half.y,
            is_horizontal: true,
        },
        CollisionPoint { point: Vec2 { x: half.x, y: 0i64 }, half_reach: half.y, is_horizontal: true },
        CollisionPoint {
            point: Vec2 { x: 0i64, y: half.y },
            half_reach: half.x,
            is_horizontal: false,
        },
        CollisionPoint {
            point: Vec2 { x: 0i64, y: (-half.y) as i64 },
            half_reach: half.x,
            is_horizontal: false,
        },
    ]
}

/// The reduced crouch pattern: the remaining probes are recentered around the
/// new half-height while the bottom probe stays anchored at the original
/// bottom edge.  Order: left, right, top, bottom.
pub open spec fn shrunk_points(half: Vec2, new_half_height: i64) -> Seq<CollisionPoint> {
    let center = -half.y + new_half_height;
    seq![
        CollisionPoint {
            point: Vec2 { x: (-half.x) as i64, y: center as i64 },
            half_reach: new_half_height,
            is_horizontal: true,
        },
        CollisionPoint {
            point: Vec2 { x: half.x, y: center as i64 },
            half_reach: new_half_height,
            is_horizontal: true,
        },
        CollisionPoint {
            point: Vec2 { x: 0i64, y: (center + new_half_height) as i64 },
            half_reach: half.x,
            is_horizontal: false,
        },
        CollisionPoint {
            point: Vec2 { x: 0i64, y: (-half.y) as i64 },
            half_reach: half.x,
            is_horizontal: false,
        },
    ]
}

/// State transition performed by `reset_collision_points`, on the pair
/// (probe sequence, half-size).
pub open spec fn reset_transition(points: Seq<CollisionPoint>, half: Vec2) -> (
    Seq<CollisionPoint>,
    Vec2,
) {
    (plus_points(half), half)
}

/// State transition performed by `shrink_height_collision_points`.
pub open spec fn shrink_transition(
    points: Seq<CollisionPoint>,
    half: Vec2,
    new_half_height: i64,
) -> (Seq<CollisionPoint>, Vec2) {
    (shrunk_points(half, new_half_height), half)
}

/// An entity's probe points, expressed as offsets from its position, together
/// with its half-size.
pub struct PlatformCollisionPoints {
    pub collision_points: Vec<CollisionPoint>,
    pub half_size: Vec2,
}

impl PlatformCollisionPoints {
    /// Half-size non-negative and bounded, every probe bounded, and few
    /// enough probes that counts fit in `i32`.
    pub open spec fn wf(self) -> bool {
        &&& 0 <= self.half_size.x <= WORLD_LIMIT
        &&& 0 <= self.half_size.y <= WORLD_LIMIT
        &&& forall|i: int|
            0 <= i < self.collision_points@.len() ==> (#[trigger] self.collision_points@[i]).wf()
        &&& self.collision_points@.len() <= 0x2000_0000
    }

    /// Builds the default four-probe plus pattern for the given half-extents.
    pub fn plus(half_width: i64, half_height: i64) -> (r: PlatformCollisionPoints)
        requires
            0 <= half_width <= WORLD_LIMIT,
            0 <= half_height <= WORLD_LIMIT,
        ensures
            r.half_size == (Vec2 { x: half_width, y: half_height }),
            r.collision_points@ == plus_points(r.half_size),
            r.wf(),
    {
        let mut result = PlatformCollisionPoints {
            collision_points: Vec::new(),
            half_size: Vec2 { x: half_width, y: half_height },
        };
        result.reset_collision_points();
        result
    }

    /// Restores the full plus pattern for the stored half-size.
    pub fn reset_collision_points(&mut self)
        requires
            0 <= old(self).half_size.x <= WORLD_LIMIT,
            0 <= old(self).half_size.y <= WORLD_LIMIT,
        ensures
            (final(self).collision_points@, final(self).half_size) == reset_transition(
                old(self).collision_points@,
                old(self).half_size,
            ),
            final(self).wf(),
    {
        self.collision_points.clear();
        let left = CollisionPoint::new(Vec2 { x: -self.half_size.x, y: 0 }, self.half_size.y, true);
        let right = CollisionPoint::new(Vec2 { x: self.half_size.x, y: 0 }, self.half_size.y, true);
        let top = CollisionPoint::new(Vec2 { x: 0, y: self.half_size.y }, self.half_size.x, false);
        let bottom = CollisionPoint::new(
            Vec2 { x: 0, y: -self.half_size.y },
            self.half_size.x,
            false,
        );
        self.collision_points.push(left);
        self.collision_points.push(right);
        self.collision_points.push(top);
        self.collision_points.push(bottom);
        proof {
            assert(self.collision_points@ =~= plus_points(self.half_size));
        }
    }

    /// Collapses the probes to a reduced vertical profile for crouching; the
    /// stored half-size is kept so the pattern can be restored later.
    pub fn shrink_height_collision_points(&mut self, new_half_height: i64)
        requires
            0 <= old(self).half_size.x <= WORLD_LIMIT,
            0 <= old(self).half_size.y <= WORLD_LIMIT,
            0 <= new_half_height <= old(self).half_size.y,
        ensures
            (final(self).collision_points@, final(self).half_size) == shrink_transition(
                old(self).collision_points@,
                old(self).half_size,
                new_half_height,
            ),
            final(self).wf(),
    {
        self.collision_points.clear();
        let center_height = -self.half_size.y + new_half_height;
        let bottom = CollisionPoint::new(
            Vec2 { x: 0, y: -self.half_size.y },
            self.half_size.x,
            false,
        );
        let left = CollisionPoint::new(
            Vec2 { x: -self.half_size.x, y: center_height },
            new_half_height,
            true,
        );
        let right = CollisionPoint::new(
            Vec2 { x: self.half_size.x, y: center_height },
            new_half_height,
            true,
        );
        let top = CollisionPoint::new(
            Vec2 { x: 0, y: center_height + new_half_height },
            self.half_size.x,
            false,
        );
        self.collision_points.push(left);
        self.collision_points.push(right);
        self.collision_points.push(top);
        self.collision_points.push(bottom);
        proof {
            assert(self.collision_points@ =~= shrunk_points(self.half_size, new_half_height));
        }
    }
}

/// Law: shrinking the probe pattern and then resetting it restores the
/// original four-probe plus pattern exactly, value for value.
pub proof fn lemma_shrink_reset_round_trip(
    points: Seq<CollisionPoint>,
    half: Vec2,
    new_half_height: i64,
)
    requires
        points == plus_points(half),
    ensures
        ({
            let (p1, h1) = shrink_transition(points, half, new_half_height);
            let (p2, h2) = reset_transition(p1, h1);
            p2 == points && h2 == half
        }),
{
}

/// A static platform collider: half extents, anchored at the owning entity's
/// position.
#[derive(Clone, Copy, Debug, PartialEq, Eq, Structural)]
pub struct PlatformCuboid {
    pub half_width: i64,
    pub half_height: i64,
}

impl PlatformCuboid {
    pub open spec fn wf(self) -> bool {
        0 <= self.half_width <= WORLD_LIMIT && 0 <= self.half_height <= WORLD_LIMIT
    }

    /// One tile's worth of collider.
    pub fn new() -> (r: PlatformCuboid)
        ensures
            r.half_width == TILE_WIDTH / 2,
            r.half_height == TILE_HEIGHT / 2,
            r.wf(),
    {
        PlatformCuboid { half_width: TILE_WIDTH / 2, half_height: TILE_HEIGHT / 2 }
    }

    /// The half extents as a vector.
    pub fn to_vec2(&self) -> (r: Vec2)
        ensures
            r == (Vec2 { x: self.half_width, y: self.half_height }),
    {
        Vec2 { x: self.half_width, y: self.half_height }
    }

    /// A collider for a tile of the given full size.
    pub fn create(tile_size_x: i64, tile_size_y: i64) -> (r: PlatformCuboid)
        requires
            0 <= tile_size_x <= 2 * WORLD_LIMIT,
            0 <= tile_size_y <= 2 * WORLD_LIMIT,
        ensures
            r.half_width == tile_size_x / 2,
            r.half_height == tile_size_y / 2,
            r.wf(),
    {
        PlatformCuboid { half_width: tile_size_x / 2, half_height: tile_size_y / 2 }
    }

    /// The point lies within `delta` of the cuboid's x-range centered at `pos`.
    pub open spec fn spec_within_x(self, point: Vec2, pos: Vec2, delta: int) -> bool {
        pos.x - self.half_width - delta <= point.x <= pos.x + self.half_width + delta
    }

    /// The point lies within `delta` of the cuboid's y-range centered at `pos`.
    pub open spec fn spec_within_y(self, point: Vec2, pos: Vec2, delta: int) -> bool {
        pos.y - self.half_height - delta <= point.y <= pos.y + self.half_height + delta
    }

    /// The point lies inside the cuboid centered at `pos`.
    pub fn intersects_point(&self, point: &Vec2, pos: &Vec2) -> (r: bool)
        requires
            self.wf(),
            point.in_space(),
            pos.in_space(),
        ensures
            r == (self.spec_within_x(*point, *pos, 0) && self.spec_within_y(*point, *pos, 0)),
    {
        self.intersect_x(point, pos) && self.intersect_y(point, pos)
    }

    pub fn intersect_x(&self, point: &Vec2, pos: &Vec2) -> (r: bool)
        requires
            self.wf(),
            point.in_space(),
            pos.in_space(),
        ensures
            r == self.spec_within_x(*point, *pos, 0),
    {
        self.within_range_x(point, pos, 0)
    }

    pub fn intersect_y(&self, point: &Vec2, pos: &Vec2) -> (r: bool)
        requires
            self.wf(),
            point.in_space(),
            pos.in_space(),
        ensures
            r == self.spec_within_y(*point, *pos, 0),
    {
        self.within_range_y(point, pos, 0)
    }

    pub fn within_range_x(&self, point: &Vec2, pos: &Vec2, delta: i64) -> (r: bool)
        requires
            self.wf(),
            point.in_space(),
            pos.in_space(),
            0 <= delta <= COORD_LIMIT,
        ensures
            r == self.spec_within_x(*point, *pos, delta as int),
    {
        point.x <= pos.x + self.half_width + delta && point.x >= pos.x - self.half_width - delta
    }

    pub fn within_range_y(&self, point: &Vec2, pos: &Vec2, delta: i64) -> (r: bool)
        requires
            self.wf(),
            point.in_space(),
            pos.in_space(),
            0 <= delta <= COORD_LIMIT,
        ensures
            r == self.spec_within_y(*point, *pos, delta as int),
    {
        point.y <= pos.y + self.half_height + delta && point.y >= pos.y - self.half_height - delta
    }
}

} // verus!
