//! Plane vectors with integer coordinates, and the world-coordinate bounds
//! that every simulated quantity respects.

use vstd::prelude::*;

verus! {

/// Side length of one tile of the level grid, in world units.
pub const TILE_WIDTH: i64 = 128;

/// Height of one tile of the level grid, in world units.
pub const TILE_HEIGHT: i64 = 128;

/// Bound on every live world coordinate, velocity component, and half-extent.
/// Kept low enough that the spatial index's internal bookkeeping stays within
/// `i64`: an entry's box corners reach `2 * WORLD_LIMIT`, a tree node's
/// envelope spans up to `4 * WORLD_LIMIT` per axis, one envelope overlap area
/// thus reaches `16 * WORLD_LIMIT * WORLD_LIMIT`, and the insertion heuristic
/// accumulates such areas over up to five sibling nodes — so
/// `80 * WORLD_LIMIT * WORLD_LIMIT` must not exceed `i64::MAX`.
pub const WORLD_LIMIT: i64 = 300_000_000;

/// Loose bound for values derived from a few world-bounded quantities
/// (projected positions, corrected positions); sums of a handful of such
/// values stay far from `i64` overflow.
pub const COORD_LIMIT: i64 = 1_000_000_000_000;

/// A 2D vector of whole world units.
#[derive(Clone, Copy, Debug, PartialEq, Eq, Structural)]
pub struct Vec2 {
    pub x: i64,
    pub y: i64,
}

impl Vec2 {
    /// Both components lie within the primary world bound.
    pub open spec fn in_world(self) -> bool {
        -WORLD_LIMIT <= self.x <= WORLD_LIMIT && -WORLD_LIMIT <= self.y <= WORLD_LIMIT
    }

    /// Both components lie within the loose derived-coordinate bound.
    pub open spec fn in_space(self) -> bool {
        -COORD_LIMIT <= self.x <= COORD_LIMIT && -COORD_LIMIT <= self.y <= COORD_LIMIT
    }

    /// Both components lie within the given bound.
    pub open spec fn within(self, bound: int) -> bool {
        -bound <= self.x <= bound && -bound <= self.y <= bound
    }

    pub fn new(x: i64, y: i64) -> (r: Vec2)
        ensures
            r == (Vec2 { x, y }),
    {
        Vec2 { x, y }
    }

    /// Componentwise sum.
    pub fn add(self, other: Vec2) -> (r: Vec2)
        requires
            self.in_space(),
            other.in_space(),
        ensures
            r.x == self.x + other.x,
            r.y == self.y + other.y,
    {
        Vec2 { x: self.x + other.x, y: self.y + other.y }
    }
}

impl Default for Vec2 {
    /// The origin.
    fn default() -> (r: Self)
        ensures
            r == (Vec2 { x: 0i64, y: 0i64 }),
    {
        Vec2 { x: 0, y: 0 }
    }
}

} // verus!
