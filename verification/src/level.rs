//! Level data: the static tile set that populates the spatial index at load
//! time.  Loading from disk and entity spawning are the level-loading
//! collaborator's job; here the tiles are plain data with the conversion
//! into spatial-index entries.

use vstd::prelude::*;

use crate::physics::PlatformCuboid;
use crate::spatial::RTreeEntity;
use crate::vec2::{Vec2, TILE_HEIGHT, TILE_WIDTH, WORLD_LIMIT};

verus! {

/// One static tile: position of its center, sprite number, and full size.
#[derive(Clone, Copy, Debug, PartialEq, Eq, Structural)]
pub struct Tile {
    pub pos: Vec2,
    pub sprite: usize,
    pub size: Vec2,
}

impl Default for Tile {
    /// A grid-sized tile at the origin.
    fn default() -> (r: Self)
        ensures
            r.pos == (Vec2 { x: 0i64, y: 0i64 }),
            r.sprite == 1,
            r.size == (Vec2 { x: TILE_WIDTH, y: TILE_HEIGHT }),
    {
        Tile { pos: Vec2 { x: 0, y: 0 }, sprite: 1, size: Vec2 { x: TILE_WIDTH, y: TILE_HEIGHT } }
    }
}

impl Tile {
    /// Position and size within the world bound, size non-negative.
    pub open spec fn wf(self) -> bool {
        &&& self.pos.in_world()
        &&& 0 <= self.size.x <= 2 * WORLD_LIMIT
        &&& 0 <= self.size.y <= 2 * WORLD_LIMIT
    }

    /// The spatial-index entry for this tile, under the given entity
    /// identifier; the tile's half extents become the entry's box.
    pub fn to_entry(&self, entity: u32) -> (r: RTreeEntity)
        requires
            self.wf(),
        ensures
            r.pos == self.pos,
            r.half_size == (Vec2 { x: (self.size.x / 2) as i64, y: (self.size.y / 2) as i64 }),
            r.entity == entity,
            r.wf(),
    {
        let cuboid = PlatformCuboid::create(self.size.x, self.size.y);
        RTreeEntity { pos: self.pos, half_size: cuboid.to_vec2(), entity }
    }
}

/// A level: its static tiles.
#[derive(Clone, Debug, Default)]
pub struct Level {
    pub tiles: Vec<Tile>,
}

impl Level {
    /// Every tile within bounds.
    pub open spec fn wf(self) -> bool {
        forall|i: int| 0 <= i < self.tiles@.len() ==> (#[trigger] self.tiles@[i]).wf()
    }

    /// The spatial-index entries of all tiles, numbered from `first_entity`
    /// upward in tile order.
    pub fn to_entries(&self, first_entity: u32) -> (r: Vec<RTreeEntity>)
        requires
            self.wf(),
            first_entity + self.tiles@.len() <= u32::MAX,
        ensures
            r@.len() == self.tiles@.len(),
            forall|i: int|
                0 <= i < r@.len() ==> (#[trigger] r@[i]).pos == self.tiles@[i].pos && r@[i].entity
                    == first_entity + i && r@[i].half_size == (Vec2 {
                    x: (self.tiles@[i].size.x / 2) as i64,
                    y: (self.tiles@[i].size.y / 2) as i64,
                }) && r@[i].wf(),
    {
        let mut r: Vec<RTreeEntity> = Vec::new();
        let mut i: usize = 0;
        while i < self.tiles.len()
            invariant
                i <= self.tiles@.len(),
                self.wf(),
                first_entity + self.tiles@.len() <= u32::MAX,
                r@.len() == i,
                forall|k: int|
                    0 <= k < i as int ==> (#[trigger] r@[k]).pos == self.tiles@[k].pos
                        && r@[k].entity == first_entity + k && r@[k].half_size == (Vec2 {
                        x: (self.tiles@[k].size.x / 2) as i64,
                        y: (self.tiles@[k].size.y / 2) as i64,
                    }) && r@[k].wf(),
            decreases self.tiles@.len() - i,
        {
            let t = &self.tiles[i];
            let e = t.to_entry(first_entity + (i as u32));
            r.push(e);
            i += 1;
        }
        r
    }
}

} // verus!
