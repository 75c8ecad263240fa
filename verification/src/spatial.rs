//! Spatial index over axis-aligned bounding boxes, backed by an R-tree.
//!
//! Entries are rectangles derived from an entity's position and half-size.
//! The index is rebuilt from scratch once per pass that needs it; queries
//! return every entry whose box intersects the query box, in no particular
//! order.

use vstd::prelude::*;

use vstd::multiset::Multiset;

use crate::vec2::{Vec2, WORLD_LIMIT};

verus! {

/// One spatial-index entry: an entity's position, half extents, and identity.
#[derive(Clone, Copy, Debug, PartialEq, Eq, Structural)]
pub struct RTreeEntity {
    pub pos: Vec2,
    pub half_size: Vec2,
    pub entity: u32,
}

impl RTreeEntity {
    /// Center within the world bound, half extents non-negative and bounded.
    pub open spec fn wf(self) -> bool {
        &&& self.pos.in_world()
        &&& 0 <= self.half_size.x <= WORLD_LIMIT
        &&& 0 <= self.half_size.y <= WORLD_LIMIT
    }

    pub fn new(pos: Vec2, half_size: Vec2, entity: u32) -> (r: RTreeEntity)
        ensures
            r.pos == pos,
            r.half_size == half_size,
            r.entity == entity,
    {
        RTreeEntity { pos, half_size, entity }
    }
}

/// The entry's box `pos ± half_size` intersects the closed query box
/// `[min_x, max_x] × [min_y, max_y]`.
pub open spec fn query_hit(e: RTreeEntity, min_x: int, min_y: int, max_x: int, max_y: int) -> bool {
    &&& e.pos.x - e.half_size.x <= max_x
    &&& min_x <= e.pos.x + e.half_size.x
    &&& e.pos.y - e.half_size.y <= max_y
    &&& min_y <= e.pos.y + e.half_size.y
}

/// A set of axis-aligned boxes supporting logarithmic-time intersection
/// queries.  The tree itself is opaque; `index_entries` names its contents.
#[verifier::external_body]
pub struct SpatialIndex {
    tree: rstar::RTree<
        rstar::primitives::GeomWithData<rstar::primitives::Rectangle<[i64; 2]>, RTreeEntity>,
    >,
}

/// The entries currently stored in the index, as a multiset (queries return
/// them in no particular order).
pub uninterp spec fn index_entries(index: SpatialIndex) -> Multiset<RTreeEntity>;

/// Every entry stored in the index is well-formed.
pub open spec fn index_wf(index: SpatialIndex) -> bool {
    forall|e: RTreeEntity| #[trigger] index_entries(index).contains(e) ==> e.wf()
}

/// Relies on `rstar::RTree::new`: a freshly created tree holds no elements.
#[verifier::external_body]
fn rtree_empty() -> (r: SpatialIndex)
    ensures
        index_entries(r) == Multiset::<RTreeEntity>::empty(),
{
    SpatialIndex { tree: rstar::RTree::new() }
}

/// Relies on `rstar::RTree::insert`: inserts exactly the given element, whose
/// envelope is the rectangle with the given corners, and keeps all others.
#[verifier::external_body]
fn rtree_insert(index: &mut SpatialIndex, min_x: i64, min_y: i64, max_x: i64, max_y: i64, e: RTreeEntity)
    requires
        min_x == e.pos.x - e.half_size.x,
        min_y == e.pos.y - e.half_size.y,
        max_x == e.pos.x + e.half_size.x,
        max_y == e.pos.y + e.half_size.y,
        e.wf(),
    ensures
        index_entries(*final(index)) == index_entries(*old(index)).insert(e),
{
    index.tree.insert(rstar::primitives::GeomWithData::new(
        rstar::primitives::Rectangle::from_corners([min_x, min_y], [max_x, max_y]),
        e,
    ));
}

/// Relies on `rstar::RTree::locate_in_envelope_intersecting`: yields exactly
/// the stored elements whose envelope intersects the query box, bounds
/// included (`AABB::intersects` compares with `<=` on both sides).
#[verifier::external_body]
fn rtree_query(index: &SpatialIndex, min_x: i64, min_y: i64, max_x: i64, max_y: i64) -> (r: Vec<
    RTreeEntity,
>)
    requires
        min_x <= max_x,
        min_y <= max_y,
    ensures
        r@.to_multiset() == index_entries(*index).filter(
            |e: RTreeEntity| query_hit(e, min_x as int, min_y as int, max_x as int, max_y as int),
        ),
{
    let envelope = rstar::AABB::from_corners([min_x, min_y], [max_x, max_y]);
    let mut out = Vec::new();
    for g in index.tree.locate_in_envelope_intersecting(envelope) {
        out.push(g.data);
    }
    out
}

impl SpatialIndex {
    /// An index holding no entries.
    pub fn new() -> (r: SpatialIndex)
        ensures
            index_entries(r) == Multiset::<RTreeEntity>::empty(),
            index_wf(r),
    {
        rtree_empty()
    }

    /// Adds one entry; its box is its position plus/minus its half extents.
    pub fn insert(&mut self, e: RTreeEntity)
        requires
            e.wf(),
        ensures
            index_entries(*final(self)) == index_entries(*old(self)).insert(e),
            index_wf(*old(self)) ==> index_wf(*final(self)),
    {
        let min_x = e.pos.x - e.half_size.x;
        let min_y = e.pos.y - e.half_size.y;
        let max_x = e.pos.x + e.half_size.x;
        let max_y = e.pos.y + e.half_size.y;
        rtree_insert(self, min_x, min_y, max_x, max_y, e);
        proof {
            if index_wf(*old(self)) {
                assert forall|v: RTreeEntity| #[trigger]
                    index_entries(*self).contains(v) implies v.wf() by {
                    if v != e {
                        assert(Multiset::<RTreeEntity>::singleton(e).count(v) == 0);
                        assert(index_entries(*old(self)).contains(v));
                    }
                }
            }
        }
    }

    /// All stored entries whose box intersects the closed query box.
    pub fn query(&self, min_x: i64, min_y: i64, max_x: i64, max_y: i64) -> (r: Vec<RTreeEntity>)
        requires
            min_x <= max_x,
            min_y <= max_y,
        ensures
            r@.to_multiset() == index_entries(*self).filter(
                |e: RTreeEntity| query_hit(e, min_x as int, min_y as int, max_x as int, max_y as int),
            ),
            forall|i: int|
                0 <= i < r@.len() ==> index_entries(*self).contains(#[trigger] r@[i]) && query_hit(
                    r@[i],
                    min_x as int,
                    min_y as int,
                    max_x as int,
                    max_y as int,
                ),
            forall|e: RTreeEntity|
                index_entries(*self).contains(e) && query_hit(
                    e,
                    min_x as int,
                    min_y as int,
                    max_x as int,
                    max_y as int,
                ) ==> r@.contains(e),
    {
        let r = rtree_query(self, min_x, min_y, max_x, max_y);
        proof {
            broadcast use vstd::seq_lib::group_to_multiset_ensures;

            let f = |e: RTreeEntity|
                query_hit(e, min_x as int, min_y as int, max_x as int, max_y as int);
            assert forall|i: int| 0 <= i < r@.len() implies index_entries(*self).contains(
                #[trigger] r@[i],
            ) && query_hit(r@[i], min_x as int, min_y as int, max_x as int, max_y as int) by {
                assert(r@.contains(r@[i]));
                assert(r@.to_multiset().count(r@[i]) > 0);
                assert(index_entries(*self).filter(f).count(r@[i]) > 0);
            }
            assert forall|e: RTreeEntity|
                index_entries(*self).contains(e) && query_hit(
                    e,
                    min_x as int,
                    min_y as int,
                    max_x as int,
                    max_y as int,
                ) implies r@.contains(e) by {
                assert(index_entries(*self).filter(f).count(e) > 0);
                assert(r@.to_multiset().count(e) > 0);
            }
        }
        r
    }
}

/// Rebuilds the index from the current collider set; the result holds
/// exactly the given entries.
pub fn build_index(entries: &Vec<RTreeEntity>) -> (r: SpatialIndex)
    requires
        forall|i: int| 0 <= i < entries@.len() ==> (#[trigger] entries@[i]).wf(),
    ensures
        index_entries(r) == entries@.to_multiset(),
        index_wf(r),
{
    let mut r = SpatialIndex::new();
    proof {
        broadcast use vstd::seq_lib::group_to_multiset_ensures;

        assert(entries@.take(0).to_multiset() =~= Multiset::<RTreeEntity>::empty());
    }
    let mut i: usize = 0;
    while i < entries.len()
        invariant
            i <= entries@.len(),
            forall|k: int| 0 <= k < entries@.len() ==> (#[trigger] entries@[k]).wf(),
            index_entries(r) == entries@.take(i as int).to_multiset(),
            index_wf(r),
        decreases entries@.len() - i,
    {
        proof {
            broadcast use vstd::seq_lib::group_to_multiset_ensures;

            assert(entries@.take(i + 1) =~= entries@.take(i as int).push(entries@[i as int]));
        }
        r.insert(entries[i]);
        i += 1;
    }
    proof {
        assert(entries@.take(entries@.len() as int) =~= entries@);
    }
    r
}

} // verus!
