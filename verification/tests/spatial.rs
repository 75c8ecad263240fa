//! Spatial-index behavior against the real R-tree: queries must return
//! exactly the overlapping entries, bounds included, in any order.

use pizzatopia::spatial::{build_index, RTreeEntity, SpatialIndex};
use pizzatopia::vec2::Vec2;

fn entry(x: i64, y: i64, hx: i64, hy: i64, id: u32) -> RTreeEntity {
    RTreeEntity::new(Vec2 { x, y }, Vec2 { x: hx, y: hy }, id)
}

fn ids(mut v: Vec<RTreeEntity>) -> Vec<u32> {
    let mut out: Vec<u32> = v.drain(..).map(|e| e.entity).collect();
    out.sort();
    out
}

#[test]
fn query_returns_exactly_the_overlapping_entries() {
    let entries = vec![
        entry(0, 0, 4, 4, 1),
        entry(20, 0, 4, 4, 2),
        entry(0, 20, 4, 4, 3),
        entry(100, 100, 4, 4, 4),
    ];
    let index = build_index(&entries);
    // A box around the origin sees only entry 1.
    assert_eq!(ids(index.query(-5, -5, 5, 5)), vec![1]);
    // A wide box sees 1 and 2 but not the far ones.
    assert_eq!(ids(index.query(-5, -5, 30, 5)), vec![1, 2]);
    // A huge box sees everything.
    assert_eq!(ids(index.query(-200, -200, 200, 200)), vec![1, 2, 3, 4]);
    // An empty region sees nothing.
    assert_eq!(ids(index.query(40, 40, 60, 60)), Vec::<u32>::new());
}

#[test]
fn query_bounds_are_closed() {
    let entries = vec![entry(10, 0, 4, 4, 1)];
    let index = build_index(&entries);
    // The entry's box spans x in [6, 14]; a query ending exactly at 6 touches it.
    assert_eq!(ids(index.query(0, 0, 6, 0)), vec![1]);
    // One short of touching misses.
    assert_eq!(ids(index.query(0, 0, 5, 0)), Vec::<u32>::new());
}

#[test]
fn incremental_insert_matches_bulk_build() {
    let mut index = SpatialIndex::new();
    assert_eq!(ids(index.query(-100, -100, 100, 100)), Vec::<u32>::new());
    index.insert(entry(0, 0, 2, 2, 7));
    index.insert(entry(10, 10, 2, 2, 8));
    assert_eq!(ids(index.query(-100, -100, 100, 100)), vec![7, 8]);
    assert_eq!(ids(index.query(9, 9, 11, 11)), vec![8]);
}

#[test]
fn duplicate_entries_are_both_returned() {
    let entries = vec![entry(0, 0, 4, 4, 5), entry(0, 0, 4, 4, 5)];
    let index = build_index(&entries);
    let found = index.query(-1, -1, 1, 1);
    assert_eq!(found.len(), 2);
    assert!(found.iter().all(|e| e.entity == 5));
}

#[test]
fn rtree_entity_new_stores_fields() {
    let e = entry(1, 2, 3, 4, 9);
    assert_eq!(e.pos, Vec2 { x: 1, y: 2 });
    assert_eq!(e.half_size, Vec2 { x: 3, y: 4 });
    assert_eq!(e.entity, 9);
}
