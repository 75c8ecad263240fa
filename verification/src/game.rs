//! Gameplay-facing components that ride along with the physics core: contact
//! events emitted by the actor-actor pass and the small tagged states that
//! gameplay collaborators read and write.

use vstd::prelude::*;

use crate::level::Tile;
use crate::physics::Position;

verus! {

/// Contact reported by the actor-actor broad phase: the other entity's
/// identifier and the damage to deal.
#[derive(Clone, Copy, Debug, PartialEq, Eq, Structural)]
pub enum CollisionEvent {
    EnemyCollision(u32, u8),
}

/// Marks the player-controlled actor.
#[derive(Clone, Copy, Debug, PartialEq, Eq, Structural, Default)]
pub struct Player(pub bool);

/// Marks an entity restored to its spawn state on level reset.
#[derive(Clone, Copy, Debug, PartialEq, Eq, Structural, Default)]
pub struct Resettable;

/// Remaining hit points.
#[derive(Clone, Copy, Debug, PartialEq, Eq, Structural, Default)]
pub struct Health(pub u8);

/// Steps of invincibility left after taking a hit.
#[derive(Clone, Copy, Debug, PartialEq, Eq, Structural, Default)]
pub struct Invincibility(pub u32);

/// A serializable description of a placeable game object.
#[derive(Clone, Copy, Debug, PartialEq, Eq, Structural)]
pub enum GameObject {
    StaticTile(Tile),
    Player(Position, Player),
}

} // verus!
