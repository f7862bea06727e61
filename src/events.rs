//! Messages that the game's systems pass to one another.
use vstd::prelude::*;
use crate::common::EntityType;

verus! {

/// Asks for an entity to leave the world; `entity` is its engine id.
#[derive(Clone, Copy, Debug, PartialEq, Eq, Structural)]
pub struct DespawnEntity {
    pub entity: u64,
    pub entity_type: EntityType,
}

#[derive(Clone, Copy, Debug, PartialEq, Eq, Structural)]
pub enum AddScoreType {
    EnemyDestroyed(EntityType),
}

#[derive(Clone, Copy, Debug, PartialEq, Eq, Structural)]
pub struct AddScore(pub AddScoreType);

/// The ship with this engine id ran into an enemy.
#[derive(Clone, Copy, Debug, PartialEq, Eq, Structural)]
pub struct SpaceshipIsHit(pub u64);

} // verus!
