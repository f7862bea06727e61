//! Kinds of entities in the game world.
use vstd::prelude::*;

verus! {

#[derive(Clone, Copy, Debug, PartialEq, Eq, Structural)]
pub enum AsteroidType {
    Small,
    Medium,
    Large,
}

#[derive(Clone, Copy, Debug, PartialEq, Eq, Structural)]
pub struct Asteroid {
    pub asteroid_type: AsteroidType,
}

pub open spec fn asteroid_side(t: AsteroidType) -> u32 {
    match t {
        AsteroidType::Small => 20,
        AsteroidType::Medium => 40,
        AsteroidType::Large => 70,
    }
}

impl Asteroid {
    /// Side of the asteroid's square sprite, in pixels.
    pub fn size(&self) -> (r: u32)
        ensures
            r == asteroid_side(self.asteroid_type),
    {
        match self.asteroid_type {
            AsteroidType::Small => 20,
            AsteroidType::Medium => 40,
            AsteroidType::Large => 70,
        }
    }

    /// Whether destroying the asteroid breaks it into smaller ones.
    pub fn splits(&self) -> (r: bool)
        ensures
            r == (self.asteroid_type != AsteroidType::Small),
    {
        !matches!(self.asteroid_type, AsteroidType::Small)
    }
}

#[derive(Clone, Copy, Debug, PartialEq, Eq, Structural)]
pub enum EntityType {
    Spaceship,
    Projectile,
    ChargedShot,
    Asteroid(Asteroid),
}

impl EntityType {
    pub fn is_asteroid(&self) -> (r: bool)
        ensures
            r == (*self is Asteroid),
    {
        matches!(self, EntityType::Asteroid(_))
    }
}

#[derive(Clone, Copy, Debug, PartialEq, Eq, Structural)]
pub enum ProjectileSource {
    FromSpaceship,
}

} // verus!
