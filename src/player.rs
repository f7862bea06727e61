//! The player's ship: its health and the spell of invulnerability after a
//! hit.
use vstd::prelude::*;
use crate::common::EntityType;
use crate::consts::{PLAYER_INVULNERABILITY_ANIMATION_TIME, PLAYER_INVULNERABILITY_TIME, PLAYER_MAX_HEALTH};
use crate::events::{DespawnEntity, SpaceshipIsHit};
use crate::timer::{Timer, TimerMode};

verus! {

/// Hit points left.
#[derive(Clone, Copy, Debug, PartialEq, Eq, Structural)]
pub struct SpaceshipHealth(pub u32);

/// What a hit does to the ship.
#[derive(Clone, Copy, Debug, PartialEq, Eq, Structural)]
pub enum HitResponse {
    /// The ship had no health left to lose.
    Ignored,
    /// The ship lost a point and turns invulnerable for a while.
    Invulnerable,
    /// The ship lost its last point and is removed.
    Destroyed(DespawnEntity),
}

impl SpaceshipHealth {
    pub fn new() -> (r: SpaceshipHealth)
        ensures
            r.0 == PLAYER_MAX_HEALTH,
    {
        SpaceshipHealth(PLAYER_MAX_HEALTH)
    }

    /// Takes one hit: a point is lost if any is left; the ship is destroyed
    /// when that was the last one and made invulnerable otherwise.
    pub fn take_hit(&mut self, hit: SpaceshipIsHit) -> (r: HitResponse)
        ensures
            old(self).0 == 0 ==> *final(self) == *old(self) && r == HitResponse::Ignored,
            old(self).0 > 0 ==> final(self).0 == old(self).0 - 1,
            old(self).0 == 1 ==> r == HitResponse::Destroyed(
                DespawnEntity { entity: hit.0, entity_type: EntityType::Spaceship },
            ),
            old(self).0 > 1 ==> r == HitResponse::Invulnerable,
    {
        if self.0 > 0 {
            self.0 = self.0 - 1;
            if self.0 == 0 {
                HitResponse::Destroyed(DespawnEntity { entity: hit.0, entity_type: EntityType::Spaceship })
            } else {
                HitResponse::Invulnerable
            }
        } else {
            HitResponse::Ignored
        }
    }

    /// Whether the health bar shows slot `slot`, counted from zero, as full.
    pub fn is_point_full(&self, slot: u32) -> (r: bool)
        ensures
            r == (slot < self.0),
    {
        slot < self.0
    }
}

/// Time left of the ship's invulnerability, in nanoseconds, and the timer
/// of its blinking.
#[derive(Clone, Copy, Debug)]
pub struct Invulnerability {
    pub length: u64,
    pub animation_timer: Timer,
}

/// What one frame of invulnerability asks of the ship's sprite.
#[derive(Clone, Copy, Debug, PartialEq, Eq, Structural)]
pub struct InvulnerabilityTick {
    /// Toggle the sprite between faint and opaque.
    pub blink: bool,
    /// Invulnerability is over: remove it and make the sprite opaque.
    pub expired: bool,
}

impl Invulnerability {
    pub open spec fn wf(self) -> bool {
        &&& self.animation_timer.wf()
        &&& self.animation_timer.mode == TimerMode::Repeating
    }

    pub fn new() -> (r: Invulnerability)
        ensures
            r.wf(),
            r.length == PLAYER_INVULNERABILITY_TIME,
            r.animation_timer == (Timer {
                duration: PLAYER_INVULNERABILITY_ANIMATION_TIME,
                elapsed: 0,
                mode: TimerMode::Repeating,
                finished: false,
            }),
    {
        Invulnerability {
            length: PLAYER_INVULNERABILITY_TIME,
            animation_timer: Timer::new(PLAYER_INVULNERABILITY_ANIMATION_TIME, TimerMode::Repeating),
        }
    }

    /// Runs one frame of `delta` nanoseconds: the time left shrinks, down
    /// to zero, and the blinking timer advances.
    pub fn step(&mut self, delta: u64) -> (r: InvulnerabilityTick)
        requires
            old(self).wf(),
        ensures
            final(self).wf(),
            final(self).length == if delta >= old(self).length {
                0
            } else {
                old(self).length - delta
            },
            final(self).animation_timer == old(self).animation_timer.ticked(delta),
            r.blink == final(self).animation_timer.finished,
            r.expired == (delta >= old(self).length),
    {
        if delta >= self.length {
            self.length = 0;
        } else {
            self.length = self.length - delta;
        }
        self.animation_timer.tick(delta);
        InvulnerabilityTick { blink: self.animation_timer.finished(), expired: self.length == 0 }
    }
}

} // verus!
