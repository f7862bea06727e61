//! Tuning values of the game. Times are in nanoseconds.
use vstd::prelude::*;

verus! {

pub const PLAYER_MAX_HEALTH: u32 = 3;

/// Change of the ship's sideways velocity per frame while a move key is
/// held, in millionths of a pixel per second.
pub const PLAYER_MOVEMENT_SPEED_MICROS: i64 = 5_000_000;

/// Coefficient of the dash curve, in pixels per second cubed.
pub const PLAYER_DASH_SPEED: u64 = 300;

pub const PLAYER_DASH_TIME: u64 = 500_000_000;

pub const PLAYER_CHARGE_SHOT_CHARGING_TIME: u64 = 200_000_000;

pub const PLAYER_FIRING_COOLDOWN: u64 = 100_000_000;

pub const PLAYER_CHARGE_SHOT_COOLDOWN: u64 = 1_000_000_000;

pub const PLAYER_DASH_COOLDOWN: u64 = 300_000_000;

pub const PLAYER_INVULNERABILITY_TIME: u64 = 3_000_000_000;

pub const PLAYER_INVULNERABILITY_ANIMATION_TIME: u64 = 200_000_000;

pub const SCORE_ADD_ASTEROID: u32 = 1;

pub const STAGE_INIT_COOLDOWN: u64 = 3_000_000_000;

pub const STAGE_COOLDOWN: u64 = 5_000_000_000;

pub const STAGE_LENGTH: u64 = 30_000_000_000;

/// Enemies each spawner of a normal stage sends per wave number.
pub const SPAWNS_PER_WAVE: u32 = 10;

/// The last wave whose spawn count still fits in a `u32`.
pub const MAX_WAVE: u32 = 429_496_729;

} // verus!
