//! Game rules of a shoot-'em-up: player ship health, dashing and shooting,
//! asteroid waves, hit resolution and scoring.
pub mod common;
pub mod consts;
pub mod dash;
pub mod enemy;
pub mod events;
pub mod hits;
pub mod player;
pub mod shoot;
pub mod split;
pub mod state;
pub mod stats;
pub mod timer;
