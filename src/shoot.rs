//! The ship's gun: a tap fires a projectile, holding the key long enough
//! charges a shot that sweeps the whole column above the ship.
use vstd::prelude::*;
use crate::common::EntityType;
use crate::consts::{PLAYER_CHARGE_SHOT_CHARGING_TIME, PLAYER_CHARGE_SHOT_COOLDOWN, PLAYER_FIRING_COOLDOWN};
use crate::timer::{once_timer, Timer, TimerMode};

verus! {

#[derive(Clone, Copy, Debug)]
pub enum ShootingState {
    Idle,
    Charging(Timer),
    Shooting(EntityType),
    Cooldown(Timer),
}

impl ShootingState {
    /// A shot is fired in the frame it is asked for, so no frame ends in
    /// the shooting state.
    pub open spec fn wf(self) -> bool {
        match self {
            ShootingState::Idle => true,
            ShootingState::Charging(t) => t.wf() && t.mode == TimerMode::Once,
            ShootingState::Shooting(_) => false,
            ShootingState::Cooldown(t) => t.wf() && t.mode == TimerMode::Once,
        }
    }

    pub fn is_idle(&self) -> (r: bool)
        ensures
            r == (*self is Idle),
    {
        matches!(self, ShootingState::Idle)
    }

    pub fn is_charging(&self) -> (r: bool)
        ensures
            r == (*self is Charging),
    {
        matches!(self, ShootingState::Charging(_))
    }

    pub fn is_charging_finished(&self) -> (r: bool)
        ensures
            r == (*self matches ShootingState::Charging(t) && t.finished),
    {
        match self {
            ShootingState::Charging(timer) => timer.finished(),
            _ => false,
        }
    }
}

/// The shoot key in one frame.
#[derive(Clone, Copy, Debug, PartialEq, Eq, Structural)]
pub struct ShootInput {
    pub just_pressed: bool,
    pub just_released: bool,
}

/// The state once the frame's key events are taken in: a press when idle
/// starts charging; a release fires a charged shot if charging had run its
/// time, else a plain projectile.
pub open spec fn with_shoot_input(state: ShootingState, input: ShootInput) -> ShootingState {
    let pressed = if state is Idle && input.just_pressed {
        ShootingState::Charging(once_timer(PLAYER_CHARGE_SHOT_CHARGING_TIME))
    } else {
        state
    };
    if input.just_released {
        if pressed matches ShootingState::Charging(t) && t.finished {
            ShootingState::Shooting(EntityType::ChargedShot)
        } else {
            ShootingState::Shooting(EntityType::Projectile)
        }
    } else {
        pressed
    }
}

/// The next state and what is fired in one frame of `delta` nanoseconds.
pub open spec fn shoot_step(state: ShootingState, input: ShootInput, delta: u64) -> (
    ShootingState,
    Option<EntityType>,
) {
    match with_shoot_input(state, input) {
        ShootingState::Idle => (ShootingState::Idle, None),
        ShootingState::Charging(t) => (ShootingState::Charging(t.ticked(delta)), None),
        ShootingState::Shooting(EntityType::Projectile) => (
            ShootingState::Cooldown(once_timer(PLAYER_FIRING_COOLDOWN)),
            Some(EntityType::Projectile),
        ),
        ShootingState::Shooting(EntityType::ChargedShot) => (
            ShootingState::Cooldown(once_timer(PLAYER_CHARGE_SHOT_COOLDOWN)),
            Some(EntityType::ChargedShot),
        ),
        ShootingState::Shooting(other) => (ShootingState::Shooting(other), None),
        ShootingState::Cooldown(t) => if t.ticked(delta).finished {
            (ShootingState::Idle, None)
        } else {
            (ShootingState::Cooldown(t.ticked(delta)), None)
        },
    }
}

/// The ship's gun state.
#[derive(Clone, Copy, Debug)]
pub struct SpaceshipShoot {
    pub state: ShootingState,
}

impl SpaceshipShoot {
    pub fn new() -> (r: SpaceshipShoot)
        ensures
            r.state is Idle,
    {
        SpaceshipShoot { state: ShootingState::Idle }
    }

    /// Runs one frame of `delta` nanoseconds and returns what the ship
    /// fires in it, if anything.
    pub fn step(&mut self, input: ShootInput, delta: u64) -> (r: Option<EntityType>)
        requires
            old(self).state.wf(),
        ensures
            final(self).state.wf(),
            final(self).state == shoot_step(old(self).state, input, delta).0,
            r == shoot_step(old(self).state, input, delta).1,
    {
        let mut state = self.state;
        if state.is_idle() && input.just_pressed {
            state = ShootingState::Charging(Timer::new(PLAYER_CHARGE_SHOT_CHARGING_TIME, TimerMode::Once));
        }
        if input.just_released {
            if state.is_charging_finished() {
                state = ShootingState::Shooting(EntityType::ChargedShot);
            } else {
                state = ShootingState::Shooting(EntityType::Projectile);
            }
        }
        let mut fired: Option<EntityType> = None;
        match state {
            ShootingState::Idle => {},
            ShootingState::Charging(timer) => {
                let mut t = timer;
                t.tick(delta);
                state = ShootingState::Charging(t);
            },
            ShootingState::Shooting(entity_type) => match entity_type {
                EntityType::Projectile => {
                    fired = Some(EntityType::Projectile);
                    state = ShootingState::Cooldown(Timer::new(PLAYER_FIRING_COOLDOWN, TimerMode::Once));
                },
                EntityType::ChargedShot => {
                    fired = Some(EntityType::ChargedShot);
                    state = ShootingState::Cooldown(
                        Timer::new(PLAYER_CHARGE_SHOT_COOLDOWN, TimerMode::Once),
                    );
                },
                _ => {},
            },
            ShootingState::Cooldown(timer) => {
                let mut t = timer;
                t.tick(delta);
                if t.finished() {
                    state = ShootingState::Idle;
                } else {
                    state = ShootingState::Cooldown(t);
                }
            },
        }
        self.state = state;
        fired
    }
}

} // verus!
