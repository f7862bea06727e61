//! Sideways movement of the ship: steady steps while a move key is held,
//! and dashes that follow a fixed velocity curve, then cool down.
use vstd::prelude::*;
use crate::consts::{PLAYER_DASH_COOLDOWN, PLAYER_DASH_SPEED, PLAYER_DASH_TIME, PLAYER_MOVEMENT_SPEED_MICROS};
use crate::timer::{once_timer, Timer, TimerMode};

verus! {

/// Nanoseconds squared per second squared, over micro-units per unit: turns
/// `speed * ns * ns` into millionths of a pixel per second.
pub const BOOST_SCALE: u128 = 1_000_000_000_000;

#[derive(Clone, Copy, Debug, PartialEq, Eq, Structural)]
pub enum Direction {
    Right,
    Left,
}

/// The dash curve, in millionths of a pixel per second, `t` nanoseconds
/// into a dash of length `T` with coefficient `S`. Up to half-way it is the
/// parabola `S t (T - t)`; from there it is the line through the
/// parabola's peak at `T / 2` and through minus half that peak at `T`, which
/// is `S T (5 T - 6 t) / 8`. Divisions round toward zero.
pub open spec fn dash_boost(t: int) -> int {
    let s = PLAYER_DASH_SPEED as int;
    let d = PLAYER_DASH_TIME as int;
    if t < d / 2 {
        s * t * (d - t) / (BOOST_SCALE as int)
    } else if 6 * t <= 5 * d {
        s * d * (5 * d - 6 * t) / (8 * BOOST_SCALE as int)
    } else {
        -(s * d * (6 * t - 5 * d) / (8 * BOOST_SCALE as int))
    }
}

pub open spec fn signed_boost(direction: Direction, boost: int) -> int {
    match direction {
        Direction::Right => boost,
        Direction::Left => -boost,
    }
}

/// Evaluates the dash curve `elapsed` nanoseconds into a dash.
pub fn boost_at(elapsed: u64) -> (r: i64)
    requires
        elapsed < PLAYER_DASH_TIME,
    ensures
        r == dash_boost(elapsed as int),
        -75_000_000_000 <= r <= 375_000_000_000,
{
    let t: u128 = elapsed as u128;
    let s: u128 = PLAYER_DASH_SPEED as u128;
    let d: u128 = PLAYER_DASH_TIME as u128;
    if t < d / 2 {
        assert(s * t * (d - t) <= 75_000_000_000_000_000_000) by (nonlinear_arith)
            requires
                s == 300,
                d == 500_000_000,
                t < d,
        ;
        let v: u128 = s * t * (d - t) / BOOST_SCALE;
        assert(v <= 75_000_000_000);
        v as i64
    } else if 6 * t <= 5 * d {
        assert(s * d * (5 * d - 6 * t) <= 375_000_000_000_000_000_000) by (nonlinear_arith)
            requires
                s == 300,
                d == 500_000_000,
                6 * t <= 5 * d,
        ;
        let v: u128 = s * d * (5 * d - 6 * t) / (8 * BOOST_SCALE);
        assert(v <= 375_000_000_000);
        v as i64
    } else {
        assert(s * d * (6 * t - 5 * d) <= 75_000_000_000_000_000_000) by (nonlinear_arith)
            requires
                s == 300,
                d == 500_000_000,
                t < d,
                6 * t > 5 * d,
        ;
        let v: u128 = s * d * (6 * t - 5 * d) / (8 * BOOST_SCALE);
        assert(v <= 75_000_000_000);
        -(v as i64)
    }
}

/// The curve starts at rest and is highest half-way through the dash.
pub proof fn lemma_dash_boost_peak(t: int)
    requires
        0 <= t < PLAYER_DASH_TIME,
    ensures
        dash_boost(0) == 0,
        dash_boost(t) <= dash_boost((PLAYER_DASH_TIME / 2) as int),
        dash_boost((PLAYER_DASH_TIME / 2) as int) == 18_750_000,
{
    let s = PLAYER_DASH_SPEED as int;
    let d = PLAYER_DASH_TIME as int;
    assert(s * d * (5 * d - 6 * (d / 2)) == 18_750_000 * (8 * BOOST_SCALE as int)) by (nonlinear_arith)
        requires
            s == 300,
            d == 500_000_000,
            d / 2 == 250_000_000,
            BOOST_SCALE == 1_000_000_000_000,
    ;
    vstd::arithmetic::div_mod::lemma_div_by_multiple(18_750_000, 8 * BOOST_SCALE as int);
    assert(dash_boost(d / 2) == 18_750_000);
    if t < d / 2 {
        assert(s * t * (d - t) <= 18_750_000_000_000_000_000) by (nonlinear_arith)
            requires
                s == 300,
                d == 500_000_000,
                0 <= t < d,
        ;
        assert(s * t * (d - t) >= 0) by (nonlinear_arith)
            requires
                s == 300,
                d == 500_000_000,
                0 <= t < d,
        ;
        vstd::arithmetic::div_mod::lemma_div_is_ordered(
            s * t * (d - t),
            18_750_000_000_000_000_000,
            BOOST_SCALE as int,
        );
    } else if 6 * t <= 5 * d {
        assert(s * d * (5 * d - 6 * t) <= 150_000_000_000_000_000_000) by (nonlinear_arith)
            requires
                s == 300,
                d == 500_000_000,
                2 * t >= d,
        ;
        vstd::arithmetic::div_mod::lemma_div_is_ordered(
            s * d * (5 * d - 6 * t),
            150_000_000_000_000_000_000,
            8 * BOOST_SCALE as int,
        );
    } else {
        assert(s * d * (6 * t - 5 * d) >= 0) by (nonlinear_arith)
            requires
                s == 300,
                d == 500_000_000,
                6 * t > 5 * d,
        ;
        vstd::arithmetic::div_mod::lemma_div_pos_is_pos(
            s * d * (6 * t - 5 * d),
            8 * BOOST_SCALE as int,
        );
    }
}

/// A dash in progress.
#[derive(Clone, Copy, Debug)]
pub struct Dash {
    pub direction: Direction,
    pub timer: Timer,
}

impl Dash {
    pub open spec fn wf(self) -> bool {
        &&& self.timer.wf()
        &&& self.timer.mode == TimerMode::Once
        &&& self.timer.duration == PLAYER_DASH_TIME
    }

    /// The velocity change after `delta` more nanoseconds, or `None` once
    /// the dash is over.
    pub open spec fn boost_after(self, delta: u64) -> Option<int> {
        let t = self.timer.ticked(delta);
        if t.finished {
            None
        } else {
            Some(signed_boost(self.direction, dash_boost(t.elapsed as int)))
        }
    }

    pub fn new(direction: Direction) -> (r: Dash)
        ensures
            r.wf(),
            r == (Dash { direction, timer: once_timer(PLAYER_DASH_TIME) }),
    {
        Dash { direction, timer: Timer::new(PLAYER_DASH_TIME, TimerMode::Once) }
    }

    /// Advances the dash by `delta` nanoseconds and returns the velocity
    /// change for this frame, pointing the dash's way, or `None` once the
    /// dash is over.
    pub fn calc_boost(&mut self, delta: u64) -> (r: Option<i64>)
        requires
            old(self).wf(),
        ensures
            final(self).wf(),
            *final(self) == (Dash { timer: old(self).timer.ticked(delta), ..*old(self) }),
            match (r, old(self).boost_after(delta)) {
                (Some(x), Some(y)) => x == y,
                (None, None) => true,
                _ => false,
            },
    {
        self.timer.tick(delta);
        if !self.timer.finished() {
            let boost = boost_at(self.timer.elapsed());
            match self.direction {
                Direction::Right => Some(boost),
                Direction::Left => Some(-boost),
            }
        } else {
            None
        }
    }
}

#[derive(Clone, Copy, Debug)]
pub enum DashState {
    Idle,
    Dashing(Dash),
    Cooldown(Timer),
}

impl DashState {
    pub open spec fn wf(self) -> bool {
        match self {
            DashState::Idle => true,
            DashState::Dashing(d) => d.wf(),
            DashState::Cooldown(t) => t.wf() && t.mode == TimerMode::Once,
        }
    }

    pub fn is_idle(&self) -> (r: bool)
        ensures
            r == (*self is Idle),
    {
        matches!(self, DashState::Idle)
    }
}

/// What the player asks of the ship's movement in one frame: move keys
/// held, dash keys pressed in this frame.
#[derive(Clone, Copy, Debug, PartialEq, Eq, Structural)]
pub struct MoveInput {
    pub move_right: bool,
    pub move_left: bool,
    pub dash_right: bool,
    pub dash_left: bool,
}

/// An idle ship starts a dash when a dash key is pressed, to the right
/// first.
pub open spec fn with_dash_started(state: DashState, input: MoveInput) -> DashState {
    if state is Idle && input.dash_right {
        DashState::Dashing(Dash { direction: Direction::Right, timer: once_timer(PLAYER_DASH_TIME) })
    } else if state is Idle && input.dash_left {
        DashState::Dashing(Dash { direction: Direction::Left, timer: once_timer(PLAYER_DASH_TIME) })
    } else {
        state
    }
}

/// The next state and the velocity change, in millionths of a pixel per
/// second, of one frame of `delta` nanoseconds.
pub open spec fn dash_step(state: DashState, input: MoveInput, delta: u64) -> (DashState, int) {
    let speed = PLAYER_MOVEMENT_SPEED_MICROS as int;
    match with_dash_started(state, input) {
        DashState::Idle => (
            DashState::Idle,
            (if input.move_right { speed } else { 0 }) - (if input.move_left { speed } else { 0 }),
        ),
        DashState::Dashing(d) => match d.boost_after(delta) {
            Some(b) => (DashState::Dashing(Dash { timer: d.timer.ticked(delta), ..d }), b),
            None => (DashState::Cooldown(once_timer(PLAYER_DASH_COOLDOWN)), 0),
        },
        DashState::Cooldown(t) => if t.ticked(delta).finished {
            (DashState::Idle, 0)
        } else {
            (DashState::Cooldown(t.ticked(delta)), 0)
        },
    }
}

/// The ship's dash state.
#[derive(Clone, Copy, Debug)]
pub struct SpaceshipDash {
    pub state: DashState,
}

impl SpaceshipDash {
    pub fn new() -> (r: SpaceshipDash)
        ensures
            r.state is Idle,
    {
        SpaceshipDash { state: DashState::Idle }
    }

    /// Runs one frame of `delta` nanoseconds and returns how much the
    /// ship's sideways velocity changes, in millionths of a pixel per second.
    pub fn step(&mut self, input: MoveInput, delta: u64) -> (r: i64)
        requires
            old(self).state.wf(),
        ensures
            final(self).state.wf(),
            final(self).state == dash_step(old(self).state, input, delta).0,
            r == dash_step(old(self).state, input, delta).1,
    {
        let mut state = self.state;
        if state.is_idle() {
            if input.dash_right {
                state = DashState::Dashing(Dash::new(Direction::Right));
            } else if input.dash_left {
                state = DashState::Dashing(Dash::new(Direction::Left));
            }
        }
        let mut change: i64 = 0;
        match state {
            DashState::Idle => {
                if input.move_right {
                    change = change + PLAYER_MOVEMENT_SPEED_MICROS;
                }
                if input.move_left {
                    change = change - PLAYER_MOVEMENT_SPEED_MICROS;
                }
            },
            DashState::Dashing(dash) => {
                let mut d = dash;
                match d.calc_boost(delta) {
                    Some(boost) => {
                        change = boost;
                        state = DashState::Dashing(d);
                    },
                    None => {
                        state = DashState::Cooldown(Timer::new(PLAYER_DASH_COOLDOWN, TimerMode::Once));
                    },
                }
            },
            DashState::Cooldown(timer) => {
                let mut t = timer;
                t.tick(delta);
                if t.finished() {
                    state = DashState::Idle;
                } else {
                    state = DashState::Cooldown(t);
                }
            },
        }
        self.state = state;
        change
    }
}

} // verus!
