use space_ranger::common::EntityType;
use space_ranger::consts::{PLAYER_CHARGE_SHOT_CHARGING_TIME, PLAYER_DASH_COOLDOWN, PLAYER_FIRING_COOLDOWN};
use space_ranger::dash::{boost_at, DashState, Direction, MoveInput, SpaceshipDash, Dash};
use space_ranger::events::{DespawnEntity, SpaceshipIsHit};
use space_ranger::player::{HitResponse, Invulnerability, SpaceshipHealth};
use space_ranger::shoot::{ShootInput, ShootingState, SpaceshipShoot};

const NO_MOVE: MoveInput = MoveInput { move_right: false, move_left: false, dash_right: false, dash_left: false };

#[test]
fn dash_curve_values() {
    assert_eq!(boost_at(0), 0);
    assert_eq!(boost_at(100_000_000), 12_000_000);
    assert_eq!(boost_at(250_000_000), 18_750_000);
    assert_eq!(boost_at(400_000_000), 1_875_000);
    assert_eq!(boost_at(450_000_000), -3_750_000);
}

#[test]
fn dash_to_the_left_pulls_left() {
    let mut d = Dash::new(Direction::Left);
    assert_eq!(d.calc_boost(100_000_000), Some(-12_000_000));
    assert_eq!(d.calc_boost(400_000_000), None);
}

#[test]
fn move_keys_change_velocity_when_idle() {
    let mut s = SpaceshipDash::new();
    let right = MoveInput { move_right: true, ..NO_MOVE };
    assert_eq!(s.step(right, 16_000_000), 5_000_000);
    let both = MoveInput { move_right: true, move_left: true, ..NO_MOVE };
    assert_eq!(s.step(both, 16_000_000), 0);
    let left = MoveInput { move_left: true, ..NO_MOVE };
    assert_eq!(s.step(left, 16_000_000), -5_000_000);
}

#[test]
fn dash_runs_then_cools_down() {
    let mut s = SpaceshipDash::new();
    let dash = MoveInput { dash_right: true, move_right: true, ..NO_MOVE };
    assert_eq!(s.step(dash, 100_000_000), 12_000_000);
    assert!(matches!(s.state, DashState::Dashing(_)));
    assert_eq!(s.step(NO_MOVE, 150_000_000), 18_750_000);
    assert_eq!(s.step(NO_MOVE, 300_000_000), 0);
    assert!(matches!(s.state, DashState::Cooldown(_)));
    assert_eq!(s.step(MoveInput { move_right: true, ..NO_MOVE }, PLAYER_DASH_COOLDOWN), 0);
    assert!(s.state.is_idle());
}

#[test]
fn tap_fires_a_projectile() {
    let mut s = SpaceshipShoot::new();
    let press = ShootInput { just_pressed: true, just_released: false };
    let release = ShootInput { just_pressed: false, just_released: true };
    let none = ShootInput { just_pressed: false, just_released: false };
    assert_eq!(s.step(press, 10), None);
    assert!(s.state.is_charging());
    assert_eq!(s.step(release, 10), Some(EntityType::Projectile));
    assert!(matches!(s.state, ShootingState::Cooldown(_)));
    assert_eq!(s.step(none, PLAYER_FIRING_COOLDOWN), None);
    assert!(s.state.is_idle());
}

#[test]
fn held_key_fires_a_charged_shot() {
    let mut s = SpaceshipShoot::new();
    let press = ShootInput { just_pressed: true, just_released: false };
    let none = ShootInput { just_pressed: false, just_released: false };
    let release = ShootInput { just_pressed: false, just_released: true };
    s.step(press, PLAYER_CHARGE_SHOT_CHARGING_TIME);
    assert!(s.state.is_charging_finished());
    s.step(none, 10);
    assert_eq!(s.step(release, 10), Some(EntityType::ChargedShot));
}

#[test]
fn health_runs_out_after_three_hits() {
    let mut h = SpaceshipHealth::new();
    assert!(h.is_point_full(2) && !h.is_point_full(3));
    assert_eq!(h.take_hit(SpaceshipIsHit(8)), HitResponse::Invulnerable);
    assert_eq!(h.take_hit(SpaceshipIsHit(8)), HitResponse::Invulnerable);
    assert!(h.is_point_full(0) && !h.is_point_full(1));
    assert_eq!(
        h.take_hit(SpaceshipIsHit(8)),
        HitResponse::Destroyed(DespawnEntity { entity: 8, entity_type: EntityType::Spaceship })
    );
    assert_eq!(h.take_hit(SpaceshipIsHit(8)), HitResponse::Ignored);
    assert_eq!(h, SpaceshipHealth(0));
}

#[test]
fn invulnerability_blinks_and_expires() {
    let mut inv = Invulnerability::new();
    let t = inv.step(100_000_000);
    assert!(!t.blink && !t.expired);
    let t = inv.step(100_000_000);
    assert!(t.blink && !t.expired);
    let t = inv.step(2_800_000_000);
    assert!(t.expired);
    assert_eq!(inv.length, 0);
}
