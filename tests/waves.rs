use space_ranger::common::{Asteroid, AsteroidType, EntityType};
use space_ranger::consts::{STAGE_COOLDOWN, STAGE_INIT_COOLDOWN};
use space_ranger::enemy::{EnemyCount, EnemySpawner, GameplayStage, StageState, StageType, StageWave};
use space_ranger::events::DespawnEntity;

fn rock(t: AsteroidType) -> EntityType {
    EntityType::Asteroid(Asteroid { asteroid_type: t })
}

#[test]
fn enemy_count_follows_asteroids_only() {
    let mut c = EnemyCount::new();
    c.add_enemy_count(rock(AsteroidType::Small), 3);
    c.add_enemy_count(EntityType::Projectile, 5);
    assert_eq!(c.asteroids, 3);
    c.remove_enemy_count(rock(AsteroidType::Large), 2);
    c.remove_enemy_count(EntityType::Spaceship, 1);
    assert_eq!(c.asteroids, 1);
}

#[test]
fn spawn_and_despawn_events_update_the_count() {
    let mut c = EnemyCount::new();
    c.apply_spawns(&vec![rock(AsteroidType::Small), EntityType::Projectile, rock(AsteroidType::Medium)]);
    assert_eq!(c.asteroids, 2);
    c.apply_despawns(&vec![
        DespawnEntity { entity: 1, entity_type: rock(AsteroidType::Small) },
        DespawnEntity { entity: 2, entity_type: EntityType::Projectile },
    ]);
    assert_eq!(c.asteroids, 1);
}

#[test]
fn a_normal_wave_has_one_spawner_per_size() {
    let s = EnemySpawner::create_spawners(2, StageType::Normal);
    assert_eq!(s.len(), 3);
    assert_eq!(s[0].entity_type, rock(AsteroidType::Small));
    assert_eq!(s[1].entity_type, rock(AsteroidType::Medium));
    assert_eq!(s[2].entity_type, rock(AsteroidType::Large));
    for sp in &s {
        assert_eq!(sp.spawned, 0);
        assert_eq!(sp.spawn_total, 20);
        assert_eq!(sp.interval.duration, 1_500_000_000);
    }
}

#[test]
fn smaller_asteroids_fall_faster() {
    let s = EnemySpawner::create_spawners(1, StageType::Normal);
    assert_eq!(s[0].get_enemy_initial_velocity(), (0, -300));
    assert_eq!(s[1].get_enemy_initial_velocity(), (0, -200));
    assert_eq!(s[2].get_enemy_initial_velocity(), (0, -100));
}

#[test]
fn waves_count_up() {
    let mut w = StageWave::new();
    w.next_wave();
    w.next_wave();
    assert_eq!(w.wave, 2);
}

#[test]
fn stage_waits_then_sends_the_first_wave() {
    let mut stage = GameplayStage::new();
    assert_eq!(stage.wave.wave, 0);
    let sent = stage.step(STAGE_INIT_COOLDOWN - 1);
    assert!(sent.is_empty());
    assert!(matches!(stage.state, StageState::Cooldown(_)));
    let sent = stage.step(1);
    assert!(sent.is_empty());
    assert_eq!(stage.wave.wave, 1);
    match &stage.state {
        StageState::Spawning(v) => assert_eq!(v.len(), 3),
        _ => panic!("expected spawning"),
    }
    // Wave one spreads ten enemies per spawner over thirty seconds.
    let sent = stage.step(2_999_999_999);
    assert!(sent.is_empty());
    let sent = stage.step(1);
    assert_eq!(
        sent,
        vec![rock(AsteroidType::Small), rock(AsteroidType::Medium), rock(AsteroidType::Large)]
    );
}

#[test]
fn stage_cools_down_after_a_wave() {
    let mut stage = GameplayStage::new();
    stage.step(STAGE_INIT_COOLDOWN);
    let mut total: usize = 0;
    for _ in 0..10 {
        total += stage.step(3_000_000_000).len();
    }
    assert_eq!(total, 30);
    assert!(matches!(stage.state, StageState::Spawning(_)));
    let sent = stage.step(3_000_000_000);
    assert!(sent.is_empty());
    match stage.state {
        StageState::Cooldown(t) => assert_eq!(t.duration, STAGE_COOLDOWN),
        _ => panic!("expected cooldown"),
    }
    stage.step(STAGE_COOLDOWN);
    assert_eq!(stage.wave.wave, 2);
}
