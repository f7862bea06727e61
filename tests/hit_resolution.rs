use space_ranger::common::{Asteroid, AsteroidType, EntityType, ProjectileSource};
use space_ranger::events::{AddScore, AddScoreType, DespawnEntity, SpaceshipIsHit};
use space_ranger::hits::{charged_shot_hits, projectile_hits, ship_collisions, Shot, Target};

fn asteroid(entity: u64, t: AsteroidType) -> Target {
    Target { entity, entity_type: EntityType::Asteroid(Asteroid { asteroid_type: t }) }
}

fn bullet(entity: u64) -> Shot {
    Shot { entity, entity_type: EntityType::Projectile, source: ProjectileSource::FromSpaceship }
}

fn despawn(entity: u64, entity_type: EntityType) -> DespawnEntity {
    DespawnEntity { entity, entity_type }
}

#[test]
fn each_projectile_destroys_at_most_one_target() {
    let small = asteroid(1, AsteroidType::Small);
    let large = asteroid(2, AsteroidType::Large);
    let targets = vec![small, large];
    let shots = vec![bullet(10)];
    let overlaps = vec![vec![true], vec![true]];
    let r = projectile_hits(&targets, &shots, &overlaps);
    assert_eq!(
        r.despawns,
        vec![despawn(1, small.entity_type), despawn(10, EntityType::Projectile)]
    );
    assert_eq!(r.scores, vec![AddScore(AddScoreType::EnemyDestroyed(small.entity_type))]);
    assert!(r.splits.is_empty());
}

#[test]
fn each_target_takes_the_first_free_projectile() {
    let medium = asteroid(1, AsteroidType::Medium);
    let large = asteroid(2, AsteroidType::Large);
    let targets = vec![medium, large];
    let shots = vec![bullet(10), bullet(11), bullet(12)];
    let overlaps = vec![vec![false, true, true], vec![false, true, true]];
    let r = projectile_hits(&targets, &shots, &overlaps);
    assert_eq!(
        r.despawns,
        vec![
            despawn(1, medium.entity_type),
            despawn(11, EntityType::Projectile),
            despawn(2, large.entity_type),
            despawn(12, EntityType::Projectile),
        ]
    );
    assert_eq!(r.scores.len(), 2);
    assert_eq!(r.splits, vec![0, 1]);
}

#[test]
fn ship_is_not_hit_by_its_own_projectiles() {
    let ship = Target { entity: 5, entity_type: EntityType::Spaceship };
    let rock = asteroid(6, AsteroidType::Small);
    let targets = vec![ship, rock];
    let shots = vec![bullet(20)];
    let overlaps = vec![vec![true], vec![true]];
    let r = projectile_hits(&targets, &shots, &overlaps);
    assert_eq!(
        r.despawns,
        vec![despawn(6, rock.entity_type), despawn(20, EntityType::Projectile)]
    );
}

#[test]
fn nothing_overlaps_nothing_happens() {
    let targets = vec![asteroid(1, AsteroidType::Large)];
    let shots = vec![bullet(2)];
    let r = projectile_hits(&targets, &shots, &vec![vec![false]]);
    assert!(r.despawns.is_empty() && r.scores.is_empty() && r.splits.is_empty());
    let r = projectile_hits(&vec![], &vec![], &vec![]);
    assert!(r.despawns.is_empty());
}

#[test]
fn charged_shot_sweeps_all_overlapping_enemies() {
    let a = asteroid(1, AsteroidType::Small);
    let b = asteroid(2, AsteroidType::Large);
    let c = asteroid(3, AsteroidType::Medium);
    let r = charged_shot_hits(99, &vec![a, b, c], &vec![true, true, false]);
    assert_eq!(
        r.despawns,
        vec![
            despawn(1, a.entity_type),
            despawn(2, b.entity_type),
            despawn(99, EntityType::ChargedShot),
        ]
    );
    assert!(r.scores.is_empty());
    assert_eq!(r.splits, vec![1]);
}

#[test]
fn charged_shot_leaves_even_when_it_misses() {
    let r = charged_shot_hits(7, &vec![], &vec![]);
    assert_eq!(r.despawns, vec![despawn(7, EntityType::ChargedShot)]);
}

#[test]
fn enemies_running_into_the_ship_hit_it() {
    let a = asteroid(1, AsteroidType::Small);
    let b = asteroid(2, AsteroidType::Large);
    let r = ship_collisions(42, &vec![a, b], &vec![false, true]);
    assert_eq!(r.despawns, vec![despawn(2, b.entity_type)]);
    assert_eq!(r.hits, vec![SpaceshipIsHit(42)]);
}
