use space_ranger::common::{Asteroid, AsteroidType, EntityType};
use space_ranger::events::{AddScore, AddScoreType};
use space_ranger::split::{pieces_for_draw, split_child, split_count};
use space_ranger::state::{is_gameplay, is_playing, GameState, GameplayState};
use space_ranger::stats::Stats;

#[test]
fn destroyed_asteroids_score_a_point_each() {
    let mut stats = Stats::default();
    assert_eq!(stats.score, 0);
    assert!(stats.watch.paused);
    let rock = EntityType::Asteroid(Asteroid { asteroid_type: AsteroidType::Medium });
    stats.add_scores(&vec![
        AddScore(AddScoreType::EnemyDestroyed(rock)),
        AddScore(AddScoreType::EnemyDestroyed(EntityType::Spaceship)),
        AddScore(AddScoreType::EnemyDestroyed(rock)),
    ]);
    assert_eq!(stats.score, 2);
    stats.watch.unpause();
    stats.watch.tick(5);
    stats.reset();
    assert_eq!(stats.score, 0);
    assert_eq!(stats.watch.elapsed(), 0);
    assert!(stats.watch.paused);
}

#[test]
fn broken_asteroids_leave_one_or_two_pieces() {
    let mut seen = [false; 3];
    for _ in 0..200 {
        let n = split_count();
        assert!(n == 1 || n == 2);
        seen[n as usize] = true;
    }
    assert!(seen[1] && seen[2]);
}

#[test]
fn pieces_are_smaller_than_their_asteroid() {
    let large = Asteroid { asteroid_type: AsteroidType::Large };
    let medium = Asteroid { asteroid_type: AsteroidType::Medium };
    assert_eq!(split_child(large, true).asteroid_type, AsteroidType::Medium);
    assert_eq!(split_child(large, false).asteroid_type, AsteroidType::Small);
    assert_eq!(split_child(medium, true).asteroid_type, AsteroidType::Small);
    assert_eq!(large.size(), 70);
    assert!(large.splits() && !Asteroid { asteroid_type: AsteroidType::Small }.splits());
}

#[test]
fn world_runs_only_while_playing() {
    assert!(is_playing(GameState::Gameplay, GameplayState::Playing));
    assert!(!is_playing(GameState::Gameplay, GameplayState::Paused));
    assert!(!is_playing(GameState::MainMenu, GameplayState::Playing));
    assert!(is_gameplay(GameState::Gameplay));
    assert!(!is_gameplay(GameState::LoadingGame));
}

#[test]
fn each_draw_gives_one_more_piece() {
    assert_eq!(pieces_for_draw(0), 1);
    assert_eq!(pieces_for_draw(1), 2);
}
