//! Turning the overlaps found in one frame into despawn, score and split
//! events. Which boxes overlap is measured by the caller; here it is given
//! as a table of flags.
use vstd::prelude::*;
use crate::common::{AsteroidType, EntityType, ProjectileSource};
use crate::events::{AddScore, AddScoreType, DespawnEntity, SpaceshipIsHit};

verus! {

/// Something that a shot can destroy.
#[derive(Clone, Copy, Debug, PartialEq, Eq, Structural)]
pub struct Target {
    pub entity: u64,
    pub entity_type: EntityType,
}

/// A flying projectile.
#[derive(Clone, Copy, Debug, PartialEq, Eq, Structural)]
pub struct Shot {
    pub entity: u64,
    pub entity_type: EntityType,
    pub source: ProjectileSource,
}

/// The events that one frame's hits cause. `splits` holds the positions,
/// in the list of targets, of the asteroids that break apart.
pub struct HitReport {
    pub despawns: Vec<DespawnEntity>,
    pub scores: Vec<AddScore>,
    pub splits: Vec<usize>,
}

/// The events of enemies running into the ship.
pub struct ShipCollisions {
    pub hits: Vec<SpaceshipIsHit>,
    pub despawns: Vec<DespawnEntity>,
}

pub open spec fn despawn_of_target(t: Target) -> DespawnEntity {
    DespawnEntity { entity: t.entity, entity_type: t.entity_type }
}

pub open spec fn despawn_of_shot(s: Shot) -> DespawnEntity {
    DespawnEntity { entity: s.entity, entity_type: s.entity_type }
}

/// The ship's own shots pass through it.
pub open spec fn can_hit(t: Target, s: Shot) -> bool {
    !(t.entity_type == EntityType::Spaceship && s.source == ProjectileSource::FromSpaceship)
}

pub open spec fn breaks_apart(t: EntityType) -> bool {
    t matches EntityType::Asteroid(a) && a.asteroid_type != AsteroidType::Small
}

/// Shot `j` is already used up by one of `pairs`.
pub open spec fn spent(pairs: Seq<(int, int)>, j: int) -> bool {
    exists|k: int| 0 <= k < pairs.len() && #[trigger] pairs[k].1 == j
}

pub open spec fn is_candidate(
    targets: Seq<Target>,
    shots: Seq<Shot>,
    overlaps: Seq<Vec<bool>>,
    pairs: Seq<(int, int)>,
    i: int,
    j: int,
) -> bool {
    &&& !spent(pairs, j)
    &&& can_hit(targets[i], shots[j])
    &&& overlaps[i]@[j]
}

/// The first shot from position `from` on that can still hit target `i`.
pub open spec fn first_shot_from(
    targets: Seq<Target>,
    shots: Seq<Shot>,
    overlaps: Seq<Vec<bool>>,
    pairs: Seq<(int, int)>,
    i: int,
    from: int,
) -> Option<int>
    decreases shots.len() - from,
{
    if from >= shots.len() || from < 0 {
        None
    } else if is_candidate(targets, shots, overlaps, pairs, i, from) {
        Some(from)
    } else {
        first_shot_from(targets, shots, overlaps, pairs, i, from + 1)
    }
}

/// The (target, shot) pairs that hit among the first `n` targets: each
/// target in turn takes the first overlapping shot that no earlier target
/// used up and that may hit it.
pub open spec fn hit_pairs(
    targets: Seq<Target>,
    shots: Seq<Shot>,
    overlaps: Seq<Vec<bool>>,
    n: int,
) -> Seq<(int, int)>
    decreases n,
{
    if n <= 0 {
        seq![]
    } else {
        let prev = hit_pairs(targets, shots, overlaps, n - 1);
        match first_shot_from(targets, shots, overlaps, prev, n - 1, 0) {
            Some(j) => prev.push((n - 1, j)),
            None => prev,
        }
    }
}

/// Both the target and the shot of each pair leave the world.
pub open spec fn pair_despawns(
    targets: Seq<Target>,
    shots: Seq<Shot>,
    pairs: Seq<(int, int)>,
) -> Seq<DespawnEntity>
    decreases pairs.len(),
{
    if pairs.len() == 0 {
        seq![]
    } else {
        let p = pairs.last();
        pair_despawns(targets, shots, pairs.drop_last()).push(
            despawn_of_target(targets[p.0]),
        ).push(despawn_of_shot(shots[p.1]))
    }
}

/// The ship's shots score for what they destroy.
pub open spec fn pair_scores(
    targets: Seq<Target>,
    shots: Seq<Shot>,
    pairs: Seq<(int, int)>,
) -> Seq<AddScore>
    decreases pairs.len(),
{
    if pairs.len() == 0 {
        seq![]
    } else {
        let p = pairs.last();
        let prev = pair_scores(targets, shots, pairs.drop_last());
        if shots[p.1].source == ProjectileSource::FromSpaceship {
            prev.push(AddScore(AddScoreType::EnemyDestroyed(targets[p.0].entity_type)))
        } else {
            prev
        }
    }
}

/// The targets of the pairs that break apart.
pub open spec fn pair_splits(targets: Seq<Target>, pairs: Seq<(int, int)>) -> Seq<usize>
    decreases pairs.len(),
{
    if pairs.len() == 0 {
        seq![]
    } else {
        let p = pairs.last();
        let prev = pair_splits(targets, pairs.drop_last());
        if breaks_apart(targets[p.0].entity_type) {
            prev.push(p.0 as usize)
        } else {
            prev
        }
    }
}

pub open spec fn overlaps_fit(targets: Seq<Target>, shots: Seq<Shot>, overlaps: Seq<Vec<bool>>) -> bool {
    &&& overlaps.len() == targets.len()
    &&& forall|i: int| 0 <= i < overlaps.len() ==> #[trigger] overlaps[i]@.len() == shots.len()
}

proof fn lemma_first_shot(
    targets: Seq<Target>,
    shots: Seq<Shot>,
    overlaps: Seq<Vec<bool>>,
    pairs: Seq<(int, int)>,
    i: int,
    from: int,
    j: int,
)
    requires
        0 <= from <= j <= shots.len(),
        forall|k: int| from <= k < j ==> !is_candidate(targets, shots, overlaps, pairs, i, k),
        j < shots.len() ==> is_candidate(targets, shots, overlaps, pairs, i, j),
    ensures
        first_shot_from(targets, shots, overlaps, pairs, i, from) == if j < shots.len() {
            Some(j)
        } else {
            None::<int>
        },
    decreases j - from,
{
    if from < j {
        lemma_first_shot(targets, shots, overlaps, pairs, i, from + 1, j);
    }
}

/// Matches targets with the projectiles that hit them, each target and each
/// projectile at most once, and lists the events that follow.
/// `overlaps[i][j]` tells whether target `i` and shot `j` overlap.
pub fn projectile_hits(targets: &Vec<Target>, shots: &Vec<Shot>, overlaps: &Vec<Vec<bool>>) -> (r:
    HitReport)
    requires
        overlaps_fit(targets@, shots@, overlaps@),
    ensures
        ({
            let pairs = hit_pairs(targets@, shots@, overlaps@, targets.len() as int);
            &&& r.despawns@ == pair_despawns(targets@, shots@, pairs)
            &&& r.scores@ == pair_scores(targets@, shots@, pairs)
            &&& r.splits@ == pair_splits(targets@, pairs)
        }),
{
    let mut used: Vec<bool> = Vec::new();
    let mut k: usize = 0;
    while k < shots.len()
        invariant
            k <= shots.len(),
            used@ == Seq::new(k as nat, |_x: int| false),
        decreases shots.len() - k,
    {
        used.push(false);
        k = k + 1;
    }
    let mut despawns: Vec<DespawnEntity> = Vec::new();
    let mut scores: Vec<AddScore> = Vec::new();
    let mut splits: Vec<usize> = Vec::new();
    let ghost mut pairs: Seq<(int, int)> = seq![];
    let mut i: usize = 0;
    while i < targets.len()
        invariant
            i <= targets.len(),
            overlaps_fit(targets@, shots@, overlaps@),
            pairs == hit_pairs(targets@, shots@, overlaps@, i as int),
            used@.len() == shots.len(),
            forall|j: int| 0 <= j < shots.len() ==> #[trigger] used@[j] == spent(pairs, j),
            despawns@ == pair_despawns(targets@, shots@, pairs),
            scores@ == pair_scores(targets@, shots@, pairs),
            splits@ == pair_splits(targets@, pairs),
            forall|k: int| 0 <= k < pairs.len() ==> 0 <= #[trigger] pairs[k].0 < i && 0 <= pairs[k].1 < shots.len(),
        decreases targets.len() - i,
    {
        let target = targets[i];
        let mut j: usize = 0;
        let mut found: bool = false;
        while j < shots.len() && !found
            invariant
                i < targets.len(),
                j <= shots.len(),
                overlaps_fit(targets@, shots@, overlaps@),
                used@.len() == shots.len(),
                forall|x: int| 0 <= x < shots.len() ==> #[trigger] used@[x] == spent(pairs, x),
                target == targets@[i as int],
                forall|x: int|
                    0 <= x < j ==> !is_candidate(targets@, shots@, overlaps@, pairs, i as int, x),
                found ==> j < shots.len() && is_candidate(
                    targets@,
                    shots@,
                    overlaps@,
                    pairs,
                    i as int,
                    j as int,
                ),
            decreases shots.len() - j + (if found { 0int } else { 1int }),
        {
            let shot = shots[j];
            let own_shot = matches!(target.entity_type, EntityType::Spaceship) && matches!(
                shot.source,
                ProjectileSource::FromSpaceship
            );
            assert(overlaps@[i as int]@.len() == shots.len());
            if !used[j] && !own_shot && overlaps[i][j] {
                found = true;
            } else {
                j = j + 1;
            }
        }
        proof {
            lemma_first_shot(targets@, shots@, overlaps@, pairs, i as int, 0, j as int);
        }
        if found {
            let shot = shots[j];
            used.set(j, true);
            despawns.push(DespawnEntity { entity: target.entity, entity_type: target.entity_type });
            despawns.push(DespawnEntity { entity: shot.entity, entity_type: shot.entity_type });
            if matches!(shot.source, ProjectileSource::FromSpaceship) {
                scores.push(AddScore(AddScoreType::EnemyDestroyed(target.entity_type)));
            }
            let split = match target.entity_type {
                EntityType::Asteroid(a) => a.splits(),
                _ => false,
            };
            if split {
                splits.push(i);
            }
            let ghost old_pairs = pairs;
            proof {
                pairs = pairs.push((i as int, j as int));
                assert(pairs.drop_last() =~= old_pairs);
                assert forall|x: int| 0 <= x < shots.len() implies #[trigger] used@[x] == spent(
                    pairs,
                    x,
                ) by {
                    if x == j {
                        assert(pairs[old_pairs.len() as int].1 == x);
                    } else if spent(old_pairs, x) {
                        let k = choose|k: int| 0 <= k < old_pairs.len() && #[trigger] old_pairs[k].1 == x;
                        assert(pairs[k].1 == x);
                    } else {
                        assert forall|k: int| 0 <= k < pairs.len() implies #[trigger] pairs[k].1 != x by {
                            if k < old_pairs.len() {
                                assert(pairs[k] == old_pairs[k]);
                            }
                        }
                    }
                }
            }
        }
        i = i + 1;
    }
    HitReport { despawns, scores, splits }
}

/// Positions, among the first `n` targets, of those that overlap.
pub open spec fn struck(overlaps: Seq<bool>, n: int) -> Seq<int>
    decreases n,
{
    if n <= 0 {
        seq![]
    } else if overlaps[n - 1] {
        struck(overlaps, n - 1).push(n - 1)
    } else {
        struck(overlaps, n - 1)
    }
}

/// Positions, among the first `n` targets, of those that overlap and break
/// apart.
pub open spec fn struck_splits(targets: Seq<Target>, overlaps: Seq<bool>, n: int) -> Seq<usize>
    decreases n,
{
    if n <= 0 {
        seq![]
    } else if overlaps[n - 1] && breaks_apart(targets[n - 1].entity_type) {
        struck_splits(targets, overlaps, n - 1).push((n - 1) as usize)
    } else {
        struck_splits(targets, overlaps, n - 1)
    }
}

pub open spec fn struck_despawns(targets: Seq<Target>, overlaps: Seq<bool>) -> Seq<DespawnEntity> {
    struck(overlaps, targets.len() as int).map_values(|i: int| despawn_of_target(targets[i]))
}

/// Destroys every enemy that the charged shot overlaps, then the shot
/// itself. A charged shot scores nothing.
pub fn charged_shot_hits(shot: u64, enemies: &Vec<Target>, overlaps: &Vec<bool>) -> (r: HitReport)
    requires
        overlaps.len() == enemies.len(),
    ensures
        r.despawns@ == struck_despawns(enemies@, overlaps@).push(
            DespawnEntity { entity: shot, entity_type: EntityType::ChargedShot },
        ),
        r.scores@ == Seq::<AddScore>::empty(),
        r.splits@ == struck_splits(enemies@, overlaps@, enemies.len() as int),
{
    let mut despawns: Vec<DespawnEntity> = Vec::new();
    let mut splits: Vec<usize> = Vec::new();
    let mut i: usize = 0;
    while i < enemies.len()
        invariant
            i <= enemies.len(),
            overlaps.len() == enemies.len(),
            despawns@ == struck(overlaps@, i as int).map_values(
                |k: int| despawn_of_target(enemies@[k]),
            ),
            splits@ == struck_splits(enemies@, overlaps@, i as int),
        decreases enemies.len() - i,
    {
        let enemy = enemies[i];
        if overlaps[i] {
            despawns.push(DespawnEntity { entity: enemy.entity, entity_type: enemy.entity_type });
            let split = match enemy.entity_type {
                EntityType::Asteroid(a) => a.splits(),
                _ => false,
            };
            if split {
                splits.push(i);
            }
        }
        assert(struck(overlaps@, i + 1).map_values(|k: int| despawn_of_target(enemies@[k]))
            =~= despawns@);
        i = i + 1;
    }
    despawns.push(DespawnEntity { entity: shot, entity_type: EntityType::ChargedShot });
    HitReport { despawns, scores: Vec::new(), splits }
}

/// Every enemy that overlaps the ship hits it once and is destroyed.
pub fn ship_collisions(ship: u64, enemies: &Vec<Target>, overlaps: &Vec<bool>) -> (r:
    ShipCollisions)
    requires
        overlaps.len() == enemies.len(),
    ensures
        r.despawns@ == struck_despawns(enemies@, overlaps@),
        r.hits@ == Seq::new(r.despawns@.len(), |_k: int| SpaceshipIsHit(ship)),
{
    let mut hits: Vec<SpaceshipIsHit> = Vec::new();
    let mut despawns: Vec<DespawnEntity> = Vec::new();
    let mut i: usize = 0;
    while i < enemies.len()
        invariant
            i <= enemies.len(),
            overlaps.len() == enemies.len(),
            despawns@ == struck(overlaps@, i as int).map_values(
                |k: int| despawn_of_target(enemies@[k]),
            ),
            hits@ == Seq::new(despawns@.len(), |_k: int| SpaceshipIsHit(ship)),
        decreases enemies.len() - i,
    {
        let enemy = enemies[i];
        if overlaps[i] {
            hits.push(SpaceshipIsHit(ship));
            despawns.push(DespawnEntity { entity: enemy.entity, entity_type: enemy.entity_type });
        }
        assert(struck(overlaps@, i + 1).map_values(|k: int| despawn_of_target(enemies@[k]))
            =~= despawns@);
        assert(hits@ =~= Seq::new(despawns@.len(), |_k: int| SpaceshipIsHit(ship)));
        i = i + 1;
    }
    ShipCollisions { hits, despawns }
}

proof fn lemma_first_shot_found(
    targets: Seq<Target>,
    shots: Seq<Shot>,
    overlaps: Seq<Vec<bool>>,
    pairs: Seq<(int, int)>,
    i: int,
    from: int,
)
    requires
        first_shot_from(targets, shots, overlaps, pairs, i, from) is Some,
    ensures
        ({
            let j = first_shot_from(targets, shots, overlaps, pairs, i, from)->0;
            &&& from <= j < shots.len()
            &&& is_candidate(targets, shots, overlaps, pairs, i, j)
        }),
    decreases shots.len() - from,
{
    if from >= 0 && from < shots.len() && !is_candidate(targets, shots, overlaps, pairs, i, from) {
        lemma_first_shot_found(targets, shots, overlaps, pairs, i, from + 1);
    }
}

/// Hit resolution pairs each target and each projectile at most once, in
/// the order of the targets, and only a target with a projectile that
/// overlaps it and may hit it.
pub proof fn lemma_hits_exclusive(
    targets: Seq<Target>,
    shots: Seq<Shot>,
    overlaps: Seq<Vec<bool>>,
    n: int,
)
    requires
        overlaps_fit(targets, shots, overlaps),
        0 <= n <= targets.len(),
    ensures
        ({
            let pairs = hit_pairs(targets, shots, overlaps, n);
            &&& forall|k: int|
                0 <= k < pairs.len() ==> {
                    let (t, s) = #[trigger] pairs[k];
                    &&& 0 <= t < n
                    &&& 0 <= s < shots.len()
                    &&& overlaps[t]@[s]
                    &&& can_hit(targets[t], shots[s])
                }
            &&& forall|a: int, b: int|
                0 <= a < b < pairs.len() ==> #[trigger] pairs[a].0 < #[trigger] pairs[b].0
                    && pairs[a].1 != pairs[b].1
        }),
    decreases n,
{
    if n > 0 {
        lemma_hits_exclusive(targets, shots, overlaps, n - 1);
        let prev = hit_pairs(targets, shots, overlaps, n - 1);
        if first_shot_from(targets, shots, overlaps, prev, n - 1, 0) is Some {
            lemma_first_shot_found(targets, shots, overlaps, prev, n - 1, 0);
            let j = first_shot_from(targets, shots, overlaps, prev, n - 1, 0)->0;
            let pairs = prev.push((n - 1, j));
            assert(pairs == hit_pairs(targets, shots, overlaps, n));
            assert forall|a: int, b: int|
                0 <= a < b < pairs.len() implies #[trigger] pairs[a].0 < #[trigger] pairs[b].0
                && pairs[a].1 != pairs[b].1 by {
                if b == prev.len() {
                    assert(pairs[a] == prev[a]);
                    if pairs[a].1 == pairs[b].1 {
                        assert(spent(prev, j));
                    }
                } else {
                    assert(pairs[a] == prev[a] && pairs[b] == prev[b]);
                }
            }
            assert forall|k: int| 0 <= k < pairs.len() implies {
                let (t, s) = #[trigger] pairs[k];
                &&& 0 <= t < n
                &&& 0 <= s < shots.len()
                &&& overlaps[t]@[s]
                &&& can_hit(targets[t], shots[s])
            } by {
                if k < prev.len() {
                    assert(pairs[k] == prev[k]);
                }
            }
        }
    }
}

} // verus!
