//! Enemy bookkeeping and the stage manager that sends asteroid waves.
use vstd::prelude::*;
use crate::common::{Asteroid, AsteroidType, EntityType};
use crate::consts::{MAX_WAVE, SPAWNS_PER_WAVE, STAGE_COOLDOWN, STAGE_INIT_COOLDOWN, STAGE_LENGTH};
use crate::events::DespawnEntity;
use crate::timer::{once_timer, Timer, TimerMode};

verus! {

/// How many asteroids there are in `types`.
pub open spec fn asteroids_in(types: Seq<EntityType>) -> nat
    decreases types.len(),
{
    if types.len() == 0 {
        0
    } else {
        asteroids_in(types.drop_last()) + if types.last() is Asteroid {
            1nat
        } else {
            0nat
        }
    }
}

pub open spec fn despawned_types(events: Seq<DespawnEntity>) -> Seq<EntityType> {
    events.map_values(|e: DespawnEntity| e.entity_type)
}

/// The number of enemies alive, by kind.
pub struct EnemyCount {
    pub asteroids: u32,
}

impl EnemyCount {
    pub fn new() -> (r: EnemyCount)
        ensures
            r.asteroids == 0,
    {
        EnemyCount { asteroids: 0 }
    }

    pub fn add_enemy_count(&mut self, entity_type: EntityType, amount: u32)
        requires
            entity_type is Asteroid ==> old(self).asteroids + amount <= u32::MAX,
        ensures
            final(self).asteroids == if entity_type is Asteroid {
                old(self).asteroids + amount
            } else {
                old(self).asteroids as int
            },
    {
        if matches!(entity_type, EntityType::Asteroid(_)) {
            self.asteroids = self.asteroids + amount;
        }
    }

    pub fn remove_enemy_count(&mut self, entity_type: EntityType, amount: u32)
        requires
            entity_type is Asteroid ==> old(self).asteroids >= amount,
        ensures
            final(self).asteroids == if entity_type is Asteroid {
                old(self).asteroids - amount
            } else {
                old(self).asteroids as int
            },
    {
        if matches!(entity_type, EntityType::Asteroid(_)) {
            self.asteroids = self.asteroids - amount;
        }
    }

    /// Counts one enemy less for each despawned asteroid.
    pub fn apply_despawns(&mut self, events: &Vec<DespawnEntity>)
        requires
            old(self).asteroids >= asteroids_in(despawned_types(events@)),
        ensures
            final(self).asteroids == old(self).asteroids - asteroids_in(despawned_types(events@)),
    {
        let mut i: usize = 0;
        while i < events.len()
            invariant
                i <= events.len(),
                self.asteroids == old(self).asteroids - asteroids_in(
                    despawned_types(events@).take(i as int),
                ),
                old(self).asteroids >= asteroids_in(despawned_types(events@)),
            decreases events.len() - i,
        {
            proof {
                let types = despawned_types(events@);
                assert(types.take(i + 1).drop_last() =~= types.take(i as int));
                lemma_asteroids_in_prefix(types, i + 1);
            }
            self.remove_enemy_count(events[i].entity_type, 1);
            i = i + 1;
        }
        proof {
            assert(despawned_types(events@).take(events.len() as int) =~= despawned_types(events@));
        }
    }

    /// Counts one enemy more for each spawned asteroid.
    pub fn apply_spawns(&mut self, spawned: &Vec<EntityType>)
        requires
            old(self).asteroids + asteroids_in(spawned@) <= u32::MAX,
        ensures
            final(self).asteroids == old(self).asteroids + asteroids_in(spawned@),
    {
        let mut i: usize = 0;
        while i < spawned.len()
            invariant
                i <= spawned.len(),
                self.asteroids == old(self).asteroids + asteroids_in(spawned@.take(i as int)),
                old(self).asteroids + asteroids_in(spawned@) <= u32::MAX,
            decreases spawned.len() - i,
        {
            proof {
                assert(spawned@.take(i + 1).drop_last() =~= spawned@.take(i as int));
                lemma_asteroids_in_prefix(spawned@, i + 1);
            }
            self.add_enemy_count(spawned[i], 1);
            i = i + 1;
        }
        proof {
            assert(spawned@.take(spawned.len() as int) =~= spawned@);
        }
    }
}

/// A prefix holds no more asteroids than the whole.
proof fn lemma_asteroids_in_prefix(types: Seq<EntityType>, n: int)
    requires
        0 <= n <= types.len(),
    ensures
        asteroids_in(types.take(n)) <= asteroids_in(types),
    decreases types.len() - n,
{
    if n < types.len() {
        lemma_asteroids_in_prefix(types, n + 1);
        assert(types.take(n + 1).drop_last() =~= types.take(n));
    } else {
        assert(types.take(n) =~= types);
    }
}

#[derive(Clone, Copy, Debug, PartialEq, Eq, Structural)]
pub enum StageType {
    Normal,
}

/// Sends enemies of one kind, one each time its interval runs out, until
/// `spawn_total` have been sent.
#[derive(Clone, Copy, Debug)]
pub struct EnemySpawner {
    pub entity_type: EntityType,
    pub spawned: u32,
    pub spawn_total: u32,
    pub interval: Timer,
}

pub open spec fn spawn_total_of(wave: u32) -> u32 {
    (SPAWNS_PER_WAVE * wave) as u32
}

/// The spawner of a normal stage for one size of asteroid: the wave's
/// enemies are spread evenly over the stage's length.
pub open spec fn normal_spawner(asteroid_type: AsteroidType, wave: u32) -> EnemySpawner {
    EnemySpawner {
        entity_type: EntityType::Asteroid(Asteroid { asteroid_type }),
        spawned: 0,
        spawn_total: spawn_total_of(wave),
        interval: Timer {
            duration: (STAGE_LENGTH / (spawn_total_of(wave) as u64)) as u64,
            elapsed: 0,
            mode: TimerMode::Repeating,
            finished: false,
        },
    }
}

pub open spec fn stage_spawners(wave: u32) -> Seq<EnemySpawner> {
    seq![
        normal_spawner(AsteroidType::Small, wave),
        normal_spawner(AsteroidType::Medium, wave),
        normal_spawner(AsteroidType::Large, wave),
    ]
}

pub open spec fn initial_velocity_of(t: EntityType) -> (i32, i32) {
    match t {
        EntityType::Asteroid(a) => match a.asteroid_type {
            AsteroidType::Small => (0i32, -300i32),
            AsteroidType::Medium => (0i32, -200i32),
            AsteroidType::Large => (0i32, -100i32),
        },
        _ => (0i32, 0i32),
    }
}

/// Velocity, in pixels per second, that an enemy of this kind starts
/// with: asteroids fall, the smaller the faster.
pub fn enemy_initial_velocity(entity_type: EntityType) -> (r: (i32, i32))
    ensures
        r == initial_velocity_of(entity_type),
{
    match entity_type {
        EntityType::Asteroid(asteroid) => match asteroid.asteroid_type {
            AsteroidType::Small => (0, -300),
            AsteroidType::Medium => (0, -200),
            AsteroidType::Large => (0, -100),
        },
        _ => (0, 0),
    }
}

impl EnemySpawner {
    /// A spawner never sends more than its total.
    pub open spec fn wf(self) -> bool {
        &&& self.interval.wf()
        &&& self.interval.mode == TimerMode::Repeating
        &&& self.spawned <= self.spawn_total
    }

    pub open spec fn active(self) -> bool {
        self.spawned < self.spawn_total
    }

    /// The spawner after `delta` nanoseconds: its interval advances, and it
    /// counts one more enemy if the interval ran out.
    pub open spec fn ticked(self, delta: u64) -> EnemySpawner {
        let interval = self.interval.ticked(delta);
        EnemySpawner {
            interval,
            spawned: if interval.finished {
                (self.spawned + 1) as u32
            } else {
                self.spawned
            },
            ..self
        }
    }

    /// Velocity, in pixels per second, of the enemies it sends.
    pub fn get_enemy_initial_velocity(&self) -> (r: (i32, i32))
        ensures
            r == initial_velocity_of(self.entity_type),
    {
        enemy_initial_velocity(self.entity_type)
    }

    pub fn add_spawned_count(&mut self, amount: u32)
        requires
            old(self).spawned + amount <= u32::MAX,
        ensures
            *final(self) == (EnemySpawner { spawned: (old(self).spawned + amount) as u32, ..*old(self) }),
    {
        self.spawned = self.spawned + amount;
    }

    /// The spawners of the given wave: in a normal stage one for each size
    /// of asteroid, each sending ten enemies per wave number.
    pub fn create_spawners(wave: u32, stage_type: StageType) -> (r: Vec<EnemySpawner>)
        requires
            1 <= wave <= MAX_WAVE,
        ensures
            r@ == stage_spawners(wave),
            forall|i: int| 0 <= i < r.len() ==> (#[trigger] r@[i]).wf(),
    {
        match stage_type {
            StageType::Normal => {
                let spawn_total: u32 = SPAWNS_PER_WAVE * wave;
                let interval: u64 = STAGE_LENGTH / (spawn_total as u64);
                let mut r: Vec<EnemySpawner> = Vec::new();
                r.push(EnemySpawner {
                    entity_type: EntityType::Asteroid(Asteroid { asteroid_type: AsteroidType::Small }),
                    spawned: 0,
                    spawn_total,
                    interval: Timer::new(interval, TimerMode::Repeating),
                });
                r.push(EnemySpawner {
                    entity_type: EntityType::Asteroid(Asteroid { asteroid_type: AsteroidType::Medium }),
                    spawned: 0,
                    spawn_total,
                    interval: Timer::new(interval, TimerMode::Repeating),
                });
                r.push(EnemySpawner {
                    entity_type: EntityType::Asteroid(Asteroid { asteroid_type: AsteroidType::Large }),
                    spawned: 0,
                    spawn_total,
                    interval: Timer::new(interval, TimerMode::Repeating),
                });
                assert(r@ =~= stage_spawners(wave));
                r
            },
        }
    }
}

/// The spawners still at work after `delta` nanoseconds: those that had
/// sent all their enemies are dropped, the others advance.
pub open spec fn spawners_after(spawners: Seq<EnemySpawner>, delta: u64) -> Seq<EnemySpawner>
    decreases spawners.len(),
{
    if spawners.len() == 0 {
        seq![]
    } else {
        let prev = spawners_after(spawners.drop_last(), delta);
        let s = spawners.last();
        if s.active() {
            prev.push(s.ticked(delta))
        } else {
            prev
        }
    }
}

/// The enemies that the spawners send in those `delta` nanoseconds.
pub open spec fn spawns_of(spawners: Seq<EnemySpawner>, delta: u64) -> Seq<EntityType>
    decreases spawners.len(),
{
    if spawners.len() == 0 {
        seq![]
    } else {
        let prev = spawns_of(spawners.drop_last(), delta);
        let s = spawners.last();
        if s.active() && s.interval.ticked(delta).finished {
            prev.push(s.entity_type)
        } else {
            prev
        }
    }
}

/// Which wave the game is at.
#[derive(Clone, Copy, Debug)]
pub struct StageWave {
    pub wave: u32,
    pub stage_type: StageType,
}

impl StageWave {
    pub fn new() -> (r: StageWave)
        ensures
            r.wave == 0,
            r.stage_type == StageType::Normal,
    {
        StageWave { wave: 0, stage_type: StageType::Normal }
    }

    pub fn next_wave(&mut self)
        requires
            old(self).wave < u32::MAX,
        ensures
            final(self).wave == old(self).wave + 1,
            final(self).stage_type == old(self).stage_type,
    {
        self.wave = self.wave + 1;
    }
}

/// A wave is either being sent or the game waits for the next one.
pub enum StageState {
    Spawning(Vec<EnemySpawner>),
    Cooldown(Timer),
}

pub struct GameplayStage {
    pub wave: StageWave,
    pub state: StageState,
}

impl GameplayStage {
    pub open spec fn wf(self) -> bool {
        match self.state {
            StageState::Spawning(v) => forall|i: int| 0 <= i < v.len() ==> (#[trigger] v@[i]).wf(),
            StageState::Cooldown(t) => t.wf() && t.mode == TimerMode::Once,
        }
    }

    /// The stage at the start of a game: wave zero, waiting for the first
    /// wave.
    pub fn new() -> (r: GameplayStage)
        ensures
            r.wf(),
            r.wave.wave == 0,
            r.wave.stage_type == StageType::Normal,
            r.state matches StageState::Cooldown(t) && t == once_timer(STAGE_INIT_COOLDOWN),
    {
        GameplayStage {
            wave: StageWave::new(),
            state: StageState::Cooldown(Timer::new(STAGE_INIT_COOLDOWN, TimerMode::Once)),
        }
    }

    /// Advances the stage by `delta` nanoseconds and returns the kinds of
    /// the enemies to send now. While spawning, each spawner with enemies
    /// left advances and may send one; when none is left the stage cools
    /// down. When the cooldown runs out the next wave starts.
    pub fn step(&mut self, delta: u64) -> (r: Vec<EntityType>)
        requires
            old(self).wf(),
            old(self).state is Cooldown ==> old(self).wave.wave < MAX_WAVE,
        ensures
            final(self).wf(),
            final(self).wave.stage_type == old(self).wave.stage_type,
            match old(self).state {
                StageState::Spawning(v) => {
                    let kept = spawners_after(v@, delta);
                    &&& r@ == spawns_of(v@, delta)
                    &&& final(self).wave.wave == old(self).wave.wave
                    &&& if kept.len() == 0 {
                        final(self).state matches StageState::Cooldown(t) && t == once_timer(
                            STAGE_COOLDOWN,
                        )
                    } else {
                        final(self).state matches StageState::Spawning(w) && w@ == kept
                    }
                },
                StageState::Cooldown(t) => {
                    &&& r@ == Seq::<EntityType>::empty()
                    &&& if t.ticked(delta).finished {
                        &&& final(self).wave.wave == old(self).wave.wave + 1
                        &&& final(self).state matches StageState::Spawning(w) && w@ == stage_spawners(
                            (old(self).wave.wave + 1) as u32,
                        )
                    } else {
                        &&& final(self).wave.wave == old(self).wave.wave
                        &&& final(self).state matches StageState::Cooldown(u) && u == t.ticked(delta)
                    }
                },
            },
    {
        let mut sent: Vec<EntityType> = Vec::new();
        let next: StageState;
        match &self.state {
            StageState::Spawning(spawners) => {
                let mut kept: Vec<EnemySpawner> = Vec::new();
                let mut i: usize = 0;
                while i < spawners.len()
                    invariant
                        i <= spawners.len(),
                        forall|k: int| 0 <= k < spawners.len() ==> (#[trigger] spawners@[k]).wf(),
                        kept@ == spawners_after(spawners@.take(i as int), delta),
                        sent@ == spawns_of(spawners@.take(i as int), delta),
                        forall|k: int| 0 <= k < kept.len() ==> (#[trigger] kept@[k]).wf(),
                    decreases spawners.len() - i,
                {
                    proof {
                        assert(spawners@.take(i + 1).drop_last() =~= spawners@.take(i as int));
                    }
                    let mut s = spawners[i];
                    if s.spawned < s.spawn_total {
                        s.interval.tick(delta);
                        if s.interval.finished() {
                            sent.push(s.entity_type);
                            s.add_spawned_count(1);
                        }
                        kept.push(s);
                    }
                    i = i + 1;
                }
                proof {
                    assert(spawners@.take(spawners.len() as int) =~= spawners@);
                }
                if kept.len() == 0 {
                    next = StageState::Cooldown(Timer::new(STAGE_COOLDOWN, TimerMode::Once));
                } else {
                    next = StageState::Spawning(kept);
                }
            },
            StageState::Cooldown(timer) => {
                let mut t = *timer;
                t.tick(delta);
                if t.finished() {
                    self.wave.next_wave();
                    next = StageState::Spawning(
                        EnemySpawner::create_spawners(self.wave.wave, self.wave.stage_type),
                    );
                } else {
                    next = StageState::Cooldown(t);
                }
            },
        }
        self.state = next;
        sent
    }
}

} // verus!
