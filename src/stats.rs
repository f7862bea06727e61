//! The score and the play time of a game.
use vstd::prelude::*;
use crate::common::EntityType;
use crate::consts::SCORE_ADD_ASTEROID;
use crate::events::{AddScore, AddScoreType};
use crate::timer::Stopwatch;

verus! {

/// Points that one score event is worth: destroying an asteroid scores.
pub open spec fn points_of(event: AddScore) -> nat {
    match event.0 {
        AddScoreType::EnemyDestroyed(EntityType::Asteroid(_)) => SCORE_ADD_ASTEROID as nat,
        _ => 0,
    }
}

pub open spec fn points_in(events: Seq<AddScore>) -> nat
    decreases events.len(),
{
    if events.len() == 0 {
        0
    } else {
        points_in(events.drop_last()) + points_of(events.last())
    }
}

/// A prefix is worth no more points than the whole.
proof fn lemma_points_in_prefix(events: Seq<AddScore>, n: int)
    requires
        0 <= n <= events.len(),
    ensures
        points_in(events.take(n)) <= points_in(events),
    decreases events.len() - n,
{
    if n < events.len() {
        lemma_points_in_prefix(events, n + 1);
        assert(events.take(n + 1).drop_last() =~= events.take(n));
    } else {
        assert(events.take(n) =~= events);
    }
}

pub struct Stats {
    pub score: u32,
    pub watch: Stopwatch,
}

impl Default for Stats {
    /// No points, and a stopwatch at zero that waits for the game to start.
    fn default() -> (r: Stats)
        ensures
            r.score == 0,
            r.watch == (Stopwatch { elapsed: 0, paused: true }),
    {
        let mut watch = Stopwatch::new();
        watch.pause();
        Stats { score: 0, watch }
    }
}

impl Stats {
    /// Adds up the points of this frame's score events.
    pub fn add_scores(&mut self, events: &Vec<AddScore>)
        requires
            old(self).score + points_in(events@) <= u32::MAX,
        ensures
            final(self).score == old(self).score + points_in(events@),
            final(self).watch == old(self).watch,
    {
        let mut i: usize = 0;
        while i < events.len()
            invariant
                i <= events.len(),
                self.score == old(self).score + points_in(events@.take(i as int)),
                self.watch == old(self).watch,
                old(self).score + points_in(events@) <= u32::MAX,
            decreases events.len() - i,
        {
            proof {
                assert(events@.take(i + 1).drop_last() =~= events@.take(i as int));
                lemma_points_in_prefix(events@, i + 1);
            }
            match events[i].0 {
                AddScoreType::EnemyDestroyed(entity_type) => {
                    if let EntityType::Asteroid(_) = entity_type {
                        self.score = self.score + SCORE_ADD_ASTEROID;
                    }
                },
            }
            i = i + 1;
        }
        proof {
            assert(events@.take(events.len() as int) =~= events@);
        }
    }

    /// Back to the start of a game: no points, the stopwatch paused at zero.
    pub fn reset(&mut self)
        ensures
            final(self).score == 0,
            final(self).watch == (Stopwatch { elapsed: 0, paused: true }),
    {
        self.watch.pause();
        self.watch.reset();
        self.score = 0;
    }
}

} // verus!
