//! What a destroyed asteroid breaks into.
use vstd::prelude::*;
use rand::Rng;
use crate::common::{asteroid_side, Asteroid, AsteroidType};

verus! {

/// Relies on rand's `thread_rng().gen_range(0..n)`: a value drawn from
/// `0..n`, which must not be empty.
#[verifier::external_body]
fn random_below(n: u32) -> (r: u32)
    requires
        n > 0,
    ensures
        r < n,
{
    rand::thread_rng().gen_range(0..n)
}

/// How many pieces a broken asteroid leaves for a draw from `0..2`.
pub fn pieces_for_draw(draw: u32) -> (r: u32)
    requires
        draw < 2,
    ensures
        r == draw + 1,
{
    draw + 1
}

/// Draws how many pieces a broken asteroid leaves: one or two.
pub fn split_count() -> (r: u32)
    ensures
        1 <= r <= 2,
{
    pieces_for_draw(random_below(2))
}

/// The size of one piece of a broken asteroid. A large asteroid leaves a
/// medium piece when `roll` came up, a small one otherwise; any other
/// leaves small pieces.
pub open spec fn piece_type(parent: AsteroidType, roll: bool) -> AsteroidType {
    if parent == AsteroidType::Large && roll {
        AsteroidType::Medium
    } else {
        AsteroidType::Small
    }
}

/// One piece of the broken asteroid `parent`.
pub fn split_child(parent: Asteroid, roll: bool) -> (r: Asteroid)
    ensures
        r.asteroid_type == piece_type(parent.asteroid_type, roll),
{
    let asteroid_type = match parent.asteroid_type {
        AsteroidType::Large => if roll {
            AsteroidType::Medium
        } else {
            AsteroidType::Small
        },
        _ => AsteroidType::Small,
    };
    Asteroid { asteroid_type }
}

/// A piece is always smaller than the asteroid it came from.
pub proof fn lemma_split_shrinks(parent: AsteroidType, roll: bool)
    requires
        parent != AsteroidType::Small,
    ensures
        asteroid_side(piece_type(parent, roll)) < asteroid_side(parent),
{
}

} // verus!
