//! Screens and pause states of the game.
use vstd::prelude::*;

verus! {

#[derive(Clone, Copy, Debug, PartialEq, Eq, Structural)]
pub enum GameState {
    MainMenu,
    LoadingGame,
    Gameplay,
}

#[derive(Clone, Copy, Debug, PartialEq, Eq, Structural)]
pub enum GameplayState {
    Playing,
    Paused,
    GameOver,
}

/// The game world advances only on the gameplay screen while it is not
/// paused or over.
pub fn is_playing(game: GameState, gameplay: GameplayState) -> (r: bool)
    ensures
        r == (game == GameState::Gameplay && gameplay == GameplayState::Playing),
{
    game == GameState::Gameplay && gameplay == GameplayState::Playing
}

pub fn is_gameplay(game: GameState) -> (r: bool)
    ensures
        r == (game == GameState::Gameplay),
{
    game == GameState::Gameplay
}

} // verus!
