//! The prototype's top-level game state.

use vstd::prelude::*;

verus! {

/// Which screen the game is on.
#[derive(Debug, Clone, Eq, PartialEq, Hash, Structural)]
pub enum GameState {
    MainMenu,
    InGame,
}

impl Default for GameState {
    /// The game starts on the main menu.
    fn default() -> (s: GameState)
        ensures
            s == GameState::MainMenu,
    {
        GameState::MainMenu
    }
}

} // verus!
