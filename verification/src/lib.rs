use vstd::prelude::*;

pub mod handle_set;
pub mod loading;
pub mod phrases;
pub mod random;
pub mod text;
pub mod vincubus;

verus! {

/// The screens the game moves between.
#[derive(Clone, Copy, PartialEq, Eq, Structural, Hash, Debug)]
pub enum GameState {
    Splash,
    MainMenu,
    SettingsMenu,
    InGame,
}

impl Default for GameState {
    fn default() -> (state: GameState)
        ensures
            state == GameState::Splash,
    {
        GameState::Splash
    }
}

} // verus!
