use vstd::prelude::*;

verus! {

/// Top-level phase of the game.
#[derive(Clone, Copy, Eq, PartialEq, Structural, Debug, Hash)]
pub enum GameState {
    Menu,
    New,
    Resume,
    Play,
    Over,
}

impl Default for GameState {
    fn default() -> (r: GameState)
        ensures
            r == GameState::Menu,
    {
        GameState::Menu
    }
}

/// Which menu screen is shown; `Play` means that none is.
#[derive(Clone, Copy, Eq, PartialEq, Structural, Debug, Hash)]
pub enum MenuState {
    Main,
    Pause,
    Play,
}

impl Default for MenuState {
    fn default() -> (r: MenuState)
        ensures
            r == MenuState::Main,
    {
        MenuState::Main
    }
}

} // verus!
