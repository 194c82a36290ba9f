use vstd::prelude::*;

verus! {

/// The screens of the game. Exactly one of them is current at any time.
#[derive(Debug, Clone, Copy, PartialEq, Eq, Hash, Structural)]
pub enum GameState {
    MainMenu,
    NewWorldkeeper,
    InGame,
    Paused,
    GameOver,
}

impl Default for GameState {
    /// The game starts on the main menu.
    fn default() -> (state: Self)
        ensures
            state == GameState::MainMenu,
    {
        GameState::MainMenu
    }
}

impl GameState {
    /// Whether menu widgets react to the pointer on this screen.
    pub open spec fn ui_interactive(self) -> bool {
        self == GameState::MainMenu || self == GameState::NewWorldkeeper || self
            == GameState::Paused
    }

    /// Check if the current state allows UI interaction
    pub fn allows_ui_interaction(&self) -> (allowed: bool)
        ensures
            allowed == self.ui_interactive(),
    {
        match self {
            GameState::MainMenu | GameState::NewWorldkeeper | GameState::Paused => true,
            GameState::InGame | GameState::GameOver => false,
        }
    }

    /// Check if the current state is in active gameplay
    pub fn is_gameplay(&self) -> (gameplay: bool)
        ensures
            gameplay == (*self == GameState::InGame),
    {
        match self {
            GameState::InGame => true,
            _ => false,
        }
    }
}

} // verus!
