//! Process-wide state: the screens, the legal moves between them, the
//! controller that applies them, and what holds of every state it can reach.

pub mod game_state;
pub mod reachable;
pub mod registry;
pub mod screen_state;

pub use game_state::GameState;
