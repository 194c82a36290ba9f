//! Screen navigation for a small simulation-game shell.
//!
//! The crate holds the set of screens, the table of legal moves between them,
//! the controller that owns the current screen and applies one requested move
//! per tick, the builders of each screen's element tree, and the dispatch of
//! input to actions. Rendering, windowing and device input are left to the
//! host program, which hands in plain values and carries out the effects that
//! come back.

pub mod components;
pub mod plugins;
pub mod resources;
pub mod systems;
