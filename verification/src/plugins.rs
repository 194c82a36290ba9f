//! The screens that have content of their own, each with what runs when it is
//! entered, while it is current, and when it is left.

pub mod menu_plugin;

pub use menu_plugin::{MenuPlugin, NewWorldkeeperPlugin};
