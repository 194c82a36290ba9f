//! What a screen is made of: the menu's markers, actions and theme, and the
//! elements that a screen's builder creates.

pub mod element;
pub mod ui;
