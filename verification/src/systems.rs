//! What runs on a screen: the main menu's builder and teardown, and the
//! handlers that turn input into requests.

pub mod menu;
