//! The graphical session that starts with a target for games.
pub mod greetd;
pub mod session_switching;
