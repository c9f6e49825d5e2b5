//! The state and decision logic of a terminal client that searches YouTube
//! and hands the chosen video to an external player.
pub mod text;
pub mod player;
pub mod state;
pub mod selection;
pub mod results;
pub mod thumbnail;
pub mod app;
