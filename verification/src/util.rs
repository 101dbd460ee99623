//! Helpers that hook into the running game.

pub mod input;
pub mod save;
