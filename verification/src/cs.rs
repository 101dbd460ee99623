//! Structures of the game's `CS` namespace.

pub mod regulation_manager;
