//! Structures of the game's menus.

pub mod new_menu_system;
