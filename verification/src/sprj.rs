//! Structures of the game's `SPRJ` namespace.

pub mod field_area;
pub mod field_ins;
pub mod game_data_man;
pub mod item;
pub mod player_game_data;
pub mod world_block;
pub mod world_chr_man;
pub mod world_info;
