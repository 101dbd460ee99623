//! Typed access to the in-memory structures of Dark Souls III.
//!
//! The game's data lives in memory that this crate neither allocates nor
//! frees. Every structure here is therefore described twice: as a byte layout
//! that says where each field sits, and as an ordinary value that the rest of
//! the crate computes with.

pub mod app_menu;
pub mod cs;
pub mod display;
pub mod dlio;
pub mod dlkr;
pub mod dlui;
pub mod fd4;
pub mod shared;
pub mod sprj;
pub mod util;
