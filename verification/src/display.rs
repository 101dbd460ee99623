//! What the debug overlay shows and asks for.

pub mod menu;
