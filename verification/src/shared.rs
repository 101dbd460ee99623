//! Building blocks that every structure of the game rests on: byte layouts,
//! captured memory, foreign pointers, slot pools and instance lookup.

pub mod bits;
pub mod empty;
pub mod instance;
pub mod layout;
pub mod memory;
pub mod pointer;
pub mod text;
pub mod unknown_struct;
