//! Structures of the game's kernel library.

use vstd::prelude::*;

use crate::shared::layout::{FieldKind, StructLayout};

verus! {

/// The virtual methods of the game's light mutex, in the order of its
/// method table.
pub trait DLPlainLightMutexVmt {
    /// Destroys the mutex. `param_2` says whether its memory is freed as
    /// well.
    fn destructor(&mut self, param_2: bool);
}

/// The game's light mutex: a method table in front of a critical section of
/// the operating system.
#[derive(Debug, Copy, Clone, PartialEq, Eq, Structural)]
pub struct DLPlainLightMutex {}

impl DLPlainLightMutex {
    /// The number of bytes that the structure takes in the game's memory.
    pub const SIZE: u64 = 0x38;

    /// Where the critical section lies in the structure.
    pub const CRITICAL_SECTION_OFFSET: u64 = 0x8;

    /// Returns the byte layout of the structure.
    pub fn layout() -> (l: StructLayout)
        ensures
            l.wf(),
            l.spec_size() == DLPlainLightMutex::SIZE,
            l.spec_align() == 8,
            l.spec_fields().len() == 3,
            l.spec_fields()[1].offset == DLPlainLightMutex::CRITICAL_SECTION_OFFSET,
    {
        let l = StructLayout::new();
        let l = l.with(FieldKind::Pointer, 0x0, 8, 8);
        let l = l.with(FieldKind::Nested, 0x8, 0x28, 8);
        let l = l.with(FieldKind::Opaque, 0x30, 8, 1);
        l.finish(0x38)
    }
}

} // verus!
