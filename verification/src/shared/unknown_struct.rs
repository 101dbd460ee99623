//! Structures that are known to exist but not what they hold.

use vstd::prelude::*;

use crate::shared::layout::{FieldKind, StructLayout, MAX_STRUCT_SIZE};
use crate::shared::memory::Region;

verus! {

/// An opaque, still-unreversed native structure. This is equivalent to an
/// array of bytes, but its use indicates that we know a structure exists and
/// we know its size but we don't know its purpose or anything else about it.
#[derive(Debug, Copy, Clone, PartialEq, Eq)]
pub struct UnknownStruct<const N: usize>(pub [u8; N]);

impl<const N: usize> UnknownStruct<N> {
    /// Returns the byte layout of the structure: `N` bytes that ask for no
    /// alignment.
    pub fn layout() -> (l: StructLayout)
        requires
            N <= MAX_STRUCT_SIZE,
        ensures
            l.wf(),
            l.spec_size() == N,
            l.spec_align() == 1,
            l.spec_fields().len() == 1,
            l.spec_fields()[0].kind == FieldKind::Opaque,
    {
        let l = StructLayout::new();
        let l = l.with(FieldKind::Opaque, 0, N as u64, 1);
        l.finish(N as u64)
    }

    /// Copies the structure at `address` out of the region, byte for byte.
    /// `None` means that the region doesn't hold all of its bytes.
    pub fn read(region: &Region, address: u64) -> (r: Option<Vec<u8>>)
        ensures
            r is Some <==> region.covers(address, N as int),
            r is Some ==> r->Some_0@ == region.span(address, N as int),
    {
        region.read_bytes(address, N)
    }
}

} // verus!
