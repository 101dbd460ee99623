//! The game's pad manager, which leads to the input devices.

use vstd::prelude::*;

use crate::shared::layout::{FieldKind, StructLayout};
use crate::shared::memory::{le_u64, Region};
use crate::shared::pointer::ForeignPtr;

verus! {

/// The number of pointers that each of the two structures holds.
pub const PAD_SLOTS: usize = 4;

/// Whether `pointers` are the four pointers that lie one after another in
/// `bytes` from `offset` on.
pub open spec fn pointers_decode(pointers: [ForeignPtr; 4], bytes: Seq<u8>, offset: int) -> bool {
    forall|i: int|
        0 <= i < 4 ==> (#[trigger] pointers[i]).address == le_u64(
            bytes.subrange(offset + 8 * i, offset + 8 * i + 8),
        )
}

/// Reads the four pointers that lie one after another at `offset` in the
/// structure of `size` bytes at `address`.
fn read_pointers(region: &Region, address: u64, size: u64, offset: u64) -> (pointers: [ForeignPtr; 4])
    requires
        region.covers(address, size as int),
        offset + 32 <= size,
    ensures
        pointers_decode(pointers, region.span(address, size as int), offset as int),
{
    [
        ForeignPtr { address: region.field_u64(address, size, offset) },
        ForeignPtr { address: region.field_u64(address, size, offset + 8) },
        ForeignPtr { address: region.field_u64(address, size, offset + 16) },
        ForeignPtr { address: region.field_u64(address, size, offset + 24) },
    ]
}

/// The game's pad manager.
#[derive(Debug, Copy, Clone, PartialEq, Eq)]
pub struct FD4PadManager {
    /// The four sets of devices.
    pub unk18: [ForeignPtr; 4],
}

impl FD4PadManager {
    /// The number of bytes that the structure takes in the game's memory.
    pub const SIZE: u64 = 0x38;

    /// Where the pointers to the sets of devices lie in the structure.
    pub const UNK18_OFFSET: u64 = 0x18;

    /// Whether this structure is what the bytes of `bytes` say.
    pub open spec fn decodes(&self, bytes: Seq<u8>) -> bool {
        pointers_decode(self.unk18, bytes, 0x18)
    }

    /// Returns the byte layout of the structure.
    pub fn layout() -> (l: StructLayout)
        ensures
            l.wf(),
            l.spec_size() == FD4PadManager::SIZE,
            l.spec_align() == 8,
            l.spec_fields().len() == 5,
            l.spec_fields()[1].offset == FD4PadManager::UNK18_OFFSET,
            l.spec_fields()[4].offset == 0x30,
    {
        let l = StructLayout::new();
        let l = l.with(FieldKind::Opaque, 0x0, 0x17, 1);
        let l = l.with(FieldKind::Pointer, 0x18, 8, 8);
        let l = l.with(FieldKind::Pointer, 0x20, 8, 8);
        let l = l.with(FieldKind::Pointer, 0x28, 8, 8);
        let l = l.with(FieldKind::Pointer, 0x30, 8, 8);
        l.finish(0x38)
    }

    /// Reads the structure at `address`. `None` means that the region
    /// doesn't hold all of its bytes.
    pub fn read(region: &Region, address: u64) -> (r: Option<FD4PadManager>)
        ensures
            r is Some <==> region.covers(address, 0x38),
            r is Some ==> r->Some_0.decodes(region.span(address, 0x38)),
    {
        let size = FD4PadManager::SIZE;
        if !region.contains(address, size) {
            return None;
        }
        Some(FD4PadManager { unk18: read_pointers(region, address, size, 0x18) })
    }
}

/// One set of input devices of the pad manager.
#[derive(Debug, Copy, Clone, PartialEq, Eq)]
pub struct FD4PadManager0x18 {
    /// The devices of the set.
    pub devices: [ForeignPtr; 4],
}

impl FD4PadManager0x18 {
    /// The number of bytes that the structure takes in the game's memory.
    pub const SIZE: u64 = 0x28;

    /// Where the pointers to the devices lie in the structure.
    pub const DEVICES_OFFSET: u64 = 0x8;

    /// Whether this structure is what the bytes of `bytes` say.
    pub open spec fn decodes(&self, bytes: Seq<u8>) -> bool {
        pointers_decode(self.devices, bytes, 0x8)
    }

    /// Returns the byte layout of the structure.
    pub fn layout() -> (l: StructLayout)
        ensures
            l.wf(),
            l.spec_size() == FD4PadManager0x18::SIZE,
            l.spec_align() == 8,
            l.spec_fields().len() == 5,
            l.spec_fields()[1].offset == FD4PadManager0x18::DEVICES_OFFSET,
    {
        let l = StructLayout::new();
        let l = l.with(FieldKind::Pointer, 0x0, 8, 8);
        let l = l.with(FieldKind::Pointer, 0x8, 8, 8);
        let l = l.with(FieldKind::Pointer, 0x10, 8, 8);
        let l = l.with(FieldKind::Pointer, 0x18, 8, 8);
        let l = l.with(FieldKind::Pointer, 0x20, 8, 8);
        l.finish(0x28)
    }

    /// Reads the structure at `address`. `None` means that the region
    /// doesn't hold all of its bytes.
    pub fn read(region: &Region, address: u64) -> (r: Option<FD4PadManager0x18>)
        ensures
            r is Some <==> region.covers(address, 0x28),
            r is Some ==> r->Some_0.decodes(region.span(address, 0x28)),
    {
        let size = FD4PadManager0x18::SIZE;
        if !region.contains(address, size) {
            return None;
        }
        Some(FD4PadManager0x18 { devices: read_pointers(region, address, size, 0x8) })
    }
}

} // verus!
