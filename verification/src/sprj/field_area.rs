//! The part of the world that is loaded around the player.

use vstd::prelude::*;

use crate::shared::instance::{resolve, spec_resolve, InstanceResult};
use crate::shared::layout::{FieldKind, StructLayout};
use crate::shared::memory::{le_u64, Region};
use crate::shared::pointer::{ForeignPtr, OwnedPtr};

verus! {

/// The part of the world that is loaded around the player.
#[derive(Debug, Copy, Clone, PartialEq, Eq, Structural)]
pub struct FieldArea {
    /// The resources of the world, if a world is loaded.
    pub world_res: ForeignPtr,
}

impl FieldArea {
    /// The number of bytes that the structure takes in the game's memory.
    pub const SIZE: u64 = 0xf0;

    /// Whether this structure is what the bytes of `bytes` say.
    pub open spec fn decodes(&self, bytes: Seq<u8>) -> bool {
        self.world_res.address == le_u64(bytes.subrange(0x8, 0x10))
    }

    /// Returns the byte layout of the structure.
    pub fn layout() -> (l: StructLayout)
        ensures
            l.wf(),
            l.spec_size() == FieldArea::SIZE,
            l.spec_align() == 8,
            l.spec_fields().len() == 14,
            l.spec_fields()[1].offset == 0x8,
    {
        let l = StructLayout::new();
        let l = l.with(FieldKind::Pointer, 0x0, 8, 8);
        let l = l.with(FieldKind::Pointer, 0x8, 8, 8);
        let l = l.with(FieldKind::Pointer, 0x10, 8, 8);
        let l = l.with(FieldKind::Integer, 0x18, 8, 8);
        let l = l.with(FieldKind::Integer, 0x20, 4, 4);
        let l = l.with(FieldKind::Integer, 0x28, 8, 8);
        let l = l.with(FieldKind::Opaque, 0x30, 0x30, 1);
        let l = l.with(FieldKind::Integer, 0x60, 8, 8);
        let l = l.with(FieldKind::Integer, 0x68, 8, 8);
        let l = l.with(FieldKind::Pointer, 0x70, 8, 8);
        let l = l.with(FieldKind::Opaque, 0x78, 0x60, 1);
        let l = l.with(FieldKind::Pointer, 0xd8, 8, 8);
        let l = l.with(FieldKind::Pointer, 0xe0, 8, 8);
        let l = l.with(FieldKind::Opaque, 0xe8, 8, 1);
        l.finish(0xf0)
    }

    /// Reads the structure at `address`. `None` means that the region
    /// doesn't hold all of its bytes.
    pub fn read(region: &Region, address: u64) -> (r: Option<FieldArea>)
        ensures
            r is Some <==> region.covers(address, 0xf0),
            r is Some ==> r->Some_0.decodes(region.span(address, 0xf0)),
    {
        if !region.contains(address, FieldArea::SIZE) {
            return None;
        }
        Some(
            FieldArea {
                world_res: ForeignPtr { address: region.field_u64(address, FieldArea::SIZE, 0x8) },
            },
        )
    }

    /// Looks up the live field area behind its slot. See
    /// [`resolve`](crate::shared::instance::resolve).
    pub fn instance(slot: Option<u64>, region: &Region) -> (r: InstanceResult<OwnedPtr>)
        ensures
            r is Ok <==> spec_resolve(slot, region) is Ok,
            r is Ok ==> r->Ok_0@ == spec_resolve(slot, region)->Ok_0,
            r is Err ==> r->Err_0 == spec_resolve(slot, region)->Err_0,
    {
        resolve(slot, region)
    }

    /// Returns the resources of the world, or `None` while no world is
    /// loaded.
    pub fn world_res(&self) -> (r: Option<OwnedPtr>)
        ensures
            r is None <==> self.world_res.address == 0,
            r is Some ==> r->Some_0@ == self.world_res.address,
    {
        self.world_res.as_non_null()
    }

    /// Returns the resources of the world for a caller that changes them,
    /// or `None` while no world is loaded.
    pub fn world_res_mut(&self) -> (r: Option<OwnedPtr>)
        ensures
            r is None <==> self.world_res.address == 0,
            r is Some ==> r->Some_0@ == self.world_res.address,
    {
        self.world_res.as_non_null()
    }
}

} // verus!
