//! What the game knows about the areas and blocks of the world.

use vstd::prelude::*;

use crate::shared::empty::CountArray;
use crate::shared::layout::{FieldKind, StructLayout};
use crate::shared::memory::{le_u32, le_u64, Region};
use crate::shared::pointer::{ForeignPtr, OwnedPtr};

verus! {

/// The number of slots in the pool of areas.
pub const WORLD_AREA_CAPACITY: u32 = 0x14;

/// The number of slots in the pool of blocks.
pub const WORLD_BLOCK_CAPACITY: u32 = 0x20;

/// What the game knows about one area of the world.
#[derive(Debug, Copy, Clone, PartialEq, Eq, Structural)]
pub struct WorldAreaInfo {
    /// The area's number.
    pub area_number: u8,
    /// The [`WorldInfo`] that owns this area.
    pub owner: ForeignPtr,
}

impl WorldAreaInfo {
    /// The number of bytes that the structure takes in the game's memory.
    pub const SIZE: u64 = 0x38;

    /// Whether this structure is what the bytes of `bytes` say.
    pub open spec fn decodes(&self, bytes: Seq<u8>) -> bool {
        &&& self.area_number == bytes[0xb]
        &&& self.owner.address == le_u64(bytes.subrange(0x10, 0x18))
    }

    /// Returns the byte layout of the structure.
    pub fn layout() -> (l: StructLayout)
        ensures
            l.wf(),
            l.spec_size() == WorldAreaInfo::SIZE,
            l.spec_align() == 8,
            l.spec_fields().len() == 9,
            l.spec_fields()[2].offset == 0xb,
            l.spec_fields()[3].offset == 0x10,
    {
        let l = StructLayout::new();
        let l = l.with(FieldKind::Pointer, 0x0, 8, 8);
        let l = l.with(FieldKind::Opaque, 0x8, 3, 1);
        let l = l.with(FieldKind::Integer, 0xb, 1, 1);
        let l = l.with(FieldKind::Pointer, 0x10, 8, 8);
        let l = l.with(FieldKind::Integer, 0x18, 4, 4);
        let l = l.with(FieldKind::Integer, 0x1c, 4, 4);
        let l = l.with(FieldKind::Integer, 0x20, 4, 4);
        let l = l.with(FieldKind::Integer, 0x28, 8, 8);
        let l = l.with(FieldKind::Integer, 0x30, 1, 1);
        l.finish(0x38)
    }

    /// Reads the structure at `address`. `None` means that the region
    /// doesn't hold all of its bytes.
    pub fn read(region: &Region, address: u64) -> (r: Option<WorldAreaInfo>)
        ensures
            r is Some <==> region.covers(address, 0x38),
            r is Some ==> r->Some_0.decodes(region.span(address, 0x38)),
    {
        let size = WorldAreaInfo::SIZE;
        if !region.contains(address, size) {
            return None;
        }
        Some(
            WorldAreaInfo {
                area_number: region.field_u8(address, size, 0xb),
                owner: ForeignPtr { address: region.field_u64(address, size, 0x10) },
            },
        )
    }
}

/// What the game knows about one block of the world.
#[derive(Debug, Copy, Clone, PartialEq, Eq, Structural)]
pub struct WorldBlockInfo {
    /// The [`WorldInfo`] that owns this block.
    pub owner: ForeignPtr,
    /// The [`WorldAreaInfo`] that corresponds to this block, if any.
    pub world_area_info: ForeignPtr,
    /// The index of this block in the pool of blocks.
    pub world_block_index: u32,
}

impl WorldBlockInfo {
    /// The number of bytes that the structure takes in the game's memory.
    pub const SIZE: u64 = 0x70;

    /// Whether this structure is what the bytes of `bytes` say.
    pub open spec fn decodes(&self, bytes: Seq<u8>) -> bool {
        &&& self.owner.address == le_u64(bytes.subrange(0x10, 0x18))
        &&& self.world_area_info.address == le_u64(bytes.subrange(0x18, 0x20))
        &&& self.world_block_index == le_u32(bytes.subrange(0x20, 0x24))
    }

    /// Returns the byte layout of the structure.
    pub fn layout() -> (l: StructLayout)
        ensures
            l.wf(),
            l.spec_size() == WorldBlockInfo::SIZE,
            l.spec_align() == 8,
            l.spec_fields().len() == 17,
            l.spec_fields()[2].offset == 0x10,
            l.spec_fields()[3].offset == 0x18,
            l.spec_fields()[4].offset == 0x20,
    {
        let l = StructLayout::new();
        let l = l.with(FieldKind::Pointer, 0x0, 8, 8);
        let l = l.with(FieldKind::Integer, 0x8, 4, 4);
        let l = l.with(FieldKind::Pointer, 0x10, 8, 8);
        let l = l.with(FieldKind::Pointer, 0x18, 8, 8);
        let l = l.with(FieldKind::Integer, 0x20, 4, 4);
        let l = l.with(FieldKind::Integer, 0x24, 4, 4);
        let l = l.with(FieldKind::Pointer, 0x28, 8, 8);
        let l = l.with(FieldKind::Pointer, 0x30, 8, 8);
        let l = l.with(FieldKind::Pointer, 0x38, 8, 8);
        let l = l.with(FieldKind::Pointer, 0x40, 8, 8);
        let l = l.with(FieldKind::Pointer, 0x48, 8, 8);
        let l = l.with(FieldKind::Pointer, 0x50, 8, 8);
        let l = l.with(FieldKind::Pointer, 0x58, 8, 8);
        let l = l.with(FieldKind::Integer, 0x60, 1, 1);
        let l = l.with(FieldKind::Opaque, 0x61, 3, 1);
        let l = l.with(FieldKind::Integer, 0x64, 1, 1);
        let l = l.with(FieldKind::Integer, 0x68, 4, 4);
        l.finish(0x70)
    }

    /// Reads the structure at `address`. `None` means that the region
    /// doesn't hold all of its bytes.
    pub fn read(region: &Region, address: u64) -> (r: Option<WorldBlockInfo>)
        ensures
            r is Some <==> region.covers(address, 0x70),
            r is Some ==> r->Some_0.decodes(region.span(address, 0x70)),
    {
        let size = WorldBlockInfo::SIZE;
        if !region.contains(address, size) {
            return None;
        }
        Some(
            WorldBlockInfo {
                owner: ForeignPtr { address: region.field_u64(address, size, 0x10) },
                world_area_info: ForeignPtr { address: region.field_u64(address, size, 0x18) },
                world_block_index: region.field_u32(address, size, 0x20),
            },
        )
    }
}

/// What the game knows about the world: a pool of areas and a pool of
/// blocks, each with the number of its slots that are in use.
#[derive(Debug, Copy, Clone, PartialEq, Eq, Structural)]
pub struct WorldInfo {
    /// Where the structure itself lies. Its pools lie inside it.
    pub address: OwnedPtr,
    /// The number of defined entries in the pool of areas.
    pub world_area_info_count: u32,
    /// A pointer to the beginning of the pool of areas.
    pub world_area_info_list_ptr: ForeignPtr,
    /// The number of defined entries in the pool of blocks.
    pub world_block_info_count: u32,
    /// A pointer to the beginning of the pool of blocks.
    pub world_block_info_list_ptr: ForeignPtr,
}

impl WorldInfo {
    /// The number of bytes that the structure takes in the game's memory.
    pub const SIZE: u64 = 0x1298;

    /// Where the pool of areas lies in the structure.
    pub const WORLD_AREA_INFO_OFFSET: u64 = 0x30;

    /// Where the pool of blocks lies in the structure.
    pub const WORLD_BLOCK_INFO_OFFSET: u64 = 0x490;

    /// Whether this structure is what the bytes of `bytes` say.
    pub open spec fn decodes(&self, bytes: Seq<u8>) -> bool {
        &&& self.world_area_info_count == le_u32(bytes.subrange(0x8, 0xc))
        &&& self.world_area_info_list_ptr.address == le_u64(bytes.subrange(0x10, 0x18))
        &&& self.world_block_info_count == le_u32(bytes.subrange(0x18, 0x1c))
        &&& self.world_block_info_list_ptr.address == le_u64(bytes.subrange(0x20, 0x28))
    }

    /// Returns the byte layout of the structure.
    pub fn layout() -> (l: StructLayout)
        ensures
            l.wf(),
            l.spec_size() == WorldInfo::SIZE,
            l.spec_align() == 8,
            l.spec_fields().len() == 9,
            l.spec_fields()[6].offset == WorldInfo::WORLD_AREA_INFO_OFFSET,
            l.spec_fields()[6].size == WORLD_AREA_CAPACITY * WorldAreaInfo::SIZE,
            l.spec_fields()[7].offset == WorldInfo::WORLD_BLOCK_INFO_OFFSET,
            l.spec_fields()[7].size == WORLD_BLOCK_CAPACITY * WorldBlockInfo::SIZE,
    {
        let l = StructLayout::new();
        let l = l.with(FieldKind::Pointer, 0x0, 8, 8);
        let l = l.with(FieldKind::Integer, 0x8, 4, 4);
        let l = l.with(FieldKind::Pointer, 0x10, 8, 8);
        let l = l.with(FieldKind::Integer, 0x18, 4, 4);
        let l = l.with(FieldKind::Pointer, 0x20, 8, 8);
        let l = l.with(FieldKind::Integer, 0x28, 1, 1);
        let l = l.with(FieldKind::Nested, 0x30, 0x460, 8);
        let l = l.with(FieldKind::Nested, 0x490, 0xe00, 8);
        let l = l.with(FieldKind::Integer, 0x1290, 8, 8);
        l.finish(0x1298)
    }

    /// Reads the structure at `address`. `None` means that the address is
    /// null or that the region doesn't hold all of the structure's bytes.
    pub fn read(region: &Region, address: u64) -> (r: Option<WorldInfo>)
        ensures
            r is Some <==> address != 0 && region.covers(address, 0x1298),
            r is Some ==> r->Some_0.address@ == address && r->Some_0.decodes(
                region.span(address, 0x1298),
            ),
    {
        let size = WorldInfo::SIZE;
        let here = match OwnedPtr::try_new(address) {
            Some(here) => here,
            None => {
                return None;
            },
        };
        if !region.contains(address, size) {
            return None;
        }
        Some(
            WorldInfo {
                address: here,
                world_area_info_count: region.field_u32(address, size, 0x8),
                world_area_info_list_ptr: ForeignPtr {
                    address: region.field_u64(address, size, 0x10),
                },
                world_block_info_count: region.field_u32(address, size, 0x18),
                world_block_info_list_ptr: ForeignPtr {
                    address: region.field_u64(address, size, 0x20),
                },
            },
        )
    }

    /// Returns the areas that are defined: the first
    /// `world_area_info_count` slots of the pool of areas, which lies inside
    /// the structure. `None` means that the count is larger than the pool,
    /// or that the pool would end past the last address.
    pub fn world_area_info(&self) -> (r: Option<CountArray>)
        ensures
            r is Some <==> self.world_area_info_count <= WORLD_AREA_CAPACITY && self.address@
                + 0x490 <= u64::MAX,
            r is Some ==> {
                &&& r->Some_0.spec_head() == self.address@ + 0x30
                &&& r->Some_0.spec_count() == self.world_area_info_count
                &&& r->Some_0.spec_capacity() == WORLD_AREA_CAPACITY
                &&& r->Some_0.spec_stride() == WorldAreaInfo::SIZE
            },
    {
        match self.address.address().checked_add(WorldInfo::WORLD_AREA_INFO_OFFSET) {
            Some(head) => CountArray::new(
                head,
                self.world_area_info_count,
                WORLD_AREA_CAPACITY,
                0x38,
            ),
            None => None,
        }
    }

    /// Returns the blocks that are defined: the first
    /// `world_block_info_count` slots of the pool of blocks, which lies
    /// inside the structure. `None` means that the count is larger than the
    /// pool, or that the pool would end past the last address.
    pub fn world_block_info(&self) -> (r: Option<CountArray>)
        ensures
            r is Some <==> self.world_block_info_count <= WORLD_BLOCK_CAPACITY && self.address@
                + 0x1290 <= u64::MAX,
            r is Some ==> {
                &&& r->Some_0.spec_head() == self.address@ + 0x490
                &&& r->Some_0.spec_count() == self.world_block_info_count
                &&& r->Some_0.spec_capacity() == WORLD_BLOCK_CAPACITY
                &&& r->Some_0.spec_stride() == WorldBlockInfo::SIZE
            },
    {
        match self.address.address().checked_add(WorldInfo::WORLD_BLOCK_INFO_OFFSET) {
            Some(head) => CountArray::new(
                head,
                self.world_block_info_count,
                WORLD_BLOCK_CAPACITY,
                0x70,
            ),
            None => None,
        }
    }
}

/// The owner of the information about the world, with the resources that
/// belong to its areas and blocks.
#[derive(Debug, Copy, Clone, PartialEq, Eq, Structural)]
pub struct WorldInfoOwner {
    /// The information about the world, which lies at the start of the
    /// owner.
    pub super_world_info: WorldInfo,
    /// The number of defined entries in the pool of area resources.
    pub world_area_res_count: u32,
    /// A pointer to the beginning of the pool of area resources.
    pub world_area_res_list_ptr: ForeignPtr,
    /// The number of defined entries in the pool of block resources.
    pub world_block_res_count: u32,
    /// A pointer to the beginning of the pool of block resources.
    pub world_block_res_list_ptr: ForeignPtr,
}

impl WorldInfoOwner {
    /// The number of bytes that the structure takes in the game's memory.
    pub const SIZE: u64 = 0xae90;

    /// The number of bytes that the resources of one area take.
    pub const WORLD_AREA_RES_SIZE: u64 = 0x108;

    /// The number of bytes that the resources of one block take.
    pub const WORLD_BLOCK_RES_SIZE: u64 = 0x438;

    /// Where the pool of area resources lies in the structure.
    pub const WORLD_AREA_RES_OFFSET: u64 = 0x12e0;

    /// Where the pool of block resources lies in the structure.
    pub const WORLD_BLOCK_RES_OFFSET: u64 = 0x2780;

    /// Whether this structure is what the bytes of `bytes` say.
    pub open spec fn decodes(&self, bytes: Seq<u8>) -> bool {
        &&& self.super_world_info.decodes(bytes.subrange(0x0, 0x1298))
        &&& self.world_area_res_count == le_u32(bytes.subrange(0x12a0, 0x12a4))
        &&& self.world_area_res_list_ptr.address == le_u64(bytes.subrange(0x12a8, 0x12b0))
        &&& self.world_block_res_count == le_u32(bytes.subrange(0x12b8, 0x12bc))
        &&& self.world_block_res_list_ptr.address == le_u64(bytes.subrange(0x12c0, 0x12c8))
    }

    /// Returns the byte layout of the structure.
    pub fn layout() -> (l: StructLayout)
        ensures
            l.wf(),
            l.spec_size() == WorldInfoOwner::SIZE,
            l.spec_align() == 8,
            l.spec_fields().len() == 15,
            l.spec_fields()[0].size == WorldInfo::SIZE,
            l.spec_fields()[11].offset == WorldInfoOwner::WORLD_AREA_RES_OFFSET,
            l.spec_fields()[11].size == WORLD_AREA_CAPACITY * WorldInfoOwner::WORLD_AREA_RES_SIZE,
            l.spec_fields()[12].offset == WorldInfoOwner::WORLD_BLOCK_RES_OFFSET,
            l.spec_fields()[12].size == WORLD_BLOCK_CAPACITY
                * WorldInfoOwner::WORLD_BLOCK_RES_SIZE,
    {
        let l = StructLayout::new();
        let l = l.with(FieldKind::Nested, 0x0, 0x1298, 8);
        let l = l.with(FieldKind::Integer, 0x1298, 8, 8);
        let l = l.with(FieldKind::Integer, 0x12a0, 4, 4);
        let l = l.with(FieldKind::Pointer, 0x12a8, 8, 8);
        let l = l.with(FieldKind::Integer, 0x12b0, 4, 4);
        let l = l.with(FieldKind::Integer, 0x12b4, 4, 4);
        let l = l.with(FieldKind::Integer, 0x12b8, 4, 4);
        let l = l.with(FieldKind::Pointer, 0x12c0, 8, 8);
        let l = l.with(FieldKind::Integer, 0x12c8, 8, 8);
        let l = l.with(FieldKind::Integer, 0x12d0, 8, 8);
        let l = l.with(FieldKind::Integer, 0x12d8, 8, 8);
        let l = l.with(FieldKind::Opaque, 0x12e0, 0x14a0, 1);
        let l = l.with(FieldKind::Opaque, 0x2780, 0x8700, 1);
        let l = l.with(FieldKind::Integer, 0xae80, 8, 8);
        let l = l.with(FieldKind::Integer, 0xae88, 8, 8);
        l.finish(0xae90)
    }

    /// Reads the structure at `address`. `None` means that the address is
    /// null or that the region doesn't hold all of the structure's bytes.
    pub fn read(region: &Region, address: u64) -> (r: Option<WorldInfoOwner>)
        ensures
            r is Some <==> address != 0 && region.covers(address, 0xae90),
            r is Some ==> r->Some_0.super_world_info.address@ == address && r->Some_0.decodes(
                region.span(address, 0xae90),
            ),
    {
        let size = WorldInfoOwner::SIZE;
        if !region.contains(address, size) {
            return None;
        }
        proof {
            region.lemma_field_span(address, 0xae90, 0x0, 0x1298);
        }
        match WorldInfo::read(region, address) {
            Some(super_world_info) => Some(
                WorldInfoOwner {
                    super_world_info,
                    world_area_res_count: region.field_u32(address, size, 0x12a0),
                    world_area_res_list_ptr: ForeignPtr {
                        address: region.field_u64(address, size, 0x12a8),
                    },
                    world_block_res_count: region.field_u32(address, size, 0x12b8),
                    world_block_res_list_ptr: ForeignPtr {
                        address: region.field_u64(address, size, 0x12c0),
                    },
                },
            ),
            None => None,
        }
    }
}

} // verus!
