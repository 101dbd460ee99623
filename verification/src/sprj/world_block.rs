//! The characters of one block of the world.

use vstd::prelude::*;

use crate::shared::empty::IsEmpty;
use crate::shared::layout::{FieldKind, StructLayout};
use crate::shared::memory::{le_i32, le_u32, le_u64, Region};
use crate::shared::pointer::ForeignPtr;
use crate::sprj::field_ins::{selector_type_code, FieldInsSelector};
use crate::sprj::world_chr_man::{leading_pointer, ChrSet};

verus! {

/// The characters of one block of the world.
#[derive(Debug, Copy, Clone, PartialEq, Eq, Structural)]
pub struct WorldBlockChr {
    /// The set of character entities associated with this block.
    pub chr_set: ChrSet,
    /// The number of mappings.
    pub mappings_length: i32,
    /// Mappings from entity IDs to selectors.
    pub mappings: ForeignPtr,
}

impl WorldBlockChr {
    /// The number of bytes that the structure takes in the game's memory.
    pub const SIZE: u64 = 0x138;

    /// Where the set of characters lies in the structure.
    pub const CHR_SET_OFFSET: u64 = 0x80;

    /// Whether this structure is what the bytes of `bytes` say.
    pub open spec fn decodes(&self, bytes: Seq<u8>) -> bool {
        &&& self.chr_set.decodes(bytes.subrange(0x80, 0x98))
        &&& self.mappings_length == le_i32(bytes.subrange(0xa8, 0xac))
        &&& self.mappings.address == le_u64(bytes.subrange(0xb0, 0xb8))
    }

    /// Returns the byte layout of the structure.
    pub fn layout() -> (l: StructLayout)
        ensures
            l.wf(),
            l.spec_size() == WorldBlockChr::SIZE,
            l.spec_align() == 8,
            l.spec_fields().len() == 12,
            l.spec_fields()[3].offset == WorldBlockChr::CHR_SET_OFFSET,
            l.spec_fields()[3].size == ChrSet::SIZE,
    {
        let l = StructLayout::new();
        let l = l.with(FieldKind::Pointer, 0x0, 8, 8);
        let l = l.with(FieldKind::Integer, 0x8, 0x70, 8);
        let l = l.with(FieldKind::Integer, 0x78, 4, 4);
        let l = l.with(FieldKind::Nested, 0x80, 0x18, 8);
        let l = l.with(FieldKind::Integer, 0x98, 4, 4);
        let l = l.with(FieldKind::Integer, 0xa0, 8, 8);
        let l = l.with(FieldKind::Integer, 0xa8, 4, 4);
        let l = l.with(FieldKind::Pointer, 0xb0, 8, 8);
        let l = l.with(FieldKind::Integer, 0xb8, 4, 4);
        let l = l.with(FieldKind::Integer, 0xc0, 0x28, 8);
        let l = l.with(FieldKind::Opaque, 0xe8, 0x48, 1);
        let l = l.with(FieldKind::Integer, 0x130, 4, 4);
        l.finish(0x138)
    }

    /// Reads the structure at `address`. `None` means that the region
    /// doesn't hold all of its bytes.
    pub fn read(region: &Region, address: u64) -> (r: Option<WorldBlockChr>)
        ensures
            r is Some <==> region.covers(address, 0x138),
            r is Some ==> r->Some_0.decodes(region.span(address, 0x138)),
    {
        let size = WorldBlockChr::SIZE;
        if !region.contains(address, size) {
            return None;
        }
        proof {
            region.lemma_field_span(address, 0x138, 0x80, 0x18);
        }
        match ChrSet::read(region, address + 0x80) {
            Some(chr_set) => Some(
                WorldBlockChr {
                    chr_set,
                    mappings_length: region.field_i32(address, size, 0xa8),
                    mappings: ForeignPtr { address: region.field_u64(address, size, 0xb0) },
                },
            ),
            None => None,
        }
    }
}

impl IsEmpty for WorldBlockChr {
    open spec fn spec_stride() -> u64 {
        0x138
    }

    /// A slot is empty when the pointer at its start is null.
    open spec fn spec_is_empty(slot: Seq<u8>) -> bool {
        le_u64(slot.subrange(0, 8)) == 0
    }

    fn stride() -> (s: u64) {
        WorldBlockChr::SIZE
    }

    fn is_empty(slot: &[u8]) -> (b: bool) {
        leading_pointer(slot) == 0
    }
}

/// A mapping from an entity ID to a [`FieldInsSelector`].
#[derive(Debug, Copy, Clone, PartialEq, Eq, Structural)]
pub struct WorldBlockMapping {
    /// The entity this mapping refers to.
    pub entity_id: i32,
    /// The selector corresponding to this entity ID.
    pub selector: FieldInsSelector,
}

impl WorldBlockMapping {
    /// The number of bytes that one mapping takes in the game's memory.
    pub const SIZE: u64 = 0x8;

    /// Whether this mapping is what the bytes of `bytes` say.
    pub open spec fn decodes(&self, bytes: Seq<u8>) -> bool {
        &&& self.entity_id == le_i32(bytes.subrange(0x0, 0x4))
        &&& self.selector@ == le_u32(bytes.subrange(0x4, 0x8))
    }

    /// Reads the mapping at `address`. `None` means that the region doesn't
    /// hold all of its bytes, or that the selector in it names no kind of
    /// entity.
    pub fn read(region: &Region, address: u64) -> (r: Option<WorldBlockMapping>)
        ensures
            r is Some <==> region.covers(address, 0x8) && selector_type_code(
                le_u32(region.span(address, 0x8).subrange(0x4, 0x8)) as u32,
            ) < 4,
            r is Some ==> r->Some_0.decodes(region.span(address, 0x8)),
    {
        if !region.contains(address, WorldBlockMapping::SIZE) {
            return None;
        }
        let entity_id = region.field_i32(address, WorldBlockMapping::SIZE, 0x0);
        match FieldInsSelector::from_raw(region.field_u32(address, WorldBlockMapping::SIZE, 0x4)) {
            Some(selector) => Some(WorldBlockMapping { entity_id, selector }),
            None => None,
        }
    }
}

} // verus!
