//! The characters in the world and the sets that hold them.

use vstd::prelude::*;

use crate::shared::empty::{IsEmpty, NonEmptyIter, NonEmptyIterMut, SlotPool};
use crate::shared::layout::{FieldKind, StructLayout};
use crate::shared::memory::{le_i32, le_u32, le_u64, Region};
use crate::shared::pointer::{ForeignPtr, OwnedPtr};
use crate::sprj::world_block::WorldBlockChr;

verus! {

/// One slot of a [`ChrSet`]. A slot is empty while its character pointer is
/// null.
#[derive(Debug, Copy, Clone, PartialEq, Eq, Structural)]
pub struct ChrSetEntry {
    /// The character this entry refers to.
    pub chr: OwnedPtr,
}

impl ChrSetEntry {
    /// The number of bytes that one entry takes in the game's memory.
    pub const SIZE: u64 = 0x38;

    /// Returns the byte layout of an entry.
    pub fn layout() -> (l: StructLayout)
        ensures
            l.wf(),
            l.spec_size() == ChrSetEntry::SIZE,
            l.spec_align() == 8,
            l.spec_fields().len() == 7,
            l.spec_fields()[0].offset == 0,
            l.spec_fields()[0].kind == FieldKind::Pointer,
    {
        let l = StructLayout::new();
        let l = l.with(FieldKind::Pointer, 0x0, 8, 8);
        let l = l.with(FieldKind::Integer, 0x8, 4, 4);
        let l = l.with(FieldKind::Integer, 0x10, 8, 8);
        let l = l.with(FieldKind::Pointer, 0x18, 8, 8);
        let l = l.with(FieldKind::Integer, 0x20, 8, 8);
        let l = l.with(FieldKind::Pointer, 0x28, 8, 8);
        let l = l.with(FieldKind::Pointer, 0x30, 8, 8);
        l.finish(0x38)
    }
}

impl IsEmpty for ChrSetEntry {
    open spec fn spec_stride() -> u64 {
        0x38
    }

    /// A slot is empty when the character pointer at its start is null.
    open spec fn spec_is_empty(slot: Seq<u8>) -> bool {
        le_u64(slot.subrange(0, 8)) == 0
    }

    fn stride() -> (s: u64) {
        ChrSetEntry::SIZE
    }

    fn is_empty(slot: &[u8]) -> (b: bool) {
        leading_pointer(slot) == 0
    }
}

/// Decodes the pointer in the first eight bytes of a slot.
pub fn leading_pointer(slot: &[u8]) -> (address: u64)
    requires
        slot@.len() >= 8,
    ensures
        address == le_u64(slot@.subrange(0, 8)),
{
    let low: u64 = slot[0] as u64 + slot[1] as u64 * 0x100 + slot[2] as u64 * 0x1_0000 + slot[3] as u64
        * 0x100_0000;
    let high: u64 = slot[4] as u64 + slot[5] as u64 * 0x100 + slot[6] as u64 * 0x1_0000
        + slot[7] as u64 * 0x100_0000;
    proof {
        let first = slot@.subrange(0, 8);
        assert(first.subrange(0, 4) =~= slot@.subrange(0, 4));
        assert(first.subrange(4, 8) =~= slot@.subrange(4, 8));
    }
    low + high * 0x1_0000_0000
}

/// A set of characters: a pool of slots of which only some hold one.
#[derive(Debug, Copy, Clone, PartialEq, Eq, Structural)]
pub struct ChrSet {
    /// The number of slots. Not every slot within this capacity holds a
    /// character.
    pub capacity: u32,
    /// The first slot.
    pub entries: ForeignPtr,
}

impl ChrSet {
    /// The number of bytes that the set's header takes in the game's memory.
    pub const SIZE: u64 = 0x18;

    /// Whether this header is what the bytes of `bytes` say.
    pub open spec fn decodes(&self, bytes: Seq<u8>) -> bool {
        &&& self.capacity == le_u32(bytes.subrange(0x0, 0x4))
        &&& self.entries.address == le_u64(bytes.subrange(0x8, 0x10))
    }

    /// Whether the slots can be described: they don't end past the last
    /// address.
    pub open spec fn pool_fits(&self) -> bool {
        self.entries.address + self.capacity * 0x38 <= u64::MAX
    }

    /// Returns the byte layout of the header.
    pub fn layout() -> (l: StructLayout)
        ensures
            l.wf(),
            l.spec_size() == ChrSet::SIZE,
            l.spec_align() == 8,
            l.spec_fields().len() == 3,
    {
        let l = StructLayout::new();
        let l = l.with(FieldKind::Integer, 0x0, 4, 4);
        let l = l.with(FieldKind::Pointer, 0x8, 8, 8);
        let l = l.with(FieldKind::Integer, 0x10, 4, 4);
        l.finish(0x18)
    }

    /// Reads the header at `address`. `None` means that the region doesn't
    /// hold all of its bytes.
    pub fn read(region: &Region, address: u64) -> (r: Option<ChrSet>)
        ensures
            r is Some <==> region.covers(address, 0x18),
            r is Some ==> r->Some_0.decodes(region.span(address, 0x18)),
    {
        if !region.contains(address, ChrSet::SIZE) {
            return None;
        }
        Some(
            ChrSet {
                capacity: region.field_u32(address, ChrSet::SIZE, 0x0),
                entries: ForeignPtr { address: region.field_u64(address, ChrSet::SIZE, 0x8) },
            },
        )
    }

    /// Returns the slots of the set, whether or not they're empty, as a
    /// pool. `None` means that the slots would end past the last address.
    pub fn entries(&self) -> (r: Option<SlotPool<ChrSetEntry>>)
        ensures
            r is Some <==> self.pool_fits(),
            r is Some ==> r->Some_0.spec_head() == self.entries.address
                && r->Some_0.spec_capacity() == self.capacity,
    {
        SlotPool::new(self.entries.address, self.capacity)
    }

    /// Returns the slots of the set as a pool, for a caller that is going to
    /// change them. The pool is that of [`ChrSet::entries`]: a slot is
    /// changed by writing to the region at the address that the pool gives
    /// for it.
    pub fn entries_mut(&self) -> (r: Option<SlotPool<ChrSetEntry>>)
        ensures
            r is Some <==> self.pool_fits(),
            r is Some ==> r->Some_0.spec_head() == self.entries.address
                && r->Some_0.spec_capacity() == self.capacity,
    {
        self.entries()
    }

    /// Starts a walk over the characters in this set. `None` means that the
    /// region doesn't hold every slot.
    pub fn iter<'a>(&self, region: &'a Region) -> (r: Option<ChrSetIter<'a>>)
        ensures
            r is Some <==> self.pool_fits() && region.covers(
                self.entries.address,
                self.capacity * 0x38,
            ),
            r is Some ==> {
                let walk = r->Some_0.walk();
                &&& walk.spec_region() == region
                &&& walk.spec_position() == 0
                &&& walk.spec_pool().spec_head() == self.entries.address
                &&& walk.spec_pool().spec_capacity() == self.capacity
            },
    {
        match self.entries() {
            Some(pool) => match NonEmptyIter::new(pool, region) {
                Some(walk) => Some(ChrSetIter { walk }),
                None => None,
            },
            None => None,
        }
    }

    /// Starts a walk over the characters in this set for a caller that
    /// changes them as it goes. `None` means that the slots would end past
    /// the last address.
    pub fn iter_mut(&self) -> (r: Option<ChrSetIterMut>)
        ensures
            r is Some <==> self.pool_fits(),
            r is Some ==> {
                let walk = r->Some_0.walk();
                &&& walk.spec_position() == 0
                &&& walk.spec_pool().spec_head() == self.entries.address
                &&& walk.spec_pool().spec_capacity() == self.capacity
            },
    {
        match self.entries() {
            Some(pool) => Some(ChrSetIterMut { walk: NonEmptyIterMut::new(pool) }),
            None => None,
        }
    }
}

/// Reads the character pointer of slot `index` of `pool`, which is known to
/// hold a character.
fn read_chr(pool: &SlotPool<ChrSetEntry>, region: &Region, index: u32) -> (chr: OwnedPtr)
    requires
        index < pool.spec_capacity(),
        pool.mapped(region),
        pool.occupied(region, index as int),
    ensures
        chr@ == le_u64(region.span(pool.slot_address(index as int) as u64, 0x38).subrange(0, 8)),
{
    let address = pool.address_of(index);
    let held = region.field_u64(address, ChrSetEntry::SIZE, 0);
    OwnedPtr::new(held)
}

/// A walk over the characters of a [`ChrSet`], in the order of their slots.
#[derive(Debug)]
pub struct ChrSetIter<'a> {
    walk: NonEmptyIter<'a, ChrSetEntry>,
}

impl<'a> ChrSetIter<'a> {
    /// The walk over the slots.
    pub closed spec fn walk(&self) -> NonEmptyIter<'a, ChrSetEntry> {
        self.walk
    }

    /// Moves to the next slot that holds a character and returns the
    /// character, or returns `None` once no such slot is left.
    pub fn next(&mut self) -> (r: Option<OwnedPtr>)
        ensures
            final(self).walk().spec_pool() == old(self).walk().spec_pool(),
            final(self).walk().spec_region() == old(self).walk().spec_region(),
            r is None <==> old(self).walk().remaining().len() == 0,
            r is None ==> final(self).walk().remaining().len() == 0,
            r is Some ==> {
                &&& r->Some_0@ == le_u64(
                    old(self).walk().spec_region().span(
                        old(self).walk().spec_pool().slot_address(
                            old(self).walk().remaining()[0],
                        ) as u64,
                        0x38,
                    ).subrange(0, 8),
                )
                &&& final(self).walk().remaining() == old(self).walk().remaining().drop_first()
            },
    {
        match self.walk.next() {
            Some(index) => Some(read_chr(self.walk.pool(), self.walk.region(), index)),
            None => None,
        }
    }
}

/// A walk over the characters of a [`ChrSet`] for a caller that changes them
/// as it goes. Each step is handed the region as it is then.
#[derive(Debug)]
pub struct ChrSetIterMut {
    walk: NonEmptyIterMut<ChrSetEntry>,
}

impl ChrSetIterMut {
    /// The walk over the slots.
    pub closed spec fn walk(&self) -> NonEmptyIterMut<ChrSetEntry> {
        self.walk
    }

    /// Moves to the next slot that holds a character in `region` and returns
    /// the character, or returns `None` once no such slot is left.
    pub fn next(&mut self, region: &Region) -> (r: Option<OwnedPtr>)
        requires
            old(self).walk().spec_pool().mapped(region),
        ensures
            final(self).walk().spec_pool() == old(self).walk().spec_pool(),
            r is None <==> old(self).walk().remaining(region).len() == 0,
            r is None ==> final(self).walk().remaining(region).len() == 0 && final(self).walk().spec_position() == old(self).walk().spec_pool().spec_capacity(),
            r is Some ==> {
                &&& r->Some_0@ == le_u64(
                    region.span(
                        old(self).walk().spec_pool().slot_address(
                            old(self).walk().remaining(region)[0],
                        ) as u64,
                        0x38,
                    ).subrange(0, 8),
                )
                &&& final(self).walk().remaining(region) == old(self).walk().remaining(
                    region,
                ).drop_first()
            },
    {
        match self.walk.next(region) {
            Some(index) => Some(read_chr(self.walk.pool(), region, index)),
            None => None,
        }
    }
}

/// A part of the world's characters that belongs to one area.
#[derive(Debug, Copy, Clone, PartialEq, Eq, Structural)]
pub struct WorldAreaChr {}

impl WorldAreaChr {
    /// The number of bytes that the structure takes in the game's memory.
    pub const SIZE: u64 = 0x20;

    /// Returns the byte layout of the structure.
    pub fn layout() -> (l: StructLayout)
        ensures
            l.wf(),
            l.spec_size() == WorldAreaChr::SIZE,
            l.spec_align() == 8,
            l.spec_fields().len() == 4,
    {
        let l = StructLayout::new();
        let l = l.with(FieldKind::Pointer, 0x0, 8, 8);
        let l = l.with(FieldKind::Integer, 0x8, 8, 8);
        let l = l.with(FieldKind::Integer, 0x10, 4, 4);
        let l = l.with(FieldKind::Integer, 0x18, 8, 8);
        l.finish(0x20)
    }
}

/// A walk over the non-empty [`WorldBlockChr`]s of a [`WorldChrMan`].
pub type WorldBlockChrIter<'a> = NonEmptyIter<'a, WorldBlockChr>;

/// A walk over the non-empty [`WorldBlockChr`]s of a [`WorldChrMan`] for a
/// caller that changes them as it goes.
pub type WorldBlockChrIterMut = NonEmptyIterMut<WorldBlockChr>;

/// The manager of all characters in the world.
#[derive(Debug, Copy, Clone, PartialEq, Eq, Structural)]
pub struct WorldChrMan {
    /// Where the manager itself lies. Its pools lie inside it.
    pub address: OwnedPtr,
    /// The owner of the information about the world's areas and blocks.
    pub world_info_owner: ForeignPtr,
    /// The number of defined entries in the pool of area characters.
    pub world_area_chr_count: u32,
    /// A pointer to the beginning of the pool of area characters.
    pub world_area_chr_ptr: ForeignPtr,
    /// The number of defined entries in the pool of block characters.
    pub world_block_chr_count: u32,
    /// A pointer to the beginning of the pool of block characters.
    pub world_block_chr_ptr: ForeignPtr,
    /// All human players.
    pub player_chr_set: ChrSet,
    /// Bloodstain and replay ghosts.
    pub ghost_chr_set: ChrSet,
    /// Debug characters. This doesn't seem to be populated in normal
    /// gameplay.
    pub debug_chr_set: ChrSet,
    /// The local player, if there is one.
    pub main_player: ForeignPtr,
    /// The number of loaded block characters.
    pub loaded_world_block_chr_count: i32,
}

impl WorldChrMan {
    /// The number of bytes that the structure takes in the game's memory.
    pub const SIZE: u64 = 0x3580;

    /// Where the pool of area characters lies in the structure.
    pub const WORLD_AREA_CHR_OFFSET: u64 = 0x660;

    /// The number of slots in the pool of area characters.
    pub const WORLD_AREA_CHR_CAPACITY: u32 = 20;

    /// Where the pool of block characters lies in the structure.
    pub const WORLD_BLOCK_CHR_OFFSET: u64 = 0x8e0;

    /// The number of slots in the pool of block characters.
    pub const WORLD_BLOCK_CHR_CAPACITY: u32 = 32;

    /// Whether this structure is what the bytes of `bytes` say.
    pub open spec fn decodes(&self, bytes: Seq<u8>) -> bool {
        &&& self.world_info_owner.address == le_u64(bytes.subrange(0x8, 0x10))
        &&& self.world_area_chr_count == le_u32(bytes.subrange(0x10, 0x14))
        &&& self.world_area_chr_ptr.address == le_u64(bytes.subrange(0x18, 0x20))
        &&& self.world_block_chr_count == le_u32(bytes.subrange(0x20, 0x24))
        &&& self.world_block_chr_ptr.address == le_u64(bytes.subrange(0x28, 0x30))
        &&& self.player_chr_set.decodes(bytes.subrange(0x38, 0x50))
        &&& self.ghost_chr_set.decodes(bytes.subrange(0x50, 0x68))
        &&& self.debug_chr_set.decodes(bytes.subrange(0x68, 0x80))
        &&& self.main_player.address == le_u64(bytes.subrange(0x80, 0x88))
        &&& self.loaded_world_block_chr_count == le_i32(bytes.subrange(0xc0, 0xc4))
    }

    /// Returns the byte layout of the structure.
    pub fn layout() -> (l: StructLayout)
        ensures
            l.wf(),
            l.spec_size() == WorldChrMan::SIZE,
            l.spec_align() == 8,
            l.spec_fields().len() == 52,
            l.spec_fields()[7].offset == 0x38,
            l.spec_fields()[7].size == ChrSet::SIZE,
            l.spec_fields()[29].offset == WorldChrMan::WORLD_AREA_CHR_OFFSET,
            l.spec_fields()[29].size == WorldChrMan::WORLD_AREA_CHR_CAPACITY * WorldAreaChr::SIZE,
            l.spec_fields()[30].offset == WorldChrMan::WORLD_BLOCK_CHR_OFFSET,
            l.spec_fields()[30].size == WorldChrMan::WORLD_BLOCK_CHR_CAPACITY
                * WorldBlockChr::SIZE,
    {
        let l = StructLayout::new();
        let l = l.with(FieldKind::Pointer, 0x0, 8, 8);
        let l = l.with(FieldKind::Pointer, 0x8, 8, 8);
        let l = l.with(FieldKind::Integer, 0x10, 4, 4);
        let l = l.with(FieldKind::Pointer, 0x18, 8, 8);
        let l = l.with(FieldKind::Integer, 0x20, 4, 4);
        let l = l.with(FieldKind::Pointer, 0x28, 8, 8);
        let l = l.with(FieldKind::Integer, 0x30, 4, 4);
        let l = l.with(FieldKind::Nested, 0x38, 0x18, 8);
        let l = l.with(FieldKind::Nested, 0x50, 0x18, 8);
        let l = l.with(FieldKind::Nested, 0x68, 0x18, 8);
        let l = l.with(FieldKind::Pointer, 0x80, 8, 8);
        let l = l.with(FieldKind::Pointer, 0x88, 8, 8);
        let l = l.with(FieldKind::Integer, 0x90, 2, 2);
        let l = l.with(FieldKind::Opaque, 0x92, 0xd, 1);
        let l = l.with(FieldKind::Integer, 0xa0, 8, 8);
        let l = l.with(FieldKind::Integer, 0xa8, 8, 8);
        let l = l.with(FieldKind::Integer, 0xb0, 8, 8);
        let l = l.with(FieldKind::Integer, 0xb8, 8, 8);
        let l = l.with(FieldKind::Integer, 0xc0, 4, 4);
        let l = l.with(FieldKind::Pointer, 0xc8, 0x100, 8);
        let l = l.with(FieldKind::Integer, 0x1c8, 4, 4);
        let l = l.with(FieldKind::Opaque, 0x1cc, 0x348, 1);
        let l = l.with(FieldKind::Opaque, 0x514, 0x118, 1);
        let l = l.with(FieldKind::Pointer, 0x630, 8, 8);
        let l = l.with(FieldKind::Pointer, 0x638, 8, 8);
        let l = l.with(FieldKind::Pointer, 0x640, 8, 8);
        let l = l.with(FieldKind::Pointer, 0x648, 8, 8);
        let l = l.with(FieldKind::Pointer, 0x650, 8, 8);
        let l = l.with(FieldKind::Integer, 0x658, 8, 8);
        let l = l.with(FieldKind::Nested, 0x660, 0x280, 8);
        let l = l.with(FieldKind::Nested, 0x8e0, 0x2700, 8);
        let l = l.with(FieldKind::Integer, 0x2fe0, 8, 8);
        let l = l.with(FieldKind::Integer, 0x2fe8, 8, 8);
        let l = l.with(FieldKind::Integer, 0x2ff0, 4, 4);
        let l = l.with(FieldKind::Nested, 0x2ff8, 0x20, 8);
        let l = l.with(FieldKind::Pointer, 0x3018, 8, 8);
        let l = l.with(FieldKind::Pointer, 0x3020, 8, 8);
        let l = l.with(FieldKind::Integer, 0x3028, 8, 8);
        let l = l.with(FieldKind::Integer, 0x3030, 8, 8);
        let l = l.with(FieldKind::Pointer, 0x3038, 8, 8);
        let l = l.with(FieldKind::Integer, 0x3040, 4, 4);
        let l = l.with(FieldKind::Integer, 0x3044, 4, 4);
        let l = l.with(FieldKind::Integer, 0x3048, 2, 2);
        let l = l.with(FieldKind::Nested, 0x3050, 0x20, 8);
        let l = l.with(FieldKind::Integer, 0x3070, 8, 8);
        let l = l.with(FieldKind::Integer, 0x3078, 8, 8);
        let l = l.with(FieldKind::Integer, 0x3080, 8, 8);
        let l = l.with(FieldKind::Integer, 0x3088, 0x118, 8);
        let l = l.with(FieldKind::Integer, 0x31a0, 8, 8);
        let l = l.with(FieldKind::Opaque, 0x31a8, 0x240, 1);
        let l = l.with(FieldKind::Integer, 0x33e8, 4, 4);
        let l = l.with(FieldKind::Opaque, 0x33ec, 0x190, 1);
        let l = l.finish(0x3580);
        l
    }

    /// Reads the structure at `address`. `None` means that the address is
    /// null or that the region doesn't hold all of the structure's bytes.
    pub fn read(region: &Region, address: u64) -> (r: Option<WorldChrMan>)
        ensures
            r is Some <==> address != 0 && region.covers(address, 0x3580),
            r is Some ==> r->Some_0.address@ == address && r->Some_0.decodes(
                region.span(address, 0x3580),
            ),
    {
        let size = WorldChrMan::SIZE;
        let here = match OwnedPtr::try_new(address) {
            Some(here) => here,
            None => {
                return None;
            },
        };
        if !region.contains(address, size) {
            return None;
        }
        proof {
            region.lemma_field_span(address, 0x3580, 0x38, 0x18);
            region.lemma_field_span(address, 0x3580, 0x50, 0x18);
            region.lemma_field_span(address, 0x3580, 0x68, 0x18);
        }
        let player_chr_set = ChrSet::read(region, address + 0x38);
        let ghost_chr_set = ChrSet::read(region, address + 0x50);
        let debug_chr_set = ChrSet::read(region, address + 0x68);
        match (player_chr_set, ghost_chr_set, debug_chr_set) {
            (Some(player_chr_set), Some(ghost_chr_set), Some(debug_chr_set)) => Some(
                WorldChrMan {
                    address: here,
                    world_info_owner: ForeignPtr { address: region.field_u64(address, size, 0x8) },
                    world_area_chr_count: region.field_u32(address, size, 0x10),
                    world_area_chr_ptr: ForeignPtr {
                        address: region.field_u64(address, size, 0x18),
                    },
                    world_block_chr_count: region.field_u32(address, size, 0x20),
                    world_block_chr_ptr: ForeignPtr {
                        address: region.field_u64(address, size, 0x28),
                    },
                    player_chr_set,
                    ghost_chr_set,
                    debug_chr_set,
                    main_player: ForeignPtr { address: region.field_u64(address, size, 0x80) },
                    loaded_world_block_chr_count: region.field_i32(address, size, 0xc0),
                },
            ),
            _ => None,
        }
    }

    /// Returns the pool of block characters, which lies inside the manager.
    /// `None` means that the manager would end past the last address.
    pub fn world_block_chr(&self) -> (r: Option<SlotPool<WorldBlockChr>>)
        ensures
            r is Some <==> self.address@ + 0x2fe0 <= u64::MAX,
            r is Some ==> r->Some_0.spec_head() == self.address@ + 0x8e0
                && r->Some_0.spec_capacity() == 32,
    {
        match self.address.address().checked_add(WorldChrMan::WORLD_BLOCK_CHR_OFFSET) {
            Some(head) => SlotPool::new(head, WorldChrMan::WORLD_BLOCK_CHR_CAPACITY),
            None => None,
        }
    }

    /// Starts a walk over the non-empty block characters. `None` means that
    /// the region doesn't hold the whole pool.
    pub fn world_block_chrs<'a>(&self, region: &'a Region) -> (r: Option<WorldBlockChrIter<'a>>)
        ensures
            r is Some <==> self.address@ + 0x2fe0 <= u64::MAX && region.covers(
                (self.address@ + 0x8e0) as u64,
                0x2700,
            ),
            r is Some ==> {
                let walk = r->Some_0;
                &&& walk.spec_region() == region
                &&& walk.spec_position() == 0
                &&& walk.spec_pool().spec_head() == self.address@ + 0x8e0
                &&& walk.spec_pool().spec_capacity() == 32
            },
    {
        match self.world_block_chr() {
            Some(pool) => NonEmptyIter::new(pool, region),
            None => None,
        }
    }

    /// Starts a walk over the non-empty block characters for a caller that
    /// changes them as it goes. `None` means that the manager would end past
    /// the last address.
    pub fn world_block_chrs_mut(&self) -> (r: Option<WorldBlockChrIterMut>)
        ensures
            r is Some <==> self.address@ + 0x2fe0 <= u64::MAX,
            r is Some ==> {
                let walk = r->Some_0;
                &&& walk.spec_position() == 0
                &&& walk.spec_pool().spec_head() == self.address@ + 0x8e0
                &&& walk.spec_pool().spec_capacity() == 32
            },
    {
        match self.world_block_chr() {
            Some(pool) => Some(NonEmptyIterMut::new(pool)),
            None => None,
        }
    }
}

} // verus!
