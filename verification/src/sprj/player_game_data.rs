//! The player's character data: name, equipment and inventory.

use vstd::arithmetic::power2::lemma2_to64;
use vstd::prelude::*;

use crate::shared::bits::{bit_range, lemma_bit_range, set_bit_range};
use crate::shared::empty::{IsEmpty, NonEmptyIter, NonEmptyIterMut, SlotPool};
use crate::shared::layout::{FieldKind, StructLayout};
use crate::shared::memory::{le_i32, le_u16, le_u32, le_u64, Region};
use crate::shared::pointer::ForeignPtr;
use crate::shared::text::{decode_utf16, find_text_end, terminated_text, utf16_decoding};
use crate::sprj::item::{has_valid_category, CategorizedItemID, MaybeInvalidCategorizedItemID};

verus! {

/// An entry in [`InventoryItemsData`] that may be empty.
///
/// This is empty if and only if `item_id` is not a valid item ID. An empty
/// entry doesn't currently represent an item in the player's inventory, but
/// may in the future.
#[derive(Debug, Copy, Clone, PartialEq, Eq, Structural)]
pub struct EquipInventoryDataListEntry {
    /// Handle to the gaitem instance which describes additional properties of
    /// the inventory item, like durability.
    pub gaitem_handle: u32,
    /// The raw ID of the item in this inventory slot.
    pub item_id: MaybeInvalidCategorizedItemID,
    /// Quantity of the item we have.
    pub quantity: u32,
}

impl EquipInventoryDataListEntry {
    /// The number of bytes that one entry takes in the game's memory.
    pub const SIZE: u64 = 0x10;

    /// Where the gaitem handle lies in an entry.
    pub const GAITEM_HANDLE_OFFSET: u64 = 0x0;

    /// Where the item ID lies in an entry.
    pub const ITEM_ID_OFFSET: u64 = 0x4;

    /// Where the quantity lies in an entry.
    pub const QUANTITY_OFFSET: u64 = 0x8;

    /// Whether this entry is what the bytes of `slot` say.
    pub open spec fn decodes(&self, slot: Seq<u8>) -> bool {
        &&& self.gaitem_handle == le_u32(slot.subrange(0x0, 0x4))
        &&& self.item_id@ == le_u32(slot.subrange(0x4, 0x8))
        &&& self.quantity == le_u32(slot.subrange(0x8, 0xc))
    }

    /// Returns the byte layout of an entry.
    pub fn layout() -> (l: StructLayout)
        ensures
            l.wf(),
            l.spec_size() == EquipInventoryDataListEntry::SIZE,
            l.spec_align() == 4,
            l.spec_fields().len() == 4,
            l.spec_fields()[0].offset == EquipInventoryDataListEntry::GAITEM_HANDLE_OFFSET,
            l.spec_fields()[1].offset == EquipInventoryDataListEntry::ITEM_ID_OFFSET,
            l.spec_fields()[2].offset == EquipInventoryDataListEntry::QUANTITY_OFFSET,
            l.spec_fields()[3].kind == FieldKind::Opaque,
    {
        let l = StructLayout::new();
        let l = l.with(FieldKind::Integer, 0x0, 4, 4);
        let l = l.with(FieldKind::Integer, 0x4, 4, 4);
        let l = l.with(FieldKind::Integer, 0x8, 4, 4);
        let l = l.with(FieldKind::Opaque, 0xc, 4, 1);
        l.finish(0x10)
    }

    /// Reads the entry at `address`. `None` means that the region doesn't
    /// hold all of the entry's bytes.
    pub fn read(region: &Region, address: u64) -> (r: Option<EquipInventoryDataListEntry>)
        ensures
            r is Some <==> region.covers(address, 0x10),
            r is Some ==> r->Some_0.decodes(region.span(address, 0x10)),
    {
        if !region.contains(address, EquipInventoryDataListEntry::SIZE) {
            return None;
        }
        proof {
            let slot = region.span(address, 0x10);
            assert(slot.subrange(0x0, 0x4) =~= region.span(address, 4));
            assert(slot.subrange(0x4, 0x8) =~= region.span((address + 4) as u64, 4));
            assert(slot.subrange(0x8, 0xc) =~= region.span((address + 8) as u64, 4));
        }
        let gaitem_handle = region.read_u32(address);
        let item_id = region.read_u32(address + 4);
        let quantity = region.read_u32(address + 8);
        match (gaitem_handle, item_id, quantity) {
            (Some(gaitem_handle), Some(item_id), Some(quantity)) => Some(
                EquipInventoryDataListEntry {
                    gaitem_handle,
                    item_id: MaybeInvalidCategorizedItemID::from_raw(item_id),
                    quantity,
                },
            ),
            _ => None,
        }
    }

    /// Writes the entry's three fields at `address`. The four bytes behind
    /// them, whose meaning is unknown, and every byte outside the entry stay
    /// as they are. `false` means that the region doesn't hold all of the
    /// entry's bytes, and then nothing is written.
    pub fn write(&self, region: &mut Region, address: u64) -> (written: bool)
        ensures
            written == old(region).covers(address, 0x10),
            final(region).same_outside(old(region), address, 0xc),
            written ==> self.decodes(final(region).span(address, 0x10)),
            !written ==> final(region)@ == old(region)@,
    {
        if !region.contains(address, EquipInventoryDataListEntry::SIZE) {
            return false;
        }
        region.write_u32(address, self.gaitem_handle);
        region.write_u32(address + 4, self.item_id.value());
        region.write_u32(address + 8, self.quantity);
        proof {
            let slot = region.span(address, 0x10);
            crate::shared::memory::lemma_le_round_trip(0, self.gaitem_handle, 0);
            crate::shared::memory::lemma_le_round_trip(0, self.item_id@, 0);
            crate::shared::memory::lemma_le_round_trip(0, self.quantity, 0);
            assert(slot.subrange(0x0, 0x4) =~= crate::shared::memory::u32_le_bytes(
                self.gaitem_handle,
            ));
            assert(slot.subrange(0x4, 0x8) =~= crate::shared::memory::u32_le_bytes(
                self.item_id@,
            ));
            assert(slot.subrange(0x8, 0xc) =~= crate::shared::memory::u32_le_bytes(
                self.quantity,
            ));
        }
        true
    }

    /// Returns whether this entry is empty.
    pub fn is_empty(&self) -> (b: bool)
        ensures
            b == !has_valid_category(self.item_id@),
    {
        !self.item_id.is_valid()
    }

    /// If this isn't empty, returns it as a
    /// [`NonEmptyEquipInventoryDataListEntry`]. Otherwise, returns `None`.
    pub fn as_non_empty(&self) -> (r: Option<NonEmptyEquipInventoryDataListEntry>)
        ensures
            r is Some <==> has_valid_category(self.item_id@),
            r is Some ==> {
                &&& r->Some_0.gaitem_handle == self.gaitem_handle
                &&& r->Some_0.item_id@ == self.item_id@
                &&& r->Some_0.quantity == self.quantity
            },
    {
        match self.item_id.as_valid() {
            Some(item_id) => Some(
                NonEmptyEquipInventoryDataListEntry {
                    gaitem_handle: self.gaitem_handle,
                    item_id,
                    quantity: self.quantity,
                },
            ),
            None => None,
        }
    }
}

/// Writing back what was read changes nothing: where an entry was decoded
/// from a slot and the same entry is written to that slot, every byte of the
/// region is afterwards what it was before, the bytes of unknown meaning
/// included.
pub proof fn lemma_entry_written_back(
    entry: EquipInventoryDataListEntry,
    before: &Region,
    after: &Region,
    address: u64,
)
    requires
        before.covers(address, 0x10),
        entry.decodes(before.span(address, 0x10)),
        entry.decodes(after.span(address, 0x10)),
        after.same_outside(before, address, 0xc),
    ensures
        after@ == before@,
{
    let at = address - before.spec_base();
    let old_slot = before.span(address, 0x10);
    let new_slot = after.span(address, 0x10);
    assert forall|i: int| 0 <= i < before@.len() implies after@[i] == before@[i] by {
        if at <= i < at + 0xc {
            let group = (i - at) / 4 * 4;
            let old_word = old_slot.subrange(group, group + 4);
            let new_word = new_slot.subrange(group, group + 4);
            crate::shared::memory::lemma_le_bytes_of_value(old_word);
            crate::shared::memory::lemma_le_bytes_of_value(new_word);
            assert(le_u32(old_word) == le_u32(new_word));
            assert(old_word == new_word);
            assert(old_word[i - at - group] == before@[i]);
            assert(new_word[i - at - group] == after@[i]);
        }
    }
    assert(after@ =~= before@);
}

impl IsEmpty for EquipInventoryDataListEntry {
    open spec fn spec_stride() -> u64 {
        0x10
    }

    /// A slot is empty when the item ID in it has no known category.
    open spec fn spec_is_empty(slot: Seq<u8>) -> bool {
        !has_valid_category(le_u32(slot.subrange(0x4, 0x8)) as u32)
    }

    fn stride() -> (s: u64) {
        EquipInventoryDataListEntry::SIZE
    }

    fn is_empty(slot: &[u8]) -> (b: bool) {
        let b0 = slot[4] as u32;
        let b1 = slot[5] as u32;
        let b2 = slot[6] as u32;
        let b3 = slot[7] as u32;
        let raw: u32 = b0 + b1 * 0x100 + b2 * 0x1_0000 + b3 * 0x100_0000;
        !MaybeInvalidCategorizedItemID::from_raw(raw).is_valid()
    }
}

/// An [`EquipInventoryDataListEntry`] that's been verified to be non-empty,
/// and so whose item ID is valid.
#[derive(Debug, Copy, Clone, PartialEq, Eq, Structural)]
pub struct NonEmptyEquipInventoryDataListEntry {
    /// Handle to the gaitem instance which describes additional properties of
    /// the inventory item, like durability.
    pub gaitem_handle: u32,
    /// The ID of the item in this inventory slot.
    pub item_id: CategorizedItemID,
    /// Quantity of the item we have.
    pub quantity: u32,
}

impl NonEmptyEquipInventoryDataListEntry {
    /// Whether this entry is what the bytes of `slot` say.
    pub open spec fn decodes(&self, slot: Seq<u8>) -> bool {
        &&& self.gaitem_handle == le_u32(slot.subrange(0x0, 0x4))
        &&& self.item_id@ == le_u32(slot.subrange(0x4, 0x8))
        &&& self.quantity == le_u32(slot.subrange(0x8, 0xc))
    }

    /// Returns the same entry as one that may be empty.
    pub fn to_entry(&self) -> (e: EquipInventoryDataListEntry)
        ensures
            e.gaitem_handle == self.gaitem_handle,
            e.item_id@ == self.item_id@,
            e.quantity == self.quantity,
    {
        EquipInventoryDataListEntry {
            gaitem_handle: self.gaitem_handle,
            item_id: MaybeInvalidCategorizedItemID::from(self.item_id),
            quantity: self.quantity,
        }
    }
}

/// Pointers to a list of items and to its count. All inventory reads and
/// writes in the game go through these.
#[derive(Debug, Copy, Clone, PartialEq, Eq, Structural)]
pub struct InventoryItemListAccessor {
    /// The first entry of the list.
    pub head: ForeignPtr,
    /// The number of items in the list.
    pub len: ForeignPtr,
}

/// The two lists of items that a character holds, key items and normal
/// items, as the header in front of them describes them.
#[derive(Debug, Copy, Clone, PartialEq, Eq, Structural)]
pub struct InventoryItemsData {
    /// The total number of items the player can hold.
    pub total_capacity: u32,
    /// Capacity of the normal items array.
    pub normal_items_capacity: u32,
    /// Pointer to the head of the normal items inventory. This array is not
    /// dense: removing an item leaves a hole.
    pub normal_items_head: ForeignPtr,
    /// The number of normal items in the inventory.
    pub normal_items_count: u32,
    /// Capacity of the key items array.
    pub key_items_capacity: u32,
    /// Pointer to the head of the key items inventory. This array is not
    /// dense: removing an item leaves a hole.
    pub key_items_head: ForeignPtr,
    /// The number of key items in the inventory.
    pub key_items_count: u32,
    /// Pointers to the active normal item list and its count.
    pub normal_items_accessor: InventoryItemListAccessor,
    /// Pointers to the active key item list and its count.
    pub key_items_accessor: InventoryItemListAccessor,
    /// A map from item IDs (mod 2017) to the index of their mapping linked
    /// list in `item_id_mappings`.
    pub item_id_mapping_indices: ForeignPtr,
    /// An array of mappings from item IDs to indices in the two lists.
    pub item_id_mappings: ForeignPtr,
    /// The index into `item_id_mappings` that should be used next.
    pub next_index: u16,
}

impl InventoryItemsData {
    /// The number of bytes that the header takes in the game's memory.
    pub const SIZE: u64 = 0x78;

    /// Whether this header is what the bytes of `bytes` say.
    pub open spec fn decodes(&self, bytes: Seq<u8>) -> bool {
        &&& self.total_capacity == le_u32(bytes.subrange(0x0, 0x4))
        &&& self.normal_items_capacity == le_u32(bytes.subrange(0x4, 0x8))
        &&& self.normal_items_head.address == le_u64(bytes.subrange(0x8, 0x10))
        &&& self.normal_items_count == le_u32(bytes.subrange(0x10, 0x14))
        &&& self.key_items_capacity == le_u32(bytes.subrange(0x14, 0x18))
        &&& self.key_items_head.address == le_u64(bytes.subrange(0x18, 0x20))
        &&& self.key_items_count == le_u32(bytes.subrange(0x20, 0x24))
        &&& self.normal_items_accessor.head.address == le_u64(bytes.subrange(0x38, 0x40))
        &&& self.normal_items_accessor.len.address == le_u64(bytes.subrange(0x40, 0x48))
        &&& self.key_items_accessor.head.address == le_u64(bytes.subrange(0x48, 0x50))
        &&& self.key_items_accessor.len.address == le_u64(bytes.subrange(0x50, 0x58))
        &&& self.item_id_mapping_indices.address == le_u64(bytes.subrange(0x58, 0x60))
        &&& self.item_id_mappings.address == le_u64(bytes.subrange(0x68, 0x70))
        &&& self.next_index == le_u16(bytes.subrange(0x70, 0x72))
    }

    /// Returns the byte layout of the header.
    pub fn layout() -> (l: StructLayout)
        ensures
            l.wf(),
            l.spec_size() == InventoryItemsData::SIZE,
            l.spec_align() == 8,
            l.spec_fields().len() == 17,
    {
        let l = StructLayout::new();
        let l = l.with(FieldKind::Integer, 0x0, 4, 4);
        let l = l.with(FieldKind::Integer, 0x4, 4, 4);
        let l = l.with(FieldKind::Pointer, 0x8, 8, 8);
        let l = l.with(FieldKind::Integer, 0x10, 4, 4);
        let l = l.with(FieldKind::Integer, 0x14, 4, 4);
        let l = l.with(FieldKind::Pointer, 0x18, 8, 8);
        let l = l.with(FieldKind::Integer, 0x20, 4, 4);
        let l = l.with(FieldKind::Opaque, 0x24, 0x14, 1);
        let l = l.with(FieldKind::Pointer, 0x38, 8, 8);
        let l = l.with(FieldKind::Pointer, 0x40, 8, 8);
        let l = l.with(FieldKind::Pointer, 0x48, 8, 8);
        let l = l.with(FieldKind::Pointer, 0x50, 8, 8);
        let l = l.with(FieldKind::Pointer, 0x58, 8, 8);
        let l = l.with(FieldKind::Integer, 0x60, 8, 8);
        let l = l.with(FieldKind::Pointer, 0x68, 8, 8);
        let l = l.with(FieldKind::Integer, 0x70, 2, 2);
        let l = l.with(FieldKind::Opaque, 0x72, 6, 1);
        let l = l.finish(0x78);
        l
    }

    /// Reads the header at `address`. `None` means that the region doesn't
    /// hold all of the header's bytes.
    pub fn read(region: &Region, address: u64) -> (r: Option<InventoryItemsData>)
        ensures
            r is Some <==> region.covers(address, 0x78),
            r is Some ==> r->Some_0.decodes(region.span(address, 0x78)),
    {
        let size = InventoryItemsData::SIZE;
        if !region.contains(address, size) {
            return None;
        }
        Some(
            InventoryItemsData {
                total_capacity: region.field_u32(address, size, 0x0),
                normal_items_capacity: region.field_u32(address, size, 0x4),
                normal_items_head: ForeignPtr { address: region.field_u64(address, size, 0x8) },
                normal_items_count: region.field_u32(address, size, 0x10),
                key_items_capacity: region.field_u32(address, size, 0x14),
                key_items_head: ForeignPtr { address: region.field_u64(address, size, 0x18) },
                key_items_count: region.field_u32(address, size, 0x20),
                normal_items_accessor: InventoryItemListAccessor {
                    head: ForeignPtr { address: region.field_u64(address, size, 0x38) },
                    len: ForeignPtr { address: region.field_u64(address, size, 0x40) },
                },
                key_items_accessor: InventoryItemListAccessor {
                    head: ForeignPtr { address: region.field_u64(address, size, 0x48) },
                    len: ForeignPtr { address: region.field_u64(address, size, 0x50) },
                },
                item_id_mapping_indices: ForeignPtr {
                    address: region.field_u64(address, size, 0x58),
                },
                item_id_mappings: ForeignPtr { address: region.field_u64(address, size, 0x68) },
                next_index: region.field_u16(address, size, 0x70),
            },
        )
    }

    /// Whether the key item list can be described: it doesn't end past the
    /// last address.
    pub open spec fn key_pool_fits(&self) -> bool {
        self.key_items_head.address + self.key_items_capacity * 0x10 <= u64::MAX
    }

    /// Whether the normal item list can be described: it doesn't end past
    /// the last address.
    pub open spec fn normal_pool_fits(&self) -> bool {
        self.normal_items_head.address + self.normal_items_capacity * 0x10 <= u64::MAX
    }

    /// Returns the key item list as a pool of slots, or `None` where the
    /// list would end past the last address.
    pub fn key_pool(&self) -> (r: Option<SlotPool<EquipInventoryDataListEntry>>)
        ensures
            r is Some <==> self.key_pool_fits(),
            r is Some ==> r->Some_0.spec_head() == self.key_items_head.address
                && r->Some_0.spec_capacity() == self.key_items_capacity,
    {
        SlotPool::new(self.key_items_head.address, self.key_items_capacity)
    }

    /// Returns the normal item list as a pool of slots, or `None` where the
    /// list would end past the last address.
    pub fn normal_pool(&self) -> (r: Option<SlotPool<EquipInventoryDataListEntry>>)
        ensures
            r is Some <==> self.normal_pool_fits(),
            r is Some ==> r->Some_0.spec_head() == self.normal_items_head.address
                && r->Some_0.spec_capacity() == self.normal_items_capacity,
    {
        SlotPool::new(self.normal_items_head.address, self.normal_items_capacity)
    }

    /// Returns the slots of key items as a pool, for a caller that is going
    /// to change them: a slot is changed by writing an entry to the region
    /// at the address that the pool gives for it. `None` means that the
    /// slots would end past the last address.
    pub fn key_entries_mut(&self) -> (r: Option<SlotPool<EquipInventoryDataListEntry>>)
        ensures
            r is Some <==> self.key_pool_fits(),
            r is Some ==> r->Some_0.spec_head() == self.key_items_head.address
                && r->Some_0.spec_capacity() == self.key_items_capacity,
    {
        self.key_pool()
    }

    /// Returns the slots of normal items as a pool, for a caller that is
    /// going to change them. `None` means that the slots would end past the
    /// last address.
    pub fn normal_entries_mut(&self) -> (r: Option<SlotPool<EquipInventoryDataListEntry>>)
        ensures
            r is Some <==> self.normal_pool_fits(),
            r is Some ==> r->Some_0.spec_head() == self.normal_items_head.address
                && r->Some_0.spec_capacity() == self.normal_items_capacity,
    {
        self.normal_pool()
    }


    /// Returns all the entries allocated for key items, whether or not
    /// they're empty. `None` means that the region doesn't hold the whole
    /// list.
    pub fn key_entries(&self, region: &Region) -> (r: Option<Vec<EquipInventoryDataListEntry>>)
        ensures
            r is Some <==> self.key_pool_fits() && region.covers(
                self.key_items_head.address,
                self.key_items_capacity * 0x10,
            ),
            r is Some ==> entries_decode(
                r->Some_0@,
                region,
                self.key_items_head.address,
                self.key_items_capacity,
            ),
    {
        match self.key_pool() {
            Some(pool) => read_entries(&pool, region),
            None => None,
        }
    }

    /// Returns all the entries allocated for normal items, whether or not
    /// they're empty. `None` means that the region doesn't hold the whole
    /// list.
    pub fn normal_entries(&self, region: &Region) -> (r: Option<Vec<EquipInventoryDataListEntry>>)
        ensures
            r is Some <==> self.normal_pool_fits() && region.covers(
                self.normal_items_head.address,
                self.normal_items_capacity * 0x10,
            ),
            r is Some ==> entries_decode(
                r->Some_0@,
                region,
                self.normal_items_head.address,
                self.normal_items_capacity,
            ),
    {
        match self.normal_pool() {
            Some(pool) => read_entries(&pool, region),
            None => None,
        }
    }
}

impl InventoryItemsData {
    /// Where the entry with the given index lies, by the game's own rule: an
    /// index below the key item capacity counts into the key item list, and
    /// an index from there on counts into the normal item list. `None` means
    /// that the index is past both lists.
    pub open spec fn entry_address(&self, index: u32) -> Option<int> {
        if index < self.key_items_capacity {
            Some(self.key_items_head.address + index * 0x10)
        } else if index - self.key_items_capacity < self.normal_items_capacity {
            Some(self.normal_items_head.address + (index - self.key_items_capacity) * 0x10)
        } else {
            None
        }
    }

    /// Whether `region` holds the entry with the given index.
    pub open spec fn has_entry(&self, region: &Region, index: u32) -> bool {
        &&& self.entry_address(index) is Some
        &&& self.entry_address(index)->Some_0 <= u64::MAX
        &&& region.covers(self.entry_address(index)->Some_0 as u64, 0x10)
    }

    /// Returns the address of the entry with the given index, or `None` where
    /// the index is past both lists or the address would lie past the last
    /// address.
    pub fn address_of(&self, index: u32) -> (r: Option<u64>)
        ensures
            r is Some <==> self.entry_address(index) is Some && self.entry_address(index)->Some_0
                <= u64::MAX,
            r is Some ==> r->Some_0 == self.entry_address(index)->Some_0,
    {
        if index < self.key_items_capacity {
            self.key_items_head.address.checked_add(index as u64 * 0x10)
        } else {
            let index = index - self.key_items_capacity;
            if index < self.normal_items_capacity {
                self.normal_items_head.address.checked_add(index as u64 * 0x10)
            } else {
                None
            }
        }
    }

    /// Returns the entry with the given index, or `None` where the index is
    /// past both lists or the region doesn't hold the entry.
    pub fn get(&self, region: &Region, index: u32) -> (r: Option<EquipInventoryDataListEntry>)
        ensures
            r is Some <==> self.has_entry(region, index),
            r is Some ==> r->Some_0.decodes(
                region.span(self.entry_address(index)->Some_0 as u64, 0x10),
            ),
    {
        match self.address_of(index) {
            Some(address) => EquipInventoryDataListEntry::read(region, address),
            None => None,
        }
    }

    /// Returns the entry with the given index.
    pub fn index(&self, region: &Region, index: u32) -> (entry: EquipInventoryDataListEntry)
        requires
            self.has_entry(region, index),
        ensures
            entry.decodes(region.span(self.entry_address(index)->Some_0 as u64, 0x10)),
    {
        match self.get(region, index) {
            Some(entry) => entry,
            None => vstd::pervasive::unreached(),
        }
    }

    /// Indexes both the key items and the normal items, for a caller that
    /// is going to change the entry: returns where the entry lies. The index
    /// has to name an entry that the region holds.
    pub fn index_mut(&self, region: &Region, index: u32) -> (address: u64)
        requires
            self.has_entry(region, index),
        ensures
            address == self.entry_address(index)->Some_0,
            region.covers(address, 0x10),
    {
        match self.address_of(index) {
            Some(address) => address,
            None => vstd::pervasive::unreached(),
        }
    }

    /// Writes `entry` over the entry with the given index. Only the three
    /// known fields of that entry change. `false` means that the index is
    /// past both lists or the region doesn't hold the entry, and then
    /// nothing is written.
    pub fn set(&self, region: &mut Region, index: u32, entry: &EquipInventoryDataListEntry) -> (written:
        bool)
        ensures
            written == self.has_entry(old(region), index),
            written ==> entry.decodes(
                final(region).span(self.entry_address(index)->Some_0 as u64, 0x10),
            ) && final(region).same_outside(
                old(region),
                self.entry_address(index)->Some_0 as u64,
                0xc,
            ),
            !written ==> final(region)@ == old(region)@ && final(region).spec_base() == old(
                region,
            ).spec_base(),
    {
        match self.address_of(index) {
            Some(address) => entry.write(region, address),
            None => false,
        }
    }
}

/// Reads the entry in slot `index` of `pool`, which is known to hold one.
fn read_occupied(pool: &SlotPool<EquipInventoryDataListEntry>, region: &Region, index: u32) -> (entry:
    NonEmptyEquipInventoryDataListEntry)
    requires
        index < pool.spec_capacity(),
        pool.mapped(region),
        pool.occupied(region, index as int),
    ensures
        entry.decodes(region.span(pool.slot_address(index as int) as u64, 0x10)),
{
    let address = pool.address_of(index);
    match EquipInventoryDataListEntry::read(region, address) {
        Some(entry) => match entry.as_non_empty() {
            Some(entry) => entry,
            None => vstd::pervasive::unreached(),
        },
        None => vstd::pervasive::unreached(),
    }
}

/// A walk over both key and normal items that gives only non-empty entries:
/// key items first, then normal items, each list in the order of its slots.
#[derive(Debug)]
pub struct ItemsIterator<'a> {
    key: NonEmptyIter<'a, EquipInventoryDataListEntry>,
    normal: NonEmptyIter<'a, EquipInventoryDataListEntry>,
}

impl<'a> ItemsIterator<'a> {
    /// The walk over the key items.
    pub closed spec fn key(&self) -> NonEmptyIter<'a, EquipInventoryDataListEntry> {
        self.key
    }

    /// The walk over the normal items.
    pub closed spec fn normal(&self) -> NonEmptyIter<'a, EquipInventoryDataListEntry> {
        self.normal
    }

    /// Moves to the next non-empty entry and returns it, or returns `None`
    /// once both lists are exhausted. No normal item is given while a key
    /// item is left.
    pub fn next(&mut self) -> (r: Option<NonEmptyEquipInventoryDataListEntry>)
        ensures
            final(self).key().spec_pool() == old(self).key().spec_pool(),
            final(self).key().spec_region() == old(self).key().spec_region(),
            final(self).normal().spec_pool() == old(self).normal().spec_pool(),
            final(self).normal().spec_region() == old(self).normal().spec_region(),
            r is None <==> old(self).key().remaining().len() == 0 && old(self).normal().remaining().len() == 0,
            r is None ==> final(self).key().remaining().len() == 0 && final(self).normal().remaining().len() == 0,
            r is Some && old(self).key().remaining().len() > 0 ==> {
                &&& r->Some_0.decodes(
                    old(self).key().spec_region().span(
                        old(self).key().spec_pool().slot_address(old(self).key().remaining()[0]) as u64,
                        0x10,
                    ),
                )
                &&& final(self).key().remaining() == old(self).key().remaining().drop_first()
                &&& final(self).normal().remaining() == old(self).normal().remaining()
            },
            r is Some && old(self).key().remaining().len() == 0 ==> {
                &&& r->Some_0.decodes(
                    old(self).normal().spec_region().span(
                        old(self).normal().spec_pool().slot_address(
                            old(self).normal().remaining()[0],
                        ) as u64,
                        0x10,
                    ),
                )
                &&& final(self).key().remaining().len() == 0
                &&& final(self).normal().remaining() == old(self).normal().remaining().drop_first()
            },
    {
        match self.key.next() {
            Some(index) => {
                return Some(read_occupied(self.key.pool(), self.key.region(), index));
            },
            None => {},
        }
        match self.normal.next() {
            Some(index) => Some(read_occupied(self.normal.pool(), self.normal.region(), index)),
            None => None,
        }
    }
}

/// A walk like [`ItemsIterator`] for a caller that changes entries as it
/// goes. Each step is handed the region as it is then, and gives the address
/// of the entry along with the entry so that it can be written back.
#[derive(Debug)]
pub struct ItemsIteratorMut {
    key: NonEmptyIterMut<EquipInventoryDataListEntry>,
    normal: NonEmptyIterMut<EquipInventoryDataListEntry>,
}

impl ItemsIteratorMut {
    /// The walk over the key items.
    pub closed spec fn key(&self) -> NonEmptyIterMut<EquipInventoryDataListEntry> {
        self.key
    }

    /// The walk over the normal items.
    pub closed spec fn normal(&self) -> NonEmptyIterMut<EquipInventoryDataListEntry> {
        self.normal
    }

    /// Whether `region` holds both lists.
    pub open spec fn mapped(&self, region: &Region) -> bool {
        self.key().spec_pool().mapped(region) && self.normal().spec_pool().mapped(region)
    }

    /// Moves to the next entry that is not empty in `region` and returns its
    /// address and the entry, or returns `None` once both lists are
    /// exhausted. No normal item is given while a key item is left.
    pub fn next(&mut self, region: &Region) -> (r: Option<
        (u64, NonEmptyEquipInventoryDataListEntry),
    >)
        requires
            old(self).mapped(region),
        ensures
            final(self).key().spec_pool() == old(self).key().spec_pool(),
            final(self).normal().spec_pool() == old(self).normal().spec_pool(),
            r is None <==> old(self).key().remaining(region).len() == 0 && old(self).normal().remaining(region).len() == 0,
            r is None ==> {
                &&& final(self).key().remaining(region).len() == 0
                &&& final(self).normal().remaining(region).len() == 0
                &&& final(self).key().spec_position() == old(self).key().spec_pool().spec_capacity()
                &&& final(self).normal().spec_position() == old(self).normal().spec_pool().spec_capacity()
            },
            r is Some && old(self).key().remaining(region).len() > 0 ==> {
                &&& r->Some_0.0 == old(self).key().spec_pool().slot_address(
                    old(self).key().remaining(region)[0],
                )
                &&& r->Some_0.1.decodes(region.span(r->Some_0.0, 0x10))
                &&& final(self).key().remaining(region) == old(self).key().remaining(
                    region,
                ).drop_first()
                &&& final(self).normal().remaining(region) == old(self).normal().remaining(region)
            },
            r is Some && old(self).key().remaining(region).len() == 0 ==> {
                &&& r->Some_0.0 == old(self).normal().spec_pool().slot_address(
                    old(self).normal().remaining(region)[0],
                )
                &&& r->Some_0.1.decodes(region.span(r->Some_0.0, 0x10))
                &&& final(self).key().remaining(region).len() == 0
                &&& final(self).normal().remaining(region) == old(self).normal().remaining(
                    region,
                ).drop_first()
            },
    {
        match self.key.next(region) {
            Some(index) => {
                let address = self.key.pool().address_of(index);
                return Some((address, read_occupied(self.key.pool(), region, index)));
            },
            None => {},
        }
        match self.normal.next(region) {
            Some(index) => {
                let address = self.normal.pool().address_of(index);
                Some((address, read_occupied(self.normal.pool(), region, index)))
            },
            None => None,
        }
    }
}

impl InventoryItemsData {
    /// Starts a walk over all the non-empty entries in the player's
    /// inventory: key items first, followed by normal items. `None` means
    /// that the region doesn't hold both lists.
    pub fn items<'a>(&self, region: &'a Region) -> (r: Option<ItemsIterator<'a>>)
        ensures
            r is Some <==> {
                &&& self.key_pool_fits()
                &&& self.normal_pool_fits()
                &&& region.covers(self.key_items_head.address, self.key_items_capacity * 0x10)
                &&& region.covers(
                    self.normal_items_head.address,
                    self.normal_items_capacity * 0x10,
                )
            },
            r is Some ==> {
                let items = r->Some_0;
                &&& items.key().spec_region() == region
                &&& items.normal().spec_region() == region
                &&& items.key().spec_position() == 0
                &&& items.normal().spec_position() == 0
                &&& items.key().spec_pool().spec_head() == self.key_items_head.address
                &&& items.key().spec_pool().spec_capacity() == self.key_items_capacity
                &&& items.normal().spec_pool().spec_head() == self.normal_items_head.address
                &&& items.normal().spec_pool().spec_capacity() == self.normal_items_capacity
            },
    {
        let key = match self.key_pool() {
            Some(pool) => NonEmptyIter::new(pool, region),
            None => None,
        };
        let normal = match self.normal_pool() {
            Some(pool) => NonEmptyIter::new(pool, region),
            None => None,
        };
        match (key, normal) {
            (Some(key), Some(normal)) => Some(ItemsIterator { key, normal }),
            _ => None,
        }
    }

    /// Starts a walk over all the non-empty entries in the player's
    /// inventory for a caller that changes them: key items first, followed
    /// by normal items. `None` means that one of the lists would end past
    /// the last address.
    pub fn items_mut(&self) -> (r: Option<ItemsIteratorMut>)
        ensures
            r is Some <==> self.key_pool_fits() && self.normal_pool_fits(),
            r is Some ==> {
                let items = r->Some_0;
                &&& items.key().spec_position() == 0
                &&& items.normal().spec_position() == 0
                &&& items.key().spec_pool().spec_head() == self.key_items_head.address
                &&& items.key().spec_pool().spec_capacity() == self.key_items_capacity
                &&& items.normal().spec_pool().spec_head() == self.normal_items_head.address
                &&& items.normal().spec_pool().spec_capacity() == self.normal_items_capacity
            },
    {
        match (self.key_pool(), self.normal_pool()) {
            (Some(key), Some(normal)) => Some(
                ItemsIteratorMut {
                    key: NonEmptyIterMut::new(key),
                    normal: NonEmptyIterMut::new(normal),
                },
            ),
            _ => None,
        }
    }
}

/// Whether `entries` are the `capacity` entries that `region` holds from
/// `head` on, in order.
pub open spec fn entries_decode(
    entries: Seq<EquipInventoryDataListEntry>,
    region: &Region,
    head: u64,
    capacity: u32,
) -> bool {
    &&& entries.len() == capacity
    &&& forall|i: int|
        0 <= i < capacity ==> (#[trigger] entries[i]).decodes(
            region.span((head + i * 0x10) as u64, 0x10),
        )
}

/// Reads every slot of `pool`, empty or not. `None` means that the region
/// doesn't hold the whole pool.
pub fn read_entries(pool: &SlotPool<EquipInventoryDataListEntry>, region: &Region) -> (r: Option<
    Vec<EquipInventoryDataListEntry>,
>)
    ensures
        r is Some <==> pool.mapped(region),
        r is Some ==> entries_decode(r->Some_0@, region, pool.spec_head(), pool.spec_capacity()),
{
    if !pool.is_mapped(region) {
        return None;
    }
    let capacity = pool.capacity();
    let mut out: Vec<EquipInventoryDataListEntry> = Vec::new();
    let mut i: u32 = 0;
    while i < capacity
        invariant
            i <= capacity,
            capacity == pool.spec_capacity(),
            pool.mapped(region),
            pool.spec_head() + capacity * 0x10 <= u64::MAX,
            out@.len() == i,
            forall|j: int|
                0 <= j < i ==> (#[trigger] out@[j]).decodes(
                    region.span((pool.spec_head() + j * 0x10) as u64, 0x10),
                ),
        decreases capacity - i,
    {
        let address = pool.address_of(i);
        match EquipInventoryDataListEntry::read(region, address) {
            Some(entry) => out.push(entry),
            None => {
                assert(false);
            },
        }
        i += 1;
    }
    Some(out)
}

/// The items that a character holds, whether on them or in the storage box.
#[derive(Debug, Copy, Clone, PartialEq, Eq, Structural)]
pub struct EquipInventoryData {
    /// The two lists of items.
    pub items_data: InventoryItemsData,
    /// The largest index that *might* not be empty. There's no guarantee
    /// that it isn't.
    pub max_item_index: i32,
    /// Whether no further item fits.
    pub is_inventory_full: bool,
}

impl EquipInventoryData {
    /// The number of bytes that the structure takes in the game's memory.
    pub const SIZE: u64 = 0xa0;

    /// Where the two lists of items lie in the structure.
    pub const ITEMS_DATA_OFFSET: u64 = 0x10;

    /// Whether this structure is what the bytes of `bytes` say.
    pub open spec fn decodes(&self, bytes: Seq<u8>) -> bool {
        &&& self.items_data.decodes(bytes.subrange(0x10, 0x88))
        &&& self.max_item_index == le_i32(bytes.subrange(0x88, 0x8c))
        &&& self.is_inventory_full == (bytes[0x8c] != 0)
    }

    /// Returns the byte layout of the structure.
    pub fn layout() -> (l: StructLayout)
        ensures
            l.wf(),
            l.spec_size() == EquipInventoryData::SIZE,
            l.spec_align() == 8,
            l.spec_fields().len() == 6,
            l.spec_fields()[2].offset == EquipInventoryData::ITEMS_DATA_OFFSET,
            l.spec_fields()[2].size == InventoryItemsData::SIZE,
    {
        let l = StructLayout::new();
        let l = l.with(FieldKind::Pointer, 0x0, 8, 8);
        let l = l.with(FieldKind::Integer, 0x8, 8, 8);
        let l = l.with(FieldKind::Nested, 0x10, 0x78, 8);
        let l = l.with(FieldKind::Integer, 0x88, 4, 4);
        let l = l.with(FieldKind::Integer, 0x8c, 1, 1);
        let l = l.with(FieldKind::Opaque, 0x8d, 0x13, 1);
        l.finish(0xa0)
    }

    /// Reads the structure at `address`. `None` means that the region
    /// doesn't hold all of its bytes.
    pub fn read(region: &Region, address: u64) -> (r: Option<EquipInventoryData>)
        ensures
            r is Some <==> region.covers(address, 0xa0),
            r is Some ==> r->Some_0.decodes(region.span(address, 0xa0)),
    {
        let size = EquipInventoryData::SIZE;
        if !region.contains(address, size) {
            return None;
        }
        proof {
            region.lemma_field_span(address, 0xa0, 0x10, 0x78);
        }
        let items_data = match InventoryItemsData::read(region, address + 0x10) {
            Some(items_data) => items_data,
            None => {
                return None;
            },
        };
        Some(
            EquipInventoryData {
                items_data,
                max_item_index: region.field_i32(address, size, 0x88),
                is_inventory_full: region.field_u8(address, size, 0x8c) != 0,
            },
        )
    }
}

/// The number of normal items that the save behind the main menu holds. Even
/// a totally fresh character holds more.
pub const MAIN_MENU_ITEM_COUNT: u32 = 12;

/// The number of equipment slots.
pub const EQUIPMENT_SLOTS: usize = 22;

/// What a character has equipped and holds.
#[derive(Debug, Copy, Clone, PartialEq, Eq)]
pub struct EquipGameData {
    /// A mapping from equipment slots to the inventory indices of the items
    /// currently in those slots.
    pub equipment_indexes: [i32; 22],
    /// The items that the character holds.
    pub equip_inventory_data: EquipInventoryData,
}

impl EquipGameData {
    /// The number of bytes that the structure takes in the game's memory.
    pub const SIZE: u64 = 0x328;

    /// Where the equipment indices lie in the structure.
    pub const EQUIPMENT_INDEXES_OFFSET: u64 = 0x24;

    /// Where the inventory lies in the structure.
    pub const EQUIP_INVENTORY_DATA_OFFSET: u64 = 0x1a8;

    /// Whether this structure is what the bytes of `bytes` say.
    pub open spec fn decodes(&self, bytes: Seq<u8>) -> bool {
        &&& forall|i: int|
            0 <= i < 22 ==> (#[trigger] self.equipment_indexes[i]) == le_i32(
                bytes.subrange(0x24 + 4 * i, 0x28 + 4 * i),
            )
        &&& self.equip_inventory_data.decodes(bytes.subrange(0x1a8, 0x248))
    }

    /// Returns the byte layout of the structure.
    pub fn layout() -> (l: StructLayout)
        ensures
            l.wf(),
            l.spec_size() == EquipGameData::SIZE,
            l.spec_align() == 8,
            l.spec_fields().len() == 6,
            l.spec_fields()[2].offset == EquipGameData::EQUIPMENT_INDEXES_OFFSET,
            l.spec_fields()[4].offset == EquipGameData::EQUIP_INVENTORY_DATA_OFFSET,
            l.spec_fields()[4].size == EquipInventoryData::SIZE,
    {
        let l = StructLayout::new();
        let l = l.with(FieldKind::Pointer, 0x0, 8, 8);
        let l = l.with(FieldKind::Opaque, 0x8, 0x1c, 1);
        let l = l.with(FieldKind::Integer, 0x24, 0x58, 4);
        let l = l.with(FieldKind::Opaque, 0x7c, 0x12c, 1);
        let l = l.with(FieldKind::Nested, 0x1a8, 0xa0, 8);
        let l = l.with(FieldKind::Opaque, 0x248, 0xe0, 1);
        l.finish(0x328)
    }

    /// Reads the structure at `address`. `None` means that the region
    /// doesn't hold all of its bytes.
    pub fn read(region: &Region, address: u64) -> (r: Option<EquipGameData>)
        ensures
            r is Some <==> region.covers(address, 0x328),
            r is Some ==> r->Some_0.decodes(region.span(address, 0x328)),
    {
        let size = EquipGameData::SIZE;
        if !region.contains(address, size) {
            return None;
        }
        proof {
            region.lemma_field_span(address, 0x328, 0x1a8, 0xa0);
        }
        let equip_inventory_data = match EquipInventoryData::read(region, address + 0x1a8) {
            Some(data) => data,
            None => {
                return None;
            },
        };
        let mut equipment_indexes: [i32; 22] = [0;22];
        let mut i: usize = 0;
        while i < 22
            invariant
                i <= 22,
                size == 0x328,
                region.covers(address, 0x328),
                forall|j: int|
                    0 <= j < i ==> (#[trigger] equipment_indexes[j]) == le_i32(
                        region.span(address, 0x328).subrange(0x24 + 4 * j, 0x28 + 4 * j),
                    ),
            decreases 22 - i,
        {
            let value = region.field_i32(address, size, 0x24 + 4 * (i as u64));
            equipment_indexes[i] = value;
            i += 1;
        }
        Some(EquipGameData { equipment_indexes, equip_inventory_data })
    }

    /// For whatever reason, the game has an `EquipGameData` active on the
    /// main menu as well as in the context of an individual game. This
    /// returns whether this one belongs to the synthetic character of the
    /// loading screen rather than to a real loaded world: whether it holds
    /// exactly [`MAIN_MENU_ITEM_COUNT`] normal items.
    pub fn is_main_menu(&self) -> (b: bool)
        ensures
            b == (self.equip_inventory_data.items_data.normal_items_count
                == MAIN_MENU_ITEM_COUNT),
    {
        self.equip_inventory_data.items_data.normal_items_count == MAIN_MENU_ITEM_COUNT
    }
}

/// What is known of a character apart from equipment.
#[derive(Debug, Copy, Clone, PartialEq, Eq)]
pub struct PlayerInfo {
    /// The character's name, in UTF-16. The final unit is always 0, to
    /// ensure the text is terminated.
    pub character_name: [u16; 17],
}

impl PlayerInfo {
    /// The number of bytes that the structure takes in the game's memory.
    pub const SIZE: u64 = 0x140;

    /// Where the character's name lies in the structure.
    pub const CHARACTER_NAME_OFFSET: u64 = 0x78;

    /// Whether this structure is what the bytes of `bytes` say.
    pub open spec fn decodes(&self, bytes: Seq<u8>) -> bool {
        forall|i: int|
            0 <= i < 17 ==> (#[trigger] self.character_name[i]) == le_u16(
                bytes.subrange(0x78 + 2 * i, 0x7a + 2 * i),
            )
    }

    /// The units of the character's name in front of the first zero unit.
    pub open spec fn name_units(&self) -> Seq<u16> {
        terminated_text(self.character_name@)
    }

    /// Returns the byte layout of the structure.
    pub fn layout() -> (l: StructLayout)
        ensures
            l.wf(),
            l.spec_size() == PlayerInfo::SIZE,
            l.spec_align() == 2,
            l.spec_fields().len() == 3,
            l.spec_fields()[1].offset == PlayerInfo::CHARACTER_NAME_OFFSET,
    {
        let l = StructLayout::new();
        let l = l.with(FieldKind::Opaque, 0x0, 0x78, 1);
        let l = l.with(FieldKind::Integer, 0x78, 0x22, 2);
        let l = l.with(FieldKind::Opaque, 0x9a, 0xa6, 1);
        l.finish(0x140)
    }

    /// Reads the structure at `address`. `None` means that the region
    /// doesn't hold all of its bytes.
    pub fn read(region: &Region, address: u64) -> (r: Option<PlayerInfo>)
        ensures
            r is Some <==> region.covers(address, 0x140),
            r is Some ==> r->Some_0.decodes(region.span(address, 0x140)),
    {
        let size = PlayerInfo::SIZE;
        if !region.contains(address, size) {
            return None;
        }
        let mut character_name: [u16; 17] = [0;17];
        let mut i: usize = 0;
        while i < 17
            invariant
                i <= 17,
                size == 0x140,
                region.covers(address, 0x140),
                forall|j: int|
                    0 <= j < i ==> (#[trigger] character_name[j]) == le_u16(
                        region.span(address, 0x140).subrange(0x78 + 2 * j, 0x7a + 2 * j),
                    ),
            decreases 17 - i,
        {
            let value = region.field_u16(address, size, 0x78 + 2 * (i as u64));
            character_name[i] = value;
            i += 1;
        }
        Some(PlayerInfo { character_name })
    }

    /// Returns the player's name. The units in front of the first zero unit
    /// have to be valid UTF-16.
    pub fn name(&self) -> (name: String)
        requires
            utf16_decoding(self.name_units()) is Some,
        ensures
            utf16_decoding(self.name_units()) == Some(name@),
    {
        let units = self.character_name.as_slice();
        let end = find_text_end(units);
        match decode_utf16(vstd::slice::slice_subrange(units, 0, end)) {
            Some(name) => name,
            None => vstd::pervasive::unreached(),
        }
    }

    /// Returns the player's name, or `None` where the units in front of the
    /// first zero unit are not valid UTF-16.
    pub fn try_name(&self) -> (r: Option<String>)
        ensures
            match r {
                Some(name) => utf16_decoding(self.name_units()) == Some(name@),
                None => utf16_decoding(self.name_units()) is None,
            },
    {
        let units = self.character_name.as_slice();
        let end = find_text_end(units);
        match decode_utf16(vstd::slice::slice_subrange(units, 0, end)) {
            Some(_) => Some(self.name()),
            None => None,
        }
    }
}

/// A character's appearance.
#[derive(Debug, Copy, Clone, PartialEq, Eq, Structural)]
pub struct FaceData {
    /// The character that this appearance belongs to.
    pub player_game_data: ForeignPtr,
}

impl FaceData {
    /// The number of bytes that the structure takes in the game's memory.
    pub const SIZE: u64 = 0x118;

    /// Whether this structure is what the bytes of `bytes` say.
    pub open spec fn decodes(&self, bytes: Seq<u8>) -> bool {
        self.player_game_data.address == le_u64(bytes.subrange(0x110, 0x118))
    }

    /// Returns the byte layout of the structure.
    pub fn layout() -> (l: StructLayout)
        ensures
            l.wf(),
            l.spec_size() == FaceData::SIZE,
            l.spec_align() == 8,
            l.spec_fields().len() == 3,
    {
        let l = StructLayout::new();
        let l = l.with(FieldKind::Pointer, 0x0, 8, 8);
        let l = l.with(FieldKind::Opaque, 0x8, 0x108, 1);
        let l = l.with(FieldKind::Pointer, 0x110, 8, 8);
        l.finish(0x118)
    }

    /// Reads the structure at `address`. `None` means that the region
    /// doesn't hold all of its bytes.
    pub fn read(region: &Region, address: u64) -> (r: Option<FaceData>)
        ensures
            r is Some <==> region.covers(address, 0x118),
            r is Some ==> r->Some_0.decodes(region.span(address, 0x118)),
    {
        if !region.contains(address, FaceData::SIZE) {
            return None;
        }
        Some(
            FaceData {
                player_game_data: ForeignPtr {
                    address: region.field_u64(address, FaceData::SIZE, 0x110),
                },
            },
        )
    }
}

/// Everything the game keeps about one character.
#[derive(Debug, Copy, Clone, PartialEq, Eq)]
pub struct PlayerGameData {
    /// Name and the like.
    pub player_info: PlayerInfo,
    /// What the character has equipped and holds.
    pub equipment: EquipGameData,
    /// The character's appearance.
    pub face_data: FaceData,
    /// The contents of the storage box.
    pub storage: ForeignPtr,
}

impl PlayerGameData {
    /// The number of bytes that the structure takes in the game's memory.
    pub const SIZE: u64 = 0x950;

    /// Where name and the like lie in the structure.
    pub const PLAYER_INFO_OFFSET: u64 = 0x10;

    /// Where the equipment lies in the structure.
    pub const EQUIPMENT_OFFSET: u64 = 0x228;

    /// Where the appearance lies in the structure.
    pub const FACE_DATA_OFFSET: u64 = 0x698;

    /// Where the pointer to the storage box lies in the structure.
    pub const STORAGE_OFFSET: u64 = 0x7b0;

    /// Whether this structure is what the bytes of `bytes` say.
    pub open spec fn decodes(&self, bytes: Seq<u8>) -> bool {
        &&& self.player_info.decodes(bytes.subrange(0x10, 0x150))
        &&& self.equipment.decodes(bytes.subrange(0x228, 0x550))
        &&& self.face_data.decodes(bytes.subrange(0x698, 0x7b0))
        &&& self.storage.address == le_u64(bytes.subrange(0x7b0, 0x7b8))
    }

    /// Returns the byte layout of the structure.
    pub fn layout() -> (l: StructLayout)
        ensures
            l.wf(),
            l.spec_size() == PlayerGameData::SIZE,
            l.spec_align() == 8,
            l.spec_fields().len() == 15,
            l.spec_fields()[2].offset == PlayerGameData::PLAYER_INFO_OFFSET,
            l.spec_fields()[2].size == PlayerInfo::SIZE,
            l.spec_fields()[4].offset == PlayerGameData::EQUIPMENT_OFFSET,
            l.spec_fields()[4].size == EquipGameData::SIZE,
            l.spec_fields()[6].offset == PlayerGameData::FACE_DATA_OFFSET,
            l.spec_fields()[6].size == FaceData::SIZE,
            l.spec_fields()[7].offset == PlayerGameData::STORAGE_OFFSET,
    {
        let l = StructLayout::new();
        let l = l.with(FieldKind::Pointer, 0x0, 8, 8);
        let l = l.with(FieldKind::Integer, 0x8, 8, 8);
        let l = l.with(FieldKind::Nested, 0x10, 0x140, 2);
        let l = l.with(FieldKind::Opaque, 0x150, 0xd8, 1);
        let l = l.with(FieldKind::Nested, 0x228, 0x328, 8);
        let l = l.with(FieldKind::Opaque, 0x550, 0x148, 1);
        let l = l.with(FieldKind::Nested, 0x698, 0x118, 8);
        let l = l.with(FieldKind::Pointer, 0x7b0, 8, 8);
        let l = l.with(FieldKind::Pointer, 0x7b8, 8, 8);
        let l = l.with(FieldKind::Opaque, 0x7c0, 0x58, 1);
        let l = l.with(FieldKind::Nested, 0x818, 0x18, 8);
        let l = l.with(FieldKind::Opaque, 0x830, 0xf0, 1);
        let l = l.with(FieldKind::Pointer, 0x920, 8, 8);
        let l = l.with(FieldKind::Pointer, 0x928, 8, 8);
        let l = l.with(FieldKind::Opaque, 0x930, 0x20, 1);
        l.finish(0x950)
    }

    /// Reads the structure at `address`. `None` means that the region
    /// doesn't hold all of its bytes.
    pub fn read(region: &Region, address: u64) -> (r: Option<PlayerGameData>)
        ensures
            r is Some <==> region.covers(address, 0x950),
            r is Some ==> r->Some_0.decodes(region.span(address, 0x950)),
    {
        let size = PlayerGameData::SIZE;
        if !region.contains(address, size) {
            return None;
        }
        proof {
            region.lemma_field_span(address, 0x950, 0x10, 0x140);
            region.lemma_field_span(address, 0x950, 0x228, 0x328);
            region.lemma_field_span(address, 0x950, 0x698, 0x118);
        }
        let player_info = PlayerInfo::read(region, address + 0x10);
        let equipment = EquipGameData::read(region, address + 0x228);
        let face_data = FaceData::read(region, address + 0x698);
        match (player_info, equipment, face_data) {
            (Some(player_info), Some(equipment), Some(face_data)) => Some(
                PlayerGameData {
                    player_info,
                    equipment,
                    face_data,
                    storage: ForeignPtr { address: region.field_u64(address, size, 0x7b0) },
                },
            ),
            _ => None,
        }
    }
}

/// The index held by the lowest 13 bits of `raw`.
pub open spec fn mapping_inventory_index(raw: u32) -> int {
    raw as int % 0x2000
}

/// The index held by bits 12 to 24 of `raw`.
pub open spec fn mapping_next_index(raw: u32) -> int {
    (raw as int / 0x1000) % 0x2000
}

/// Whether bit 25 of `raw` is set.
pub open spec fn mapping_flag(raw: u32) -> bool {
    (raw as int / 0x200_0000) % 2 == 1
}

/// `raw` with its lowest 13 bits replaced by the low 13 bits of `value`.
pub open spec fn with_mapping_inventory_index(raw: u32, value: u16) -> int {
    raw as int - raw as int % 0x2000 + value as int % 0x2000
}

/// `raw` with bits 12 to 24 replaced by the low 13 bits of `value`.
pub open spec fn with_mapping_next_index(raw: u32, value: u16) -> int {
    raw as int - ((raw as int / 0x1000) % 0x2000) * 0x1000 + (value as int % 0x2000) * 0x1000
}

/// The indices packed into the second word of an [`ItemIdMapping`].
///
/// The first index takes bits 0 to 12 and the second bits 12 to 24, so the
/// two share bit 12: writing one of them can change the other.
#[derive(Debug, Copy, Clone, PartialEq, Eq, Structural)]
pub struct ItemIdMappingIndices(pub u32);

impl ItemIdMappingIndices {
    /// The index in [`InventoryItemsData`] at which the item appears. If
    /// this is less than the key item capacity, it's a direct index into the
    /// key items. Otherwise, this minus the key item capacity is an index
    /// into the normal items.
    pub fn inventory_index(&self) -> (i: u16)
        ensures
            i == mapping_inventory_index(self.0),
    {
        proof {
            lemma2_to64();
            lemma_bit_range(self.0, 12, 0, 0, 1, 0x2000);
        }
        bit_range(self.0, 12, 0) as u16
    }

    /// Sets the index in [`InventoryItemsData`] at which the item appears.
    /// Bits of `value` above the thirteenth are dropped.
    pub fn set_inventory_index(&mut self, value: u16)
        ensures
            final(self).0 == with_mapping_inventory_index(old(self).0, value),
    {
        proof {
            lemma2_to64();
            lemma_bit_range(self.0, 12, 0, value as u32, 1, 0x2000);
        }
        let mut raw = self.0;
        set_bit_range(&mut raw, 12, 0, value as u32);
        self.0 = raw;
    }

    /// One plus the index of the mapping that follows this one in its
    /// bucket or in the list of free mappings, or 0 where none follows.
    pub fn next_index(&self) -> (i: u16)
        ensures
            i == mapping_next_index(self.0),
    {
        proof {
            lemma2_to64();
            lemma_bit_range(self.0, 24, 12, 0, 0x1000, 0x2000);
        }
        bit_range(self.0, 24, 12) as u16
    }

    /// Sets the index of the mapping that follows this one. Bits of `value`
    /// above the thirteenth are dropped.
    pub fn set_next_index(&mut self, value: u16)
        ensures
            final(self).0 == with_mapping_next_index(old(self).0, value),
    {
        proof {
            lemma2_to64();
            lemma_bit_range(self.0, 24, 12, value as u32, 0x1000, 0x2000);
        }
        let mut raw = self.0;
        set_bit_range(&mut raw, 24, 12, value as u32);
        self.0 = raw;
    }

    /// A flag whose meaning is unknown.
    pub fn unk04_25(&self) -> (b: bool)
        ensures
            b == mapping_flag(self.0),
    {
        proof {
            lemma2_to64();
            lemma_bit_range(self.0, 25, 25, 0, 0x200_0000, 2);
        }
        bit_range(self.0, 25, 25) != 0
    }
}

/// A mapping from an item ID to where the item lies in the inventory.
#[derive(Debug, Copy, Clone, PartialEq, Eq, Structural)]
pub struct ItemIdMapping {
    /// The ID of the item whose mapping this represents. This is invalid if
    /// there aren't currently any items in this bucket.
    pub item_id: MaybeInvalidCategorizedItemID,
    /// Indices into the lists of [`InventoryItemsData`].
    pub indices: ItemIdMappingIndices,
}

impl ItemIdMapping {
    /// The number of bytes that one mapping takes in the game's memory.
    pub const SIZE: u64 = 0x8;

    /// Whether this mapping is what the bytes of `bytes` say.
    pub open spec fn decodes(&self, bytes: Seq<u8>) -> bool {
        &&& self.item_id@ == le_u32(bytes.subrange(0x0, 0x4))
        &&& self.indices.0 == le_u32(bytes.subrange(0x4, 0x8))
    }

    /// Reads the mapping at `address`. `None` means that the region doesn't
    /// hold all of its bytes.
    pub fn read(region: &Region, address: u64) -> (r: Option<ItemIdMapping>)
        ensures
            r is Some <==> region.covers(address, 0x8),
            r is Some ==> r->Some_0.decodes(region.span(address, 0x8)),
    {
        if !region.contains(address, ItemIdMapping::SIZE) {
            return None;
        }
        Some(
            ItemIdMapping {
                item_id: MaybeInvalidCategorizedItemID::from_raw(
                    region.field_u32(address, ItemIdMapping::SIZE, 0x0),
                ),
                indices: ItemIdMappingIndices(region.field_u32(address, ItemIdMapping::SIZE, 0x4)),
            },
        )
    }
}

} // verus!
