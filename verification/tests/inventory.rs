use darksouls3::shared::memory::Region;
use darksouls3::shared::pointer::ForeignPtr;
use darksouls3::sprj::item::{CategorizedItemID, ItemCategory, MaybeInvalidCategorizedItemID};
use darksouls3::sprj::player_game_data::{
    read_entries, EquipGameData, EquipInventoryData, EquipInventoryDataListEntry, FaceData,
    InventoryItemsData, ItemIdMapping, ItemIdMappingIndices, PlayerGameData, PlayerInfo,
    MAIN_MENU_ITEM_COUNT,
};

const BASE: u64 = 0x2_0000;
const KEYS: u64 = BASE + 0x100;
const NORMALS: u64 = BASE + 0x200;

fn put_u32(bytes: &mut [u8], at: usize, value: u32) {
    bytes[at..at + 4].copy_from_slice(&value.to_le_bytes());
}

fn put_u64(bytes: &mut [u8], at: usize, value: u64) {
    bytes[at..at + 8].copy_from_slice(&value.to_le_bytes());
}

fn put_entry(bytes: &mut [u8], at: usize, handle: u32, item: u32, quantity: u32) {
    put_u32(bytes, at, handle);
    put_u32(bytes, at + 4, item);
    put_u32(bytes, at + 8, quantity);
    put_u32(bytes, at + 12, 0xcccc_cccc);
}

/// A header with two key slots and three normal slots. The second key slot
/// and the first and third normal slots hold an item.
fn inventory_region() -> Region {
    let mut bytes = vec![0u8; 0x300];
    put_u32(&mut bytes, 0x0, 5);
    put_u32(&mut bytes, 0x4, 3);
    put_u64(&mut bytes, 0x8, NORMALS);
    put_u32(&mut bytes, 0x10, 2);
    put_u32(&mut bytes, 0x14, 2);
    put_u64(&mut bytes, 0x18, KEYS);
    put_u32(&mut bytes, 0x20, 1);
    put_u64(&mut bytes, 0x58, 0x1111);
    put_u64(&mut bytes, 0x68, 0x2222);
    bytes[0x70] = 7;
    put_entry(&mut bytes, 0x100, 0, 0xffff_ffff, 0);
    put_entry(&mut bytes, 0x110, 0xb000_0001, 0x4000_07d8, 1);
    put_entry(&mut bytes, 0x200, 0xb000_0002, 0x0020_0b20, 1);
    put_entry(&mut bytes, 0x210, 0, 0xffff_ffff, 0);
    put_entry(&mut bytes, 0x220, 0xb000_0003, 0x4000_0064, 15);
    Region::new(BASE, bytes).unwrap()
}

#[test]
fn inventory_header_is_decoded_field_by_field() {
    let region = inventory_region();
    let data = InventoryItemsData::read(&region, BASE).unwrap();
    assert_eq!(data.total_capacity, 5);
    assert_eq!(data.normal_items_capacity, 3);
    assert_eq!(data.normal_items_head, ForeignPtr { address: NORMALS });
    assert_eq!(data.normal_items_count, 2);
    assert_eq!(data.key_items_capacity, 2);
    assert_eq!(data.key_items_head, ForeignPtr { address: KEYS });
    assert_eq!(data.key_items_count, 1);
    assert_eq!(data.item_id_mapping_indices.address, 0x1111);
    assert_eq!(data.item_id_mappings.address, 0x2222);
    assert_eq!(data.next_index, 7);
    assert!(InventoryItemsData::read(&region, BASE + 0x300 - 0x77).is_none());
    assert!(InventoryItemsData::read(&region, BASE - 1).is_none());
}

#[test]
fn inventory_entries_are_read_slot_by_slot() {
    let region = inventory_region();
    let data = InventoryItemsData::read(&region, BASE).unwrap();
    let keys = data.key_entries(&region).unwrap();
    assert_eq!(keys.len(), 2);
    assert!(keys[0].is_empty());
    assert!(!keys[1].is_empty());
    assert_eq!(keys[1].gaitem_handle, 0xb000_0001);
    assert_eq!(keys[1].item_id.value(), 0x4000_07d8);
    let normals = data.normal_entries(&region).unwrap();
    assert_eq!(normals.len(), 3);
    assert_eq!(normals[2].quantity, 15);
    assert!(normals[1].is_empty());
    let pool = data.normal_pool().unwrap();
    assert_eq!(read_entries(&pool, &region), Some(normals));
    assert_eq!(data.key_pool().unwrap().occupied_slots(&region), vec![1]);
    assert_eq!(pool.occupied_slots(&region), vec![0, 2]);
}

#[test]
fn inventory_index_runs_through_keys_then_normals() {
    let region = inventory_region();
    let data = InventoryItemsData::read(&region, BASE).unwrap();
    assert_eq!(data.address_of(0), Some(KEYS));
    assert_eq!(data.address_of(1), Some(KEYS + 0x10));
    assert_eq!(data.address_of(2), Some(NORMALS));
    assert_eq!(data.address_of(4), Some(NORMALS + 0x20));
    assert_eq!(data.address_of(5), None);
    assert_eq!(data.get(&region, 1).unwrap().item_id.value(), 0x4000_07d8);
    assert_eq!(data.get(&region, 2).unwrap().gaitem_handle, 0xb000_0002);
    assert_eq!(data.index(&region, 4).quantity, 15);
    assert!(data.get(&region, 0).unwrap().is_empty());
    assert_eq!(data.get(&region, 5), None);
    assert_eq!(data.get(&region, u32::MAX), None);
}

#[test]
fn inventory_walk_yields_only_held_items() {
    let region = inventory_region();
    let data = InventoryItemsData::read(&region, BASE).unwrap();
    let mut items = data.items(&region).unwrap();
    let first = items.next().unwrap();
    assert_eq!(first.item_id, CategorizedItemID::new_const(0x4000_07d8));
    assert_eq!(first.gaitem_handle, 0xb000_0001);
    let second = items.next().unwrap();
    assert_eq!(second.item_id.value(), 0x0020_0b20);
    assert_eq!(second.item_id.category(), ItemCategory::Weapon);
    let third = items.next().unwrap();
    assert_eq!(third.item_id.value(), 0x4000_0064);
    assert_eq!(third.quantity, 15);
    assert_eq!(third.to_entry().item_id.value(), 0x4000_0064);
    assert!(items.next().is_none());
    assert!(items.next().is_none());
}

#[test]
fn inventory_can_be_changed_while_walking() {
    let mut region = inventory_region();
    let data = InventoryItemsData::read(&region, BASE).unwrap();
    let mut items = data.items_mut().unwrap();
    let mut seen = Vec::new();
    while let Some((address, entry)) = items.next(&region) {
        seen.push((address, entry.item_id.value()));
        let mut changed = entry.to_entry();
        changed.quantity += 1;
        assert!(changed.write(&mut region, address));
    }
    assert_eq!(
        seen,
        vec![(KEYS + 0x10, 0x4000_07d8), (NORMALS, 0x0020_0b20), (NORMALS + 0x20, 0x4000_0064)]
    );
    assert!(items.next(&region).is_none());
    assert!(items.next(&region).is_none());
    assert_eq!(data.get(&region, 1).unwrap().quantity, 2);
    assert_eq!(data.get(&region, 4).unwrap().quantity, 16);
    assert_eq!(region.read_u32(NORMALS + 0x2c), Some(0xcccc_cccc));
    assert_eq!(region.read_u32(NORMALS + 0x10 + 4), Some(0xffff_ffff));
}

#[test]
fn inventory_set_overwrites_one_slot() {
    let mut region = inventory_region();
    let data = InventoryItemsData::read(&region, BASE).unwrap();
    let entry = EquipInventoryDataListEntry {
        gaitem_handle: 0xb000_0009,
        item_id: MaybeInvalidCategorizedItemID::from_raw(0x2000_4e2a),
        quantity: 1,
    };
    assert!(data.set(&mut region, 3, &entry));
    assert_eq!(data.get(&region, 3), Some(entry));
    assert_eq!(data.normal_pool().unwrap().occupied_slots(&region), vec![0, 1, 2]);
    assert_eq!(region.read_u32(NORMALS + 0x1c), Some(0xcccc_cccc));
    assert_eq!(data.get(&region, 2).unwrap().item_id.value(), 0x0020_0b20);
    assert!(!data.set(&mut region, 5, &entry));
}

#[test]
fn inventory_outside_the_region_is_not_walked() {
    let mut bytes = vec![0u8; 0x78];
    put_u32(&mut bytes, 0x4, 3);
    put_u64(&mut bytes, 0x8, 0x9_0000);
    put_u64(&mut bytes, 0x18, BASE);
    let region = Region::new(BASE, bytes).unwrap();
    let data = InventoryItemsData::read(&region, BASE).unwrap();
    assert!(data.items(&region).is_none());
    assert!(data.normal_entries(&region).is_none());
    assert_eq!(data.key_entries(&region), Some(Vec::new()));
    assert_eq!(data.get(&region, 0), None);
}

#[test]
fn entry_is_empty_exactly_without_a_known_category() {
    let held = EquipInventoryDataListEntry {
        gaitem_handle: 1,
        item_id: MaybeInvalidCategorizedItemID::from_raw(0x8000_0010),
        quantity: 3,
    };
    assert!(!held.is_empty());
    let item = held.as_non_empty().unwrap();
    assert_eq!(item.item_id.category(), ItemCategory::Gem);
    assert_eq!(item.quantity, 3);
    assert_eq!(item.to_entry(), held);
    for raw in [0xffff_ffffu32, 0x5000_0000, 0x9000_0001, 0xf000_0000] {
        let entry = EquipInventoryDataListEntry {
            gaitem_handle: 1,
            item_id: MaybeInvalidCategorizedItemID::from_raw(raw),
            quantity: 3,
        };
        assert!(entry.is_empty());
        assert!(entry.as_non_empty().is_none());
    }
}

#[test]
fn entry_written_reads_back_and_keeps_its_padding() {
    let mut region = inventory_region();
    let entry = EquipInventoryDataListEntry {
        gaitem_handle: 0x0102_0304,
        item_id: MaybeInvalidCategorizedItemID::from_raw(0x1000_0001),
        quantity: 0x0a0b_0c0d,
    };
    assert!(entry.write(&mut region, KEYS));
    assert_eq!(EquipInventoryDataListEntry::read(&region, KEYS), Some(entry));
    assert_eq!(
        region.read_bytes(KEYS, 16).unwrap(),
        vec![4, 3, 2, 1, 1, 0, 0, 0x10, 0xd, 0xc, 0xb, 0xa, 0xcc, 0xcc, 0xcc, 0xcc]
    );
    assert!(!entry.write(&mut region, BASE + 0x300 - 0xf));
    assert!(EquipInventoryDataListEntry::read(&region, BASE + 0x300 - 0xf).is_none());
}

fn equipment_region(normal_items_count: u32) -> Region {
    let mut bytes = vec![0u8; 0x328];
    for slot in 0..22usize {
        put_u32(&mut bytes, 0x24 + slot * 4, slot as u32 + 100);
    }
    put_u32(&mut bytes, 0x24 + 4, (-1i32) as u32);
    put_u32(&mut bytes, 0x1a8 + 0x10 + 0x10, normal_items_count);
    put_u32(&mut bytes, 0x1a8 + 0x88, (-3i32) as u32);
    bytes[0x1a8 + 0x8c] = 1;
    Region::new(BASE, bytes).unwrap()
}

#[test]
fn equipment_is_decoded_with_its_inventory() {
    let region = equipment_region(40);
    let equipment = EquipGameData::read(&region, BASE).unwrap();
    assert_eq!(equipment.equipment_indexes[0], 100);
    assert_eq!(equipment.equipment_indexes[1], -1);
    assert_eq!(equipment.equipment_indexes[21], 121);
    assert_eq!(equipment.equip_inventory_data.items_data.normal_items_count, 40);
    assert_eq!(equipment.equip_inventory_data.max_item_index, -3);
    assert!(equipment.equip_inventory_data.is_inventory_full);
    let inventory = EquipInventoryData::read(&region, BASE + 0x1a8).unwrap();
    assert_eq!(inventory, equipment.equip_inventory_data);
    assert!(EquipGameData::read(&region, BASE + 1).is_none());
}

#[test]
fn main_menu_save_is_told_by_its_item_count() {
    assert_eq!(MAIN_MENU_ITEM_COUNT, 12);
    assert!(EquipGameData::read(&equipment_region(12), BASE).unwrap().is_main_menu());
    assert!(!EquipGameData::read(&equipment_region(0), BASE).unwrap().is_main_menu());
    assert!(!EquipGameData::read(&equipment_region(11), BASE).unwrap().is_main_menu());
    assert!(!EquipGameData::read(&equipment_region(13), BASE).unwrap().is_main_menu());
    assert!(!EquipGameData::read(&equipment_region(0x0100_000c), BASE).unwrap().is_main_menu());
}

fn player_region(name: &[u16]) -> Region {
    let mut bytes = vec![0u8; 0x140];
    for (i, unit) in name.iter().enumerate() {
        bytes[0x78 + 2 * i..0x78 + 2 * i + 2].copy_from_slice(&unit.to_le_bytes());
    }
    Region::new(BASE, bytes).unwrap()
}

#[test]
fn player_name_stops_at_the_first_zero_unit() {
    let units: Vec<u16> = "Ashen One".encode_utf16().collect();
    let info = PlayerInfo::read(&player_region(&units), BASE).unwrap();
    assert_eq!(info.character_name[0], 'A' as u16);
    assert_eq!(info.character_name[9], 0);
    assert_eq!(info.try_name(), Some(String::from("Ashen One")));
    assert_eq!(info.name(), "Ashen One");

    let mut broken = units.clone();
    broken.push(0);
    broken.push('x' as u16);
    let info = PlayerInfo::read(&player_region(&broken), BASE).unwrap();
    assert_eq!(info.name(), "Ashen One");
}

#[test]
fn player_name_may_be_empty_or_fill_the_field() {
    let info = PlayerInfo::read(&player_region(&[]), BASE).unwrap();
    assert_eq!(info.name(), "");
    let full: Vec<u16> = "0123456789abcdefg".encode_utf16().collect();
    assert_eq!(full.len(), 17);
    let info = PlayerInfo::read(&player_region(&full), BASE).unwrap();
    assert_eq!(info.name(), "0123456789abcdefg");
    let wide: Vec<u16> = "灰の人🔥".encode_utf16().collect();
    let info = PlayerInfo::read(&player_region(&wide), BASE).unwrap();
    assert_eq!(info.try_name(), Some(String::from("灰の人🔥")));
}

#[test]
fn player_name_that_is_no_text_is_refused() {
    let info = PlayerInfo::read(&player_region(&[0x41, 0xd800, 0x42]), BASE).unwrap();
    assert_eq!(info.try_name(), None);
    let info = PlayerInfo::read(&player_region(&[0xdc00]), BASE).unwrap();
    assert_eq!(info.try_name(), None);
    assert!(PlayerInfo::read(&player_region(&[]), BASE + 2).is_none());
}

#[test]
fn face_data_points_back_at_the_player() {
    let mut bytes = vec![0u8; 0x118];
    put_u64(&mut bytes, 0x110, 0x1_4455_6670);
    let region = Region::new(BASE, bytes).unwrap();
    let face = FaceData::read(&region, BASE).unwrap();
    assert_eq!(face.player_game_data.address, 0x1_4455_6670);
    assert!(FaceData::read(&region, BASE + 8).is_none());
}

#[test]
fn mapping_indices_share_one_word() {
    let mut indices = ItemIdMappingIndices(0);
    indices.set_inventory_index(0x1abc);
    assert_eq!(indices.0, 0x1abc);
    assert_eq!(indices.inventory_index(), 0x1abc);
    assert_eq!(indices.next_index(), 1);
    indices.set_next_index(0x0155);
    assert_eq!(indices.0, 0x0015_5abc);
    assert_eq!(indices.next_index(), 0x0155);
    assert_eq!(indices.inventory_index(), 0x1abc);
    assert!(!indices.unk04_25());
    let high = ItemIdMappingIndices(0x0200_0000);
    assert!(high.unk04_25());
    assert_eq!(high.inventory_index(), 0);
    assert_eq!(high.next_index(), 0);
    let all = ItemIdMappingIndices(0xffff_ffff);
    assert_eq!(all.inventory_index(), 0x1fff);
    assert_eq!(all.next_index(), 0x1fff);
}

#[test]
fn mapping_index_setters_drop_bits_that_do_not_fit() {
    let mut indices = ItemIdMappingIndices(0xfe00_0000);
    indices.set_inventory_index(0xffff);
    assert_eq!(indices.0, 0xfe00_1fff);
    indices.set_next_index(0xe000);
    assert_eq!(indices.0, 0xfe00_0fff);
    indices.set_next_index(0x2001);
    assert_eq!(indices.0, 0xfe00_1fff);
}

#[test]
fn item_mapping_is_decoded() {
    let mut bytes = vec![0u8; 8];
    put_u32(&mut bytes, 0, 0x4000_0064);
    put_u32(&mut bytes, 4, 0x0000_3005);
    let region = Region::new(BASE, bytes).unwrap();
    let mapping = ItemIdMapping::read(&region, BASE).unwrap();
    assert_eq!(mapping.item_id.value(), 0x4000_0064);
    assert_eq!(mapping.indices.inventory_index(), 0x1005);
    assert_eq!(mapping.indices.next_index(), 3);
    assert!(ItemIdMapping::read(&region, BASE + 1).is_none());
}

#[test]
fn inventory_slots_to_be_changed_are_given_as_pools() {
    let mut region = inventory_region();
    let data = InventoryItemsData::read(&region, BASE).unwrap();
    let keys = data.key_entries_mut().unwrap();
    let normals = data.normal_entries_mut().unwrap();
    assert_eq!((keys.head(), keys.capacity()), (KEYS, 2));
    assert_eq!((normals.head(), normals.capacity()), (NORMALS, 3));
    assert_eq!(data.index_mut(&region, 0), KEYS);
    assert_eq!(data.index_mut(&region, 3), NORMALS + 0x10);
    let entry = EquipInventoryDataListEntry {
        gaitem_handle: 0xb000_0004,
        item_id: MaybeInvalidCategorizedItemID::from_raw(0x4000_0001),
        quantity: 9,
    };
    let at = data.index_mut(&region, 0);
    assert!(entry.write(&mut region, at));
    assert_eq!(keys.occupied_slots(&region), vec![0, 1]);
    assert_eq!(data.index(&region, 0), entry);
}

#[test]
fn player_data_is_decoded_with_its_parts() {
    let mut bytes = vec![0u8; 0x950];
    for (i, unit) in "Anri".encode_utf16().enumerate() {
        bytes[0x10 + 0x78 + 2 * i..0x10 + 0x78 + 2 * i + 2].copy_from_slice(&unit.to_le_bytes());
    }
    put_u32(&mut bytes, 0x228 + 0x24, 77);
    put_u32(&mut bytes, 0x228 + 0x1a8 + 0x10 + 0x10, 12);
    put_u64(&mut bytes, 0x698 + 0x110, BASE);
    put_u64(&mut bytes, 0x7b0, 0x1_5000_0000);
    let region = Region::new(BASE, bytes).unwrap();
    let player = PlayerGameData::read(&region, BASE).unwrap();
    assert_eq!(player.player_info.name(), "Anri");
    assert_eq!(player.equipment.equipment_indexes[0], 77);
    assert!(player.equipment.is_main_menu());
    assert_eq!(player.face_data.player_game_data.address, BASE);
    assert_eq!(player.storage.address, 0x1_5000_0000);
    assert_eq!(player.player_info, PlayerInfo::read(&region, BASE + 0x10).unwrap());
    assert_eq!(player.equipment, EquipGameData::read(&region, BASE + 0x228).unwrap());
    assert!(PlayerGameData::read(&region, BASE + 1).is_none());
}

#[test]
fn entry_written_back_changes_nothing() {
    let mut region = inventory_region();
    let before = region.as_slice().to_vec();
    for address in [KEYS, KEYS + 0x10, NORMALS, NORMALS + 0x10, NORMALS + 0x20] {
        let entry = EquipInventoryDataListEntry::read(&region, address).unwrap();
        assert!(entry.write(&mut region, address));
    }
    assert_eq!(region.as_slice(), before.as_slice());
}
