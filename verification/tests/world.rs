use darksouls3::app_menu::new_menu_system::{MenuWindow, NewMenuSystem};
use darksouls3::dlui::{
    DLUserInputDevice, DLUserInputDeviceImpl, DLUserInputManager, DLUserInputSuppressor,
    VirtualInputData,
};
use darksouls3::shared::layout::{FieldKind, Layout};
use darksouls3::fd4::{FD4PadManager, FD4PadManager0x18};
use darksouls3::shared::instance::InstanceError;
use darksouls3::shared::memory::Region;
use darksouls3::shared::unknown_struct::UnknownStruct;
use darksouls3::sprj::field_area::FieldArea;
use darksouls3::sprj::game_data_man::GameDataMan;
use darksouls3::sprj::world_block::WorldBlockChr;
use darksouls3::sprj::world_chr_man::WorldChrMan;
use darksouls3::sprj::world_info::{
    WorldAreaInfo, WorldBlockInfo, WorldInfo, WorldInfoOwner, WORLD_AREA_CAPACITY,
    WORLD_BLOCK_CAPACITY,
};

const BASE: u64 = 0x1_4400_0000;

fn put_u32(bytes: &mut [u8], at: usize, value: u32) {
    bytes[at..at + 4].copy_from_slice(&value.to_le_bytes());
}

fn put_u64(bytes: &mut [u8], at: usize, value: u64) {
    bytes[at..at + 8].copy_from_slice(&value.to_le_bytes());
}

fn chr_man_region() -> Region {
    let mut bytes = vec![0u8; 0x3580];
    put_u64(&mut bytes, 0x8, 0x1_5000_0000);
    put_u32(&mut bytes, 0x10, 2);
    put_u64(&mut bytes, 0x18, BASE + 0x660);
    put_u32(&mut bytes, 0x20, 3);
    put_u64(&mut bytes, 0x28, BASE + 0x8e0);
    put_u32(&mut bytes, 0x38, 1);
    put_u64(&mut bytes, 0x40, 0x1_6000_0000);
    put_u32(&mut bytes, 0x50, 6);
    put_u64(&mut bytes, 0x58, 0x1_6000_1000);
    put_u32(&mut bytes, 0x68, 0);
    put_u64(&mut bytes, 0x80, 0x1_7000_0000);
    put_u32(&mut bytes, 0xc0, (-1i32) as u32);
    for slot in [0usize, 4, 31] {
        let at = 0x8e0 + slot * 0x138;
        put_u64(&mut bytes, at, 0x1_4000_0000 + slot as u64);
        put_u32(&mut bytes, at + 0x80, 16);
        put_u64(&mut bytes, at + 0x88, 0x1_8000_0000 + slot as u64 * 0x1000);
        put_u32(&mut bytes, at + 0xa8, 7);
        put_u64(&mut bytes, at + 0xb0, 0x1_9000_0000);
    }
    Region::new(BASE, bytes).unwrap()
}

#[test]
fn chr_man_is_decoded_field_by_field() {
    let region = chr_man_region();
    let man = WorldChrMan::read(&region, BASE).unwrap();
    assert_eq!(man.address.address(), BASE);
    assert_eq!(man.world_info_owner.address, 0x1_5000_0000);
    assert_eq!(man.world_area_chr_count, 2);
    assert_eq!(man.world_area_chr_ptr.address, BASE + 0x660);
    assert_eq!(man.world_block_chr_count, 3);
    assert_eq!(man.world_block_chr_ptr.address, BASE + 0x8e0);
    assert_eq!(man.player_chr_set.capacity, 1);
    assert_eq!(man.player_chr_set.entries.address, 0x1_6000_0000);
    assert_eq!(man.ghost_chr_set.capacity, 6);
    assert_eq!(man.ghost_chr_set.entries.address, 0x1_6000_1000);
    assert_eq!(man.debug_chr_set.capacity, 0);
    assert_eq!(man.main_player.address, 0x1_7000_0000);
    assert_eq!(man.loaded_world_block_chr_count, -1);
    assert!(WorldChrMan::read(&region, BASE + 8).is_none());
    assert!(WorldChrMan::read(&region, 0).is_none());
}

#[test]
fn chr_man_walks_the_blocks_that_are_loaded() {
    let region = chr_man_region();
    let man = WorldChrMan::read(&region, BASE).unwrap();
    let pool = man.world_block_chr().unwrap();
    assert_eq!(pool.head(), BASE + 0x8e0);
    assert_eq!(pool.capacity(), 32);
    assert_eq!(pool.occupied_slots(&region), vec![0, 4, 31]);

    let mut walk = man.world_block_chrs(&region).unwrap();
    let mut blocks = Vec::new();
    while let Some(slot) = walk.next() {
        let address = walk.pool().address_of(slot);
        blocks.push(WorldBlockChr::read(&region, address).unwrap());
    }
    assert_eq!(blocks.len(), 3);
    assert_eq!(blocks[1].chr_set.capacity, 16);
    assert_eq!(blocks[1].chr_set.entries.address, 0x1_8000_4000);
    assert_eq!(blocks[2].chr_set.entries.address, 0x1_8001_f000);
    assert_eq!(blocks[0].mappings_length, 7);
    assert_eq!(blocks[0].mappings.address, 0x1_9000_0000);

    let mut walk = man.world_block_chrs_mut().unwrap();
    assert_eq!(walk.next(&region), Some(0));
    assert_eq!(walk.next(&region), Some(4));
    assert_eq!(walk.next(&region), Some(31));
    assert_eq!(walk.next(&region), None);
}

#[test]
fn block_slot_is_empty_when_it_starts_with_null() {
    let region = chr_man_region();
    assert!(WorldBlockChr::read(&region, BASE + 0x8e0 + 0x138).is_some());
    assert!(WorldBlockChr::read(&region, BASE + 0x3580 - 0x137).is_none());
    let man = WorldChrMan::read(&region, BASE).unwrap();
    let pool = man.world_block_chr().unwrap();
    assert!(pool.is_occupied(&region, 4));
    assert!(!pool.is_occupied(&region, 5));
}

fn world_info_region() -> Region {
    let mut bytes = vec![0u8; 0xae90];
    put_u32(&mut bytes, 0x8, 3);
    put_u64(&mut bytes, 0x10, BASE + 0x30);
    put_u32(&mut bytes, 0x18, 2);
    put_u64(&mut bytes, 0x20, BASE + 0x490);
    for area in 0..3usize {
        let at = 0x30 + area * 0x38;
        bytes[at + 0xb] = 30 + area as u8;
        put_u64(&mut bytes, at + 0x10, BASE);
    }
    for block in 0..2usize {
        let at = 0x490 + block * 0x70;
        put_u64(&mut bytes, at + 0x10, BASE);
        put_u64(&mut bytes, at + 0x18, BASE + 0x30 + 0x38);
        put_u32(&mut bytes, at + 0x20, block as u32);
    }
    put_u32(&mut bytes, 0x12a0, 3);
    put_u64(&mut bytes, 0x12a8, BASE + 0x12e0);
    put_u32(&mut bytes, 0x12b8, 2);
    put_u64(&mut bytes, 0x12c0, BASE + 0x2780);
    Region::new(BASE, bytes).unwrap()
}

#[test]
fn world_info_lists_only_the_areas_in_use() {
    let region = world_info_region();
    let info = WorldInfo::read(&region, BASE).unwrap();
    assert_eq!(info.world_area_info_count, 3);
    assert_eq!(info.world_area_info_list_ptr.address, BASE + 0x30);
    assert_eq!((WORLD_AREA_CAPACITY, WORLD_BLOCK_CAPACITY), (20, 32));
    let areas = info.world_area_info().unwrap();
    assert_eq!(areas.count(), 3);
    assert_eq!(areas.capacity(), 20);
    assert_eq!(areas.addresses(), vec![BASE + 0x30, BASE + 0x68, BASE + 0xa0]);
    let numbers: Vec<u8> = areas
        .addresses()
        .iter()
        .map(|a| WorldAreaInfo::read(&region, *a).unwrap().area_number)
        .collect();
    assert_eq!(numbers, vec![30, 31, 32]);
    assert_eq!(WorldAreaInfo::read(&region, BASE + 0x30).unwrap().owner.address, BASE);
}

#[test]
fn world_info_lists_only_the_blocks_in_use() {
    let region = world_info_region();
    let info = WorldInfo::read(&region, BASE).unwrap();
    let blocks = info.world_block_info().unwrap();
    assert_eq!(blocks.count(), 2);
    assert_eq!(blocks.capacity(), 32);
    assert_eq!(blocks.addresses(), vec![BASE + 0x490, BASE + 0x500]);
    let second = WorldBlockInfo::read(&region, BASE + 0x500).unwrap();
    assert_eq!(second.owner.address, BASE);
    assert_eq!(second.world_area_info.address, BASE + 0x68);
    assert_eq!(second.world_block_index, 1);
}

#[test]
fn world_info_with_a_count_above_its_capacity_lists_nothing() {
    let mut region = world_info_region();
    assert!(region.write_u32(BASE + 0x8, 21));
    assert!(region.write_u32(BASE + 0x18, 0));
    let info = WorldInfo::read(&region, BASE).unwrap();
    assert!(info.world_area_info().is_none());
    assert_eq!(info.world_block_info().unwrap().addresses(), Vec::<u64>::new());
    assert!(region.write_u32(BASE + 0x8, 20));
    let info = WorldInfo::read(&region, BASE).unwrap();
    assert_eq!(info.world_area_info().unwrap().addresses().len(), 20);
}

#[test]
fn world_info_owner_starts_with_the_world_info() {
    let region = world_info_region();
    let owner = WorldInfoOwner::read(&region, BASE).unwrap();
    assert_eq!(owner.super_world_info, WorldInfo::read(&region, BASE).unwrap());
    assert_eq!(owner.world_area_res_count, 3);
    assert_eq!(owner.world_area_res_list_ptr.address, BASE + 0x12e0);
    assert_eq!(owner.world_block_res_count, 2);
    assert_eq!(owner.world_block_res_list_ptr.address, BASE + 0x2780);
    assert!(WorldInfoOwner::read(&region, BASE + 1).is_none());
    assert!(WorldInfoOwner::read(&region, 0).is_none());
    assert!(WorldInfo::read(&region, 0).is_none());
}

#[test]
fn menu_is_open_while_its_cleanup_job_is_set() {
    let mut bytes = vec![0u8; 0x3098];
    let region = Region::new(BASE, bytes.clone()).unwrap();
    let menu = NewMenuSystem::read(&region, BASE).unwrap();
    assert_eq!(menu.windows, BASE + 0x40);
    assert_eq!(menu.finalize_callback_job, 0);
    assert!(!menu.is_menu_open());
    put_u64(&mut bytes, 0xa0, 0x1_4123_4560);
    let region = Region::new(BASE, bytes).unwrap();
    let menu = NewMenuSystem::read(&region, BASE).unwrap();
    assert_eq!(menu.finalize_callback_job, 0x1_4123_4560);
    assert!(menu.is_menu_open());
    assert!(NewMenuSystem::read(&region, BASE + 1).is_none());
}

#[test]
fn menu_window_and_field_area_are_decoded() {
    let mut bytes = vec![0u8; 0x9d8];
    put_u64(&mut bytes, 0x90, 0x55);
    put_u64(&mut bytes, 0x8, 0x1_4800_0000);
    let region = Region::new(BASE, bytes).unwrap();
    assert_eq!(MenuWindow::read(&region, BASE).unwrap().unk90, 0x55);
    assert!(MenuWindow::read(&region, BASE + 8).is_none());
    let area = FieldArea::read(&region, BASE).unwrap();
    assert_eq!(area.world_res.address, 0x1_4800_0000);
    assert_eq!(area.world_res().unwrap().address(), 0x1_4800_0000);
    assert_eq!(area.world_res_mut().unwrap().address(), 0x1_4800_0000);
    let empty = FieldArea::read(&region, BASE + 0x100).unwrap();
    assert!(empty.world_res().is_none());
    assert!(empty.world_res_mut().is_none());
    assert!(FieldArea::read(&region, BASE + 0x9d8 - 0xef).is_none());
}

#[test]
fn singletons_are_found_through_their_slots() {
    let mut bytes = vec![0u8; 16];
    put_u64(&mut bytes, 0, 0x1_4abc_0000);
    let region = Region::new(BASE, bytes).unwrap();
    assert_eq!(NewMenuSystem::instance(Some(BASE), &region).unwrap().address(), 0x1_4abc_0000);
    assert_eq!(FieldArea::instance(Some(BASE), &region).unwrap().address(), 0x1_4abc_0000);
    assert_eq!(DLUserInputManager::instance(Some(BASE), &region).unwrap().address(), 0x1_4abc_0000);
    assert_eq!(NewMenuSystem::instance(Some(BASE + 8), &region), Err(InstanceError::Null));
    assert_eq!(FieldArea::instance(None, &region), Err(InstanceError::NotFound));
    assert_eq!(DLUserInputManager::instance(Some(BASE + 9), &region), Err(InstanceError::NotFound));
}

#[test]
fn game_data_man_points_at_the_players() {
    let mut bytes = vec![0u8; 0x130];
    put_u64(&mut bytes, 0x10, 0x1_4300_0000);
    put_u64(&mut bytes, 0x18, 0x1_4300_0950);
    let region = Region::new(BASE, bytes).unwrap();
    let man = GameDataMan::read(&region, BASE).unwrap();
    assert_eq!(man.main_player_game_data.address, 0x1_4300_0000);
    assert_eq!(man.network_players.address, 0x1_4300_0950);
    assert!(GameDataMan::read(&region, BASE + 1).is_none());
}

#[test]
fn input_device_is_decoded() {
    let mut bytes = vec![0u8; 0x78];
    put_u64(&mut bytes, 0x8, 0x11);
    put_u64(&mut bytes, 0x60, 0x2000);
    put_u64(&mut bytes, 0x68, 0x2010);
    let region = Region::new(BASE, bytes).unwrap();
    let device = DLUserInputDevice::read(&region, BASE).unwrap();
    assert_eq!(device.allocator.address, 0x11);
    assert_eq!(device.extensions_begin.address, 0x2000);
    assert_eq!(device.extensions_end.address, 0x2010);
    assert!(DLUserInputDevice::read(&region, BASE + 1).is_none());
    assert_eq!(VirtualInputData::at(0x1000).unwrap().bitset, 0x1028);
    assert!(VirtualInputData::at(u64::MAX - 0x27).is_none());
    assert!(VirtualInputData::at(u64::MAX - 0x28).is_some());
}

#[test]
fn unknown_bytes_are_copied_as_they_are() {
    let region = Region::new(BASE, (0u8..16).collect()).unwrap();
    assert_eq!(UnknownStruct::<4>::read(&region, BASE + 2), Some(vec![2, 3, 4, 5]));
    assert_eq!(UnknownStruct::<4>::read(&region, BASE + 13), None);
    assert_eq!(UnknownStruct::<0>::read(&region, BASE + 16), Some(Vec::new()));
    assert_eq!(UnknownStruct([1u8, 2]), UnknownStruct([1u8, 2]));
}

#[test]
fn input_device_is_decoded_with_what_lies_beside_it() {
    let mut bytes = vec![0u8; 0x150];
    put_u64(&mut bytes, 0x8, 0x11);
    put_u64(&mut bytes, 0x60, 0x2000);
    put_u64(&mut bytes, 0x68, 0x2018);
    let region = Region::new(BASE, bytes).unwrap();
    let device = DLUserInputDeviceImpl::read(&region, BASE).unwrap();
    assert_eq!(device.device, DLUserInputDevice::read(&region, BASE).unwrap());
    assert_eq!(device.device.extensions_end.address, 0x2018);
    assert_eq!(device.mutex, BASE + 0x88);
    assert_eq!(device.input_data.bitset, BASE + 0x148);
    assert!(DLUserInputDeviceImpl::read(&region, BASE + 0x9).is_none());
    assert_eq!(DLUserInputDeviceImpl::layout().size(), 0x148);
    assert_eq!(DLUserInputDeviceImpl::layout().field(2).unwrap().offset, 0x88);
}

#[test]
fn pad_manager_leads_to_the_devices() {
    let mut bytes = vec![0xffu8; 0x60];
    for i in 0..4usize {
        put_u64(&mut bytes, 0x18 + 8 * i, 0x1000 * (i as u64 + 1));
        put_u64(&mut bytes, 0x38 + 0x8 + 8 * i, 0x2000 * (i as u64 + 1));
    }
    let region = Region::new(BASE, bytes).unwrap();
    let manager = FD4PadManager::read(&region, BASE).unwrap();
    let heads: Vec<u64> = manager.unk18.iter().map(|p| p.address).collect();
    assert_eq!(heads, vec![0x1000, 0x2000, 0x3000, 0x4000]);
    let set = FD4PadManager0x18::read(&region, BASE + 0x38).unwrap();
    let devices: Vec<u64> = set.devices.iter().map(|p| p.address).collect();
    assert_eq!(devices, vec![0x2000, 0x4000, 0x6000, 0x8000]);
    assert!(FD4PadManager::read(&region, BASE + 0x29).is_none());
    assert!(FD4PadManager0x18::read(&region, BASE + 0x39).is_none());
    assert_eq!(FD4PadManager::layout().size(), 0x38);
    assert_eq!(FD4PadManager0x18::layout().size(), 0x28);
    assert_eq!(FD4PadManager::layout().field(1).unwrap().offset, 0x18);
}

#[test]
fn suppressor_holds_two_sets_of_bits_behind_its_method_table() {
    let layout = DLUserInputSuppressor::layout(&Layout::of(0x18, 8)).unwrap();
    assert_eq!(layout.size(), 0x38);
    assert_eq!(layout.align(), 8);
    assert_eq!(layout.field_count(), 3);
    assert_eq!(layout.field(0).unwrap().kind, FieldKind::Pointer);
    assert_eq!(layout.field(1).unwrap().offset, 0x8);
    assert_eq!(layout.field(2).unwrap().offset, 0x20);

    let layout = DLUserInputSuppressor::layout(&Layout::of(0x14, 16)).unwrap();
    assert_eq!(layout.field(1).unwrap().offset, 0x10);
    assert_eq!(layout.field(2).unwrap().offset, 0x30);
    assert_eq!(layout.size(), 0x50);
    assert_eq!(layout.align(), 16);

    let layout = DLUserInputSuppressor::layout(&Layout::of(3, 1)).unwrap();
    assert_eq!(layout.field(2).unwrap().offset, 11);
    assert_eq!(layout.size(), 16);

    assert!(DLUserInputSuppressor::layout(&Layout::of(0x8000_0000, 8)).is_err());
    assert!(DLUserInputSuppressor::layout(&Layout::of(0x7fff_fff8, 8)).is_ok());
}
