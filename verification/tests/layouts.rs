use darksouls3::app_menu::new_menu_system::{MenuWindow, NewMenuSystem};
use darksouls3::cs::regulation_manager::{
    CSRegulationManager, FD4ParamResCap, ParamResCap, ParamRowInfo, ParamTable,
};
use darksouls3::dlkr::DLPlainLightMutex;
use darksouls3::dlui::{DLUserInputDevice, VirtualInputData};
use darksouls3::shared::layout::{
    round_up, Field, FieldKind, Layout, LayoutError, StructLayout, MAX_SIZE,
};
use darksouls3::shared::unknown_struct::UnknownStruct;
use darksouls3::sprj::field_area::FieldArea;
use darksouls3::sprj::game_data_man::GameDataMan;
use darksouls3::sprj::item::ItemBuffer;
use darksouls3::sprj::player_game_data::{
    EquipGameData, EquipInventoryData, EquipInventoryDataListEntry, FaceData, InventoryItemsData,
    PlayerGameData, PlayerInfo,
};
use darksouls3::sprj::world_block::WorldBlockChr;
use darksouls3::sprj::world_chr_man::{ChrSet, ChrSetEntry, WorldAreaChr, WorldChrMan};
use darksouls3::sprj::world_info::{WorldAreaInfo, WorldBlockInfo, WorldInfo, WorldInfoOwner};

#[test]
fn new_menu_system_proper_sizes() {
    assert_eq!(0x9d8, MenuWindow::layout().size());
    assert_eq!(0x3098, NewMenuSystem::layout().size());
}

#[test]
fn game_data_man_proper_sizes() {
    assert_eq!(0x130, GameDataMan::layout().size());
}

#[test]
fn player_game_data_proper_sizes() {
    assert_eq!(0x10, EquipInventoryDataListEntry::layout().size());
    assert_eq!(0x118, FaceData::layout().size());
    assert_eq!(0x78, InventoryItemsData::layout().size());
    assert_eq!(0xa0, EquipInventoryData::layout().size());
    assert_eq!(0x328, EquipGameData::layout().size());
    assert_eq!(0x140, PlayerInfo::layout().size());
    assert_eq!(0x950, PlayerGameData::layout().size());
}

#[test]
fn world_block_proper_sizes() {
    assert_eq!(0x138, WorldBlockChr::layout().size());
}

#[test]
fn world_chr_man_proper_sizes() {
    assert_eq!(0x20, WorldAreaChr::layout().size());
    assert_eq!(0x38, ChrSetEntry::layout().size());
    assert_eq!(0x18, ChrSet::layout().size());
    assert_eq!(0x3580, WorldChrMan::layout().size());
}

#[test]
fn world_info_proper_sizes() {
    assert_eq!(0x38, WorldAreaInfo::layout().size());
    assert_eq!(0x70, WorldBlockInfo::layout().size());
    assert_eq!(0x1298, WorldInfo::layout().size());
    assert_eq!(0xae90, WorldInfoOwner::layout().size());
}

#[test]
fn remaining_structures_have_their_documented_sizes() {
    assert_eq!(0xf0, FieldArea::layout().size());
    assert_eq!(0x18, ParamRowInfo::layout().size());
    assert_eq!(0x40, ParamTable::layout().size());
    assert_eq!(0x70, ParamResCap::layout().size());
    assert_eq!(0x70, FD4ParamResCap::layout().size());
    assert_eq!(0x28, CSRegulationManager::layout().size());
    assert_eq!(0x38, DLPlainLightMutex::layout().size());
    assert_eq!(0x78, DLUserInputDevice::layout().size());
    assert_eq!(0x24, UnknownStruct::<0x24>::layout().size());
    assert_eq!(1, UnknownStruct::<0x24>::layout().align());
    assert_eq!(0x28, VirtualInputData::layout().size());
}

#[test]
fn size_constants_agree_with_layouts() {
    assert_eq!(EquipInventoryDataListEntry::SIZE, EquipInventoryDataListEntry::layout().size());
    assert_eq!(InventoryItemsData::SIZE, InventoryItemsData::layout().size());
    assert_eq!(EquipGameData::SIZE, EquipGameData::layout().size());
    assert_eq!(PlayerGameData::SIZE, PlayerGameData::layout().size());
    assert_eq!(WorldChrMan::SIZE, WorldChrMan::layout().size());
    assert_eq!(WorldInfoOwner::SIZE, WorldInfoOwner::layout().size());
    assert_eq!(NewMenuSystem::SIZE, NewMenuSystem::layout().size());
    assert_eq!(GameDataMan::SIZE, GameDataMan::layout().size());
}

#[test]
fn inventory_entry_fields_lie_where_documented() {
    let layout = EquipInventoryDataListEntry::layout();
    assert_eq!(layout.align(), 4);
    assert_eq!(layout.field_count(), 4);
    assert_eq!(
        layout.field(1),
        Some(Field { offset: 4, size: 4, align: 4, kind: FieldKind::Integer })
    );
    assert_eq!(
        layout.field(2),
        Some(Field { offset: 8, size: 4, align: 4, kind: FieldKind::Integer })
    );
    assert_eq!(layout.field(4), None);
}

#[test]
fn struct_layout_pads_between_and_after_fields() {
    let layout = StructLayout::new()
        .with(FieldKind::Integer, 0, 1, 1)
        .with(FieldKind::Pointer, 8, 8, 8)
        .with(FieldKind::Integer, 16, 2, 2)
        .finish(24);
    assert_eq!(layout.size(), 24);
    assert_eq!(layout.align(), 8);
    assert_eq!(layout.field_count(), 3);
    assert_eq!(layout.field(0).unwrap().offset, 0);
    assert_eq!(layout.field(1).unwrap().offset, 8);
    assert_eq!(layout.field(2).unwrap().kind, FieldKind::Integer);
    assert_eq!(layout.layout(), Layout::of(24, 8));
}

#[test]
fn empty_struct_layout_has_no_size() {
    let layout = StructLayout::new().finish(0);
    assert_eq!(layout.size(), 0);
    assert_eq!(layout.align(), 1);
    assert_eq!(layout.field_count(), 0);
    assert_eq!(layout.field(0), None);
}

#[test]
fn round_up_reaches_next_multiple() {
    assert_eq!(round_up(0, 8), Some(0));
    assert_eq!(round_up(1, 8), Some(8));
    assert_eq!(round_up(8, 8), Some(8));
    assert_eq!(round_up(9, 4), Some(12));
    assert_eq!(round_up(13, 1), Some(13));
    assert_eq!(round_up(17, 16), Some(32));
}

#[test]
fn layout_rejects_bad_alignment_and_size() {
    assert_eq!(Layout::from_size_align(4, 3), Err(LayoutError));
    assert_eq!(Layout::from_size_align(4, 0), Err(LayoutError));
    assert_eq!(Layout::from_size_align(4, 32), Err(LayoutError));
    assert_eq!(Layout::from_size_align(MAX_SIZE, 8), Err(LayoutError));
    let layout = Layout::from_size_align(12, 4).unwrap();
    assert_eq!(layout.size(), 12);
    assert_eq!(layout.align(), 4);
}

#[test]
fn layout_pads_extends_and_repeats() {
    let word = Layout::of(4, 4);
    let odd = Layout::of(5, 4);
    assert_eq!(odd.pad_to_align(), Layout::of(8, 4));
    assert_eq!(word.pad_to_align(), word);
    assert_eq!(Layout::of(12, 4).array(3), Ok(Layout::of(36, 4)));
    assert_eq!(Layout::of(12, 4).array(0), Ok(Layout::of(0, 4)));
    assert_eq!(Layout::of(12, 4).array(u64::MAX), Err(LayoutError));
    assert_eq!(Layout::of(1, 1).extend(&Layout::of(8, 8)), Ok((Layout::of(16, 8), 8)));
    assert_eq!(word.extend(&Layout::of(2, 2)), Ok((Layout::of(6, 4), 4)));
    assert_eq!(Layout::of(MAX_SIZE - 7, 8).extend(&Layout::of(16, 8)), Err(LayoutError));
}

#[test]
fn item_buffer_layout_is_header_then_entries() {
    assert_eq!(ItemBuffer::layout(0), Ok(Layout::of(4, 4)));
    assert_eq!(ItemBuffer::layout(1), Ok(Layout::of(16, 4)));
    assert_eq!(ItemBuffer::layout(3), Ok(Layout::of(40, 4)));
    assert_eq!(ItemBuffer::layout(usize::MAX), Err(LayoutError));
}

#[test]
fn placing_fields_computes_the_offsets_that_are_declared() {
    let declared = InventoryItemsData::layout();
    let mut computed = StructLayout::new();
    for index in 0..declared.field_count() {
        let field = declared.field(index).unwrap();
        computed = computed.place(field.kind, field.size, field.align).unwrap();
        assert_eq!(computed.field(index), Some(field));
    }
    let computed = computed.pad();
    assert_eq!(computed.size(), 0x78);
    assert_eq!(computed.align(), declared.align());
    assert_eq!(computed.field_count(), declared.field_count());
}

#[test]
fn placing_pads_as_the_alignment_asks() {
    let layout = StructLayout::new()
        .place(FieldKind::Opaque, 0x17, 1)
        .unwrap()
        .place(FieldKind::Pointer, 8, 8)
        .unwrap()
        .place(FieldKind::Integer, 2, 2)
        .unwrap();
    assert_eq!(layout.field(1).unwrap().offset, 0x18);
    assert_eq!(layout.field(2).unwrap().offset, 0x20);
    assert_eq!(layout.size(), 0x22);
    let layout = layout.pad();
    assert_eq!(layout.size(), 0x28);
    assert_eq!(layout.align(), 8);
    assert_eq!(StructLayout::new().pad().size(), 0);
}

#[test]
fn placing_refuses_bad_alignments_and_huge_structures() {
    assert!(StructLayout::new().place(FieldKind::Integer, 4, 3).is_err());
    assert!(StructLayout::new().place(FieldKind::Integer, 4, 0).is_err());
    assert!(StructLayout::new().place(FieldKind::Opaque, 0x1_0000_0001, 1).is_err());
    let full = StructLayout::new().place(FieldKind::Opaque, 0x1_0000_0000, 1).unwrap();
    assert_eq!(full.size(), 0x1_0000_0000);
    assert!(full.place(FieldKind::Opaque, 1, 1).is_err());
    let nearly = StructLayout::new().place(FieldKind::Opaque, 0xffff_fff9, 1).unwrap();
    assert!(nearly.place(FieldKind::Integer, 1, 8).is_err());
}
