use darksouls3::shared::memory::Region;
use darksouls3::sprj::field_ins::{
    FieldInsSelector, FieldInsType, CONTAINER_LIMIT, INDEX_LIMIT, TYPE_LIMIT,
};
use darksouls3::sprj::world_block::WorldBlockMapping;

const TYPES: [FieldInsType; 4] =
    [FieldInsType::Hit, FieldInsType::Chr, FieldInsType::Obj, FieldInsType::Bullet];

#[test]
fn selector_packs_type_container_and_index() {
    let selector = FieldInsSelector::new(FieldInsType::Chr, 0x2a, 0x12345);
    assert_eq!(selector.value(), 0x12a1_2345);
    assert_eq!(selector.field_ins_type(), FieldInsType::Chr);
    assert_eq!(selector.container(), 0x2a);
    assert_eq!(selector.index(), 0x12345);
    assert_eq!(FieldInsSelector::new(FieldInsType::Hit, 0, 0).value(), 0);
    assert_eq!(FieldInsSelector::new(FieldInsType::Bullet, 0xff, 0xf_ffff).value(), 0x3fff_ffff);
    assert_eq!(FieldInsSelector::new(FieldInsType::Obj, 1, 0).value(), 0x2010_0000);
    assert_eq!(FieldInsSelector::new(FieldInsType::Obj, 0, 1).value(), 0x2000_0001);
}

#[test]
fn selector_unpacks_what_was_packed() {
    assert_eq!((TYPE_LIMIT, CONTAINER_LIMIT, INDEX_LIMIT), (4, 0x100, 0x10_0000));
    for (code, field_ins_type) in TYPES.iter().enumerate() {
        assert_eq!(field_ins_type.code() as usize, code);
        for container in [0u32, 1, 0x7f, 0x80, 0xff] {
            for index in [0u32, 1, 0xfff, 0x8_0000, 0xf_ffff] {
                let selector = FieldInsSelector::new(*field_ins_type, container, index);
                assert_eq!(selector.field_ins_type(), *field_ins_type);
                assert_eq!(selector.container(), container);
                assert_eq!(selector.index(), index);
                assert_eq!(FieldInsSelector::from_raw(selector.value()), Some(selector));
            }
        }
    }
}

#[test]
fn selector_drops_bits_that_do_not_fit() {
    let selector = FieldInsSelector::new(FieldInsType::Chr, 0x1ff, 0x1f_ffff);
    assert_eq!(selector.value(), 0x1fff_ffff);
    assert_eq!(selector.field_ins_type(), FieldInsType::Chr);
    assert_eq!(selector.container(), 0xff);
    assert_eq!(selector.index(), 0xf_ffff);
    let selector = FieldInsSelector::new(FieldInsType::Hit, 0x100, 0x10_0000);
    assert_eq!(selector.value(), 0);
}

#[test]
fn selector_refuses_unknown_type_codes() {
    assert!(FieldInsSelector::from_raw(0x3fff_ffff).is_some());
    assert!(FieldInsSelector::from_raw(0x4000_0000).is_none());
    assert!(FieldInsSelector::from_raw(0xffff_ffff).is_none());
    let selector = FieldInsSelector::from_raw(0x2051_0007).unwrap();
    assert_eq!(selector.field_ins_type(), FieldInsType::Obj);
    assert_eq!(selector.container(), 5);
    assert_eq!(selector.index(), 0x1_0007);
}

#[test]
fn block_mapping_is_decoded_with_its_selector() {
    let mut bytes = vec![0u8; 16];
    bytes[0..4].copy_from_slice(&3_100_500i32.to_le_bytes());
    bytes[4..8].copy_from_slice(&0x1030_0011u32.to_le_bytes());
    bytes[8..12].copy_from_slice(&(-1i32).to_le_bytes());
    bytes[12..16].copy_from_slice(&0x7000_0000u32.to_le_bytes());
    let region = Region::new(0x800, bytes).unwrap();
    let mapping = WorldBlockMapping::read(&region, 0x800).unwrap();
    assert_eq!(mapping.entity_id, 3_100_500);
    assert_eq!(mapping.selector, FieldInsSelector::new(FieldInsType::Chr, 3, 0x11));
    assert!(WorldBlockMapping::read(&region, 0x808).is_none());
    assert!(WorldBlockMapping::read(&region, 0x80c).is_none());
}
