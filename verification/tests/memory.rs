use darksouls3::shared::instance::{
    instance_from_slot, locate, resolve, ImageSpan, InstanceError,
};
use darksouls3::shared::layout::Layout;
use darksouls3::shared::memory::{word_bytes, Region};
use darksouls3::shared::pointer::{ForeignPtr, OwnedPtr};

fn counting_region() -> Region {
    Region::new(0x1000, (0u8..32).collect()).unwrap()
}

#[test]
fn region_knows_what_it_holds() {
    let region = counting_region();
    assert_eq!(region.base(), 0x1000);
    assert_eq!(region.len(), 32);
    assert_eq!(region.as_slice()[5], 5);
    assert!(region.contains(0x1000, 32));
    assert!(region.contains(0x101f, 1));
    assert!(region.contains(0x1020, 0));
    assert!(!region.contains(0x1000, 33));
    assert!(!region.contains(0x0fff, 1));
    assert!(!region.contains(0x1020, 1));
    assert!(!region.contains(u64::MAX, 2));
}

#[test]
fn region_must_end_inside_the_address_space() {
    assert!(Region::new(u64::MAX, vec![1]).is_none());
    assert!(Region::new(u64::MAX - 1, vec![1]).is_some());
    assert!(Region::new(u64::MAX, Vec::new()).is_some());
    assert!(Region::new(0, Vec::new()).is_some());
}

#[test]
fn region_reads_little_endian() {
    let region = counting_region();
    assert_eq!(region.read_u8(0x1003), Some(3));
    assert_eq!(region.read_u16(0x1001), Some(0x0201));
    assert_eq!(region.read_u32(0x1004), Some(0x0706_0504));
    assert_eq!(region.read_i32(0x1004), Some(0x0706_0504));
    assert_eq!(region.read_u64(0x1008), Some(0x0f0e_0d0c_0b0a_0908));
    assert_eq!(region.read_bytes(0x1002, 3), Some(vec![2, 3, 4]));
    assert_eq!(region.read_bytes(0x1020, 0), Some(Vec::new()));
}

#[test]
fn region_reads_signed_words() {
    let region = Region::new(0x10, vec![0xff, 0xff, 0xff, 0xff, 0xfe, 0xff, 0xff, 0xff]).unwrap();
    assert_eq!(region.read_i32(0x10), Some(-1));
    assert_eq!(region.read_i32(0x14), Some(-2));
    assert_eq!(region.read_u32(0x14), Some(0xffff_fffe));
}

#[test]
fn region_refuses_reads_outside() {
    let region = counting_region();
    assert_eq!(region.read_u8(0x1020), None);
    assert_eq!(region.read_u16(0x101f), None);
    assert_eq!(region.read_u32(0x101d), None);
    assert_eq!(region.read_u64(0x1019), None);
    assert_eq!(region.read_u64(0x0ffc), None);
    assert_eq!(region.read_bytes(0x1000, 33), None);
    assert_eq!(region.read_u64(u64::MAX), None);
}

#[test]
fn region_fields_read_inside_a_structure() {
    let region = counting_region();
    assert_eq!(region.field_u8(0x1008, 16, 3), 11);
    assert_eq!(region.field_u16(0x1008, 16, 2), 0x0b0a);
    assert_eq!(region.field_u32(0x1008, 16, 4), 0x0f0e_0d0c);
    assert_eq!(region.field_i32(0x1008, 16, 4), 0x0f0e_0d0c);
    assert_eq!(region.field_u64(0x1008, 16, 8), 0x1716_1514_1312_1110);
}

#[test]
fn region_writes_only_the_bytes_named() {
    let mut region = counting_region();
    assert!(region.write_u32(0x1004, 0xdead_beef));
    assert_eq!(region.read_u32(0x1004), Some(0xdead_beef));
    assert_eq!(region.as_slice()[4..8], [0xef, 0xbe, 0xad, 0xde]);
    assert_eq!(region.read_u32(0x1000), Some(0x0302_0100));
    assert_eq!(region.read_u32(0x1008), Some(0x0b0a_0908));
    assert!(region.write_u8(0x1000, 0x7f));
    assert!(region.write_u16(0x1002, 0x1234));
    assert_eq!(region.read_u32(0x1000), Some(0x1234_017f));
    assert!(region.write_u64(0x1018, 0x0102_0304_0506_0708));
    assert_eq!(region.read_u64(0x1018), Some(0x0102_0304_0506_0708));
    assert!(region.write_bytes(0x1010, &[9, 9]));
    assert_eq!(region.read_bytes(0x100f, 4), Some(vec![15, 9, 9, 18]));
    assert_eq!(region.len(), 32);
}

#[test]
fn region_refuses_writes_outside() {
    let mut region = counting_region();
    assert!(!region.write_u32(0x101d, 1));
    assert!(!region.write_u64(0x0fff, 1));
    assert!(!region.write_u8(0x1020, 1));
    assert!(!region.write_u16(0x101f, 1));
    assert!(!region.write_bytes(0x1000, &[0; 33]));
    let untouched: Vec<u8> = (0u8..32).collect();
    assert_eq!(region.as_slice(), untouched.as_slice());
}

#[test]
fn word_bytes_are_least_significant_first() {
    assert_eq!(word_bytes(0x0403_0201), [1, 2, 3, 4]);
    assert_eq!(word_bytes(0), [0, 0, 0, 0]);
    assert_eq!(word_bytes(0xffff_ff00), [0, 0xff, 0xff, 0xff]);
}

#[test]
fn foreign_pointers_may_be_null() {
    assert!(ForeignPtr::null().is_null());
    assert_eq!(ForeignPtr::null().address, 0);
    assert!(ForeignPtr::null().as_non_null().is_none());
    assert!(ForeignPtr::null().overlay(Layout::of(8, 8)).is_none());
    let p = ForeignPtr { address: 0x1008 };
    assert!(!p.is_null());
    assert_eq!(p.as_non_null().unwrap().address(), 0x1008);
    assert_eq!(p.overlay(Layout::of(8, 8)).unwrap().base(), 0x1008);
}

#[test]
fn owned_pointers_are_never_null() {
    assert!(OwnedPtr::try_new(0).is_none());
    let p = OwnedPtr::try_new(0x40).unwrap();
    assert_eq!(p.address(), 0x40);
    assert_eq!(p, OwnedPtr::new(0x40));
    assert_eq!(p.as_foreign(), ForeignPtr { address: 0x40 });
}

#[test]
fn overlay_reads_and_writes_fields() {
    let mut region = counting_region();
    let view = OwnedPtr::new(0x1008).overlay(Layout::of(16, 8));
    assert_eq!(view.base(), 0x1008);
    assert_eq!(view.layout(), Layout::of(16, 8));
    assert_eq!(view.field_address(4), 0x100c);
    assert_eq!(view.read_u8(&region, 1), Some(9));
    assert_eq!(view.read_u16(&region, 2), Some(0x0b0a));
    assert_eq!(view.read_u32(&region, 4), Some(0x0f0e_0d0c));
    assert_eq!(view.read_u64(&region, 8), Some(0x1716_1514_1312_1110));
    assert_eq!(view.read_ptr(&region, 0), Some(ForeignPtr { address: 0x0f0e_0d0c_0b0a_0908 }));
    assert_eq!(view.read_opaque(&region, 5, 3), Some(vec![13, 14, 15]));
    assert!(view.write_u32(&mut region, 0, 0x1122_3344));
    assert!(view.write_u64(&mut region, 8, 0));
    assert_eq!(view.read_u32(&region, 0), Some(0x1122_3344));
    assert_eq!(view.read_u32(&region, 4), Some(0x0f0e_0d0c));
    assert_eq!(view.read_u64(&region, 8), Some(0));
    assert_eq!(region.read_u32(0x1004), Some(0x0706_0504));
    assert_eq!(region.read_u8(0x1018), Some(24));
}

#[test]
fn overlay_outside_the_region_reads_nothing() {
    let mut region = counting_region();
    let view = OwnedPtr::new(0x2000).overlay(Layout::of(16, 8));
    assert_eq!(view.read_u8(&region, 0), None);
    assert_eq!(view.read_u64(&region, 8), None);
    assert_eq!(view.read_ptr(&region, 0), None);
    assert!(!view.write_u32(&mut region, 0, 1));
    let straddling = OwnedPtr::new(0x1018).overlay(Layout::of(16, 8));
    assert_eq!(straddling.read_u64(&region, 0), Some(0x1f1e_1d1c_1b1a_1918));
    assert_eq!(straddling.read_u64(&region, 8), None);
}

#[test]
fn instance_lookup_tells_missing_from_null() {
    let mut bytes = vec![0u8; 24];
    bytes[8..16].copy_from_slice(&0x1_4000_2000u64.to_le_bytes());
    let region = Region::new(0x5000, bytes).unwrap();
    assert_eq!(resolve(None, &region), Err(InstanceError::NotFound));
    assert_eq!(resolve(Some(0x4000), &region), Err(InstanceError::NotFound));
    assert_eq!(resolve(Some(0x5014), &region), Err(InstanceError::NotFound));
    assert_eq!(resolve(Some(0x5000), &region), Err(InstanceError::Null));
    assert_eq!(resolve(Some(0x5010), &region), Err(InstanceError::Null));
    assert_eq!(resolve(Some(0x5008), &region), Ok(OwnedPtr::new(0x1_4000_2000)));
    assert_eq!(instance_from_slot(0), Err(InstanceError::Null));
    assert_eq!(instance_from_slot(7).unwrap().address(), 7);
}

#[test]
fn offsets_become_addresses_inside_the_image() {
    let image = ImageSpan { base: 0x1_4000_0000, size: 0x0500_0000 };
    assert_eq!(image.rva_to_va(0x49_644b8), Some(0x1_4496_44b8));
    assert_eq!(image.rva_to_va(1), Some(0x1_4000_0001));
    assert_eq!(image.rva_to_va(0x04ff_ffff), Some(0x1_44ff_ffff));
    assert_eq!(image.rva_to_va(0), None);
    assert_eq!(image.rva_to_va(0x0500_0000), None);
    assert_eq!(image.rva_to_va(u32::MAX), None);
    let high = ImageSpan { base: u64::MAX - 0x10, size: 0x100 };
    assert_eq!(high.rva_to_va(0x10), Some(u64::MAX));
    assert_eq!(high.rva_to_va(0x11), None);
}

#[test]
fn instance_is_located_through_table_image_and_slot() {
    let image = ImageSpan { base: 0x5000, size: 0x18 };
    let mut bytes = vec![0u8; 24];
    bytes[8..16].copy_from_slice(&0x1_4000_2000u64.to_le_bytes());
    let region = Region::new(0x5000, bytes).unwrap();
    assert_eq!(locate(Some(8), &image, &region), Ok(OwnedPtr::new(0x1_4000_2000)));
    assert_eq!(locate(Some(0x10), &image, &region), Err(InstanceError::Null));
    assert_eq!(locate(None, &image, &region), Err(InstanceError::NotFound));
    assert_eq!(locate(Some(0), &image, &region), Err(InstanceError::NotFound));
    assert_eq!(locate(Some(0x18), &image, &region), Err(InstanceError::NotFound));
    assert_eq!(locate(Some(0x14), &image, &region), Err(InstanceError::NotFound));
}
