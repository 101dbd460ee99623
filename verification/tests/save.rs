use darksouls3::dlio::{DLMemoryInputStream, DLMemoryOutputStream, LENGTH_PREFIX_SIZE};
use darksouls3::util::save::{
    after_load, header, on_load, on_save, wants_payload, LoadOutcome, OnLoadType, SaveOutcome,
    TruncatedSaveData, HEADER_LEN, MAX_SAVE_SIZE,
};

const NATIVE: [u8; 6] = [0xde, 0xad, 0xbe, 0xef, 0x00, 0x01];

#[test]
fn header_is_the_library_name_in_ascii() {
    assert_eq!(&header(), b"fromsoftware-rs");
    assert_eq!(HEADER_LEN, 15);
    assert_eq!(LENGTH_PREFIX_SIZE, 4);
    assert_eq!(MAX_SAVE_SIZE, 0x7fff_ffff);
}

#[test]
fn save_with_payload_round_trips() {
    let mut out = DLMemoryOutputStream::new(64);
    assert!(wants_payload(false));
    assert_eq!(on_save(false, Some(b"hello"), &mut out), SaveOutcome::Written);
    assert_eq!(out.write(&NATIVE), NATIVE.len());

    let mut expected = b"fromsoftware-rs".to_vec();
    expected.extend_from_slice(&[5, 0, 0, 0]);
    expected.extend_from_slice(b"hello");
    expected.extend_from_slice(&NATIVE);
    assert_eq!(out.as_slice(), expected.as_slice());

    let mut input = DLMemoryInputStream::new(out.as_slice().to_vec());
    assert_eq!(on_load(&mut input), Ok(Some(b"hello".to_vec())));
    assert_eq!(input.stream_position(), 15 + 4 + 5);
    assert_eq!(input.read(NATIVE.len()), NATIVE.to_vec());
    assert_eq!(
        after_load(true, 1, false),
        LoadOutcome { notify: None, result: 1 }
    );
}

#[test]
fn save_without_payload_has_no_header() {
    let mut out = DLMemoryOutputStream::new(64);
    assert_eq!(on_save(false, None, &mut out), SaveOutcome::Unchanged);
    assert_eq!(out.as_slice(), &[] as &[u8]);
    assert_eq!(out.write(&NATIVE), NATIVE.len());
    assert_eq!(out.as_slice(), &NATIVE);

    let mut input = DLMemoryInputStream::new(out.as_slice().to_vec());
    assert_eq!(on_load(&mut input), Ok(None));
    assert_eq!(input.stream_position(), 0);
    assert_eq!(
        after_load(false, 1, false),
        LoadOutcome { notify: Some(OnLoadType::NoSavedData), result: 1 }
    );
    assert_eq!(
        after_load(false, 1, true),
        LoadOutcome { notify: Some(OnLoadType::MainMenu), result: 1 }
    );
}

#[test]
fn main_menu_save_is_never_extended() {
    let mut out = DLMemoryOutputStream::new(64);
    assert!(!wants_payload(true));
    assert_eq!(on_save(true, Some(b"hello"), &mut out), SaveOutcome::Unchanged);
    assert_eq!(on_save(true, None, &mut out), SaveOutcome::Unchanged);
    assert_eq!(out.as_slice().len(), 0);
    assert_eq!(out.remaining(), 64);
}

#[test]
fn save_that_does_not_fit_writes_nothing() {
    let mut out = DLMemoryOutputStream::new(23);
    assert_eq!(on_save(false, Some(b"hello"), &mut out), SaveOutcome::WriteFailed);
    assert_eq!(out.as_slice().len(), 0);
    assert_eq!(out.remaining(), 23);
    let mut out = DLMemoryOutputStream::new(24);
    assert_eq!(on_save(false, Some(b"hello"), &mut out), SaveOutcome::Written);
    assert_eq!(out.remaining(), 0);
    let mut out = DLMemoryOutputStream::new(18);
    assert_eq!(on_save(false, Some(b""), &mut out), SaveOutcome::WriteFailed);
}

#[test]
fn save_goes_after_what_the_stream_already_holds() {
    let mut out = DLMemoryOutputStream::new(64);
    assert_eq!(out.write(&[1, 2, 3]), 3);
    assert_eq!(on_save(false, Some(&[9, 8]), &mut out), SaveOutcome::Written);
    assert_eq!(&out.as_slice()[..3], &[1, 2, 3]);
    assert_eq!(&out.as_slice()[3..18], b"fromsoftware-rs");
    assert_eq!(&out.as_slice()[18..], &[2, 0, 0, 0, 9, 8]);
}

#[test]
fn empty_payload_is_still_a_payload() {
    let mut out = DLMemoryOutputStream::new(64);
    assert_eq!(on_save(false, Some(b""), &mut out), SaveOutcome::Written);
    assert_eq!(out.as_slice().len(), 19);
    let mut input = DLMemoryInputStream::new(out.as_slice().to_vec());
    assert_eq!(on_load(&mut input), Ok(Some(Vec::new())));
    assert_eq!(input.stream_position(), 19);
}

#[test]
fn load_starts_where_the_stream_stands() {
    let mut bytes = vec![0x55u8; 7];
    bytes.extend_from_slice(b"fromsoftware-rs");
    bytes.extend_from_slice(&[3, 0, 0, 0, b'a', b'b', b'c']);
    bytes.extend_from_slice(&NATIVE);
    let mut input = DLMemoryInputStream::new(bytes);
    assert_eq!(on_load(&mut input), Ok(None));
    assert_eq!(input.stream_position(), 0);
    assert!(input.seek(7));
    assert_eq!(on_load(&mut input), Ok(Some(b"abc".to_vec())));
    assert_eq!(input.stream_position(), 7 + 15 + 4 + 3);
}

#[test]
fn load_rewinds_when_the_header_does_not_match() {
    let mut input = DLMemoryInputStream::new(b"fromsoftware-rt\x01\x00\x00\x00x".to_vec());
    assert_eq!(on_load(&mut input), Ok(None));
    assert_eq!(input.stream_position(), 0);

    let mut short = DLMemoryInputStream::new(b"fromsoftware-r".to_vec());
    assert_eq!(on_load(&mut short), Ok(None));
    assert_eq!(short.stream_position(), 0);

    let mut empty = DLMemoryInputStream::new(Vec::new());
    assert_eq!(on_load(&mut empty), Ok(None));
    assert_eq!(empty.stream_position(), 0);
}

#[test]
fn load_reports_a_block_that_is_cut_short() {
    let mut input = DLMemoryInputStream::new(b"fromsoftware-rs\x05\x00\x00\x00hell".to_vec());
    assert_eq!(on_load(&mut input), Err(TruncatedSaveData));
    assert_eq!(input.stream_position(), 0);
    let mut input = DLMemoryInputStream::new(b"fromsoftware-rs\x05\x00".to_vec());
    assert_eq!(on_load(&mut input), Err(TruncatedSaveData));
    assert_eq!(input.stream_position(), 0);
}

#[test]
fn failed_native_read_is_handed_on() {
    assert_eq!(after_load(false, 0, false), LoadOutcome { notify: None, result: 0 });
    assert_eq!(after_load(false, 0, true), LoadOutcome { notify: None, result: 0 });
    assert_eq!(after_load(true, 0, false), LoadOutcome { notify: None, result: 0 });
    assert_eq!(after_load(true, 7, true), LoadOutcome { notify: None, result: 1 });
    assert_eq!(
        after_load(false, usize::MAX, false),
        LoadOutcome { notify: Some(OnLoadType::NoSavedData), result: 1 }
    );
}

#[test]
fn load_types_carry_their_data() {
    let data = OnLoadType::SavedData(vec![1, 2]);
    assert_eq!(data, OnLoadType::SavedData(vec![1, 2]));
    assert_ne!(data, OnLoadType::SavedData(vec![1]));
    assert_ne!(OnLoadType::MainMenu, OnLoadType::NoSavedData);
}

#[test]
fn input_stream_reads_and_seeks() {
    let mut input = DLMemoryInputStream::new(vec![1, 2, 3, 4, 5]);
    assert_eq!(input.stream_position(), 0);
    assert_eq!(input.read(2), vec![1, 2]);
    assert_eq!(input.stream_position(), 2);
    assert_eq!(input.read(0), Vec::<u8>::new());
    assert_eq!(input.read(10), vec![3, 4, 5]);
    assert_eq!(input.stream_position(), 5);
    assert_eq!(input.read(1), Vec::<u8>::new());
    assert!(input.seek(1));
    assert_eq!(input.read(1), vec![2]);
    assert!(input.seek(5));
    assert!(!input.seek(6));
    assert_eq!(input.stream_position(), 5);
}

#[test]
fn input_stream_reads_delimited_blocks() {
    let mut input = DLMemoryInputStream::new(vec![2, 0, 0, 0, 7, 8, 0, 0, 0, 0, 1, 0, 0, 0]);
    assert_eq!(input.read_delimited(), Some(vec![7, 8]));
    assert_eq!(input.stream_position(), 6);
    assert_eq!(input.read_delimited(), Some(Vec::new()));
    assert_eq!(input.stream_position(), 10);
    assert_eq!(input.read_delimited(), None);
    assert_eq!(input.stream_position(), 10);
    let mut big = DLMemoryInputStream::new(vec![0xff, 0xff, 0xff, 0xff, 1, 2]);
    assert_eq!(big.read_delimited(), None);
    assert_eq!(big.stream_position(), 0);
    let mut cut = DLMemoryInputStream::new(vec![1, 0, 0]);
    assert_eq!(cut.read_delimited(), None);
}

#[test]
fn length_prefix_is_little_endian() {
    let block = vec![0xabu8; 0x0102];
    let mut out = DLMemoryOutputStream::new(0x200);
    assert_eq!(out.write_delimited(&block), 0x0106);
    assert_eq!(&out.as_slice()[..4], &[0x02, 0x01, 0x00, 0x00]);
    let mut input = DLMemoryInputStream::new(out.as_slice().to_vec());
    assert_eq!(input.read_delimited(), Some(block));
}

#[test]
fn output_stream_stops_at_its_limit() {
    let mut out = DLMemoryOutputStream::new(5);
    assert_eq!(out.remaining(), 5);
    assert_eq!(out.write(&[1, 2, 3]), 3);
    assert_eq!(out.remaining(), 2);
    assert_eq!(out.write(&[4, 5, 6]), 2);
    assert_eq!(out.as_slice(), &[1, 2, 3, 4, 5]);
    assert_eq!(out.write(&[7]), 0);
    assert_eq!(out.remaining(), 0);

    let mut out = DLMemoryOutputStream::new(6);
    assert_eq!(out.write_delimited(&[9, 9, 9]), 6);
    assert_eq!(out.as_slice(), &[3, 0, 0, 0, 9, 9]);
    let mut out = DLMemoryOutputStream::new(2);
    assert_eq!(out.write_delimited(&[9, 9, 9]), 2);
    assert_eq!(out.as_slice(), &[3, 0]);
}
