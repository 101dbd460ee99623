//! Extra data in the game's save files.
//!
//! The game writes a character's equipment into the save file with one
//! routine and reads it back with another. Both can be wrapped so that a
//! block of the caller's own bytes travels with the save: in front of the
//! game's own bytes goes a fixed header, then the block, delimited. A save
//! without the header is a save as the game itself writes it, so save files
//! written with and without the wrapper can both be read.
//!
//! This module decides what is written and read. Calling the game's own
//! routines, before or after, is the business of whoever installs the
//! wrapper.

use vstd::prelude::*;

use crate::dlio::{delimited, leading_block, DLMemoryInputStream, DLMemoryOutputStream};

verus! {

/// The number of bytes in the header.
pub const HEADER_LEN: usize = 15;

/// The largest save file that the game takes, in bytes. Extra data has to
/// leave room for the game's own.
pub const MAX_SAVE_SIZE: usize = 0x7FFF_FFFF;

/// The header that marks a save that carries extra data: the ASCII text
/// `fromsoftware-rs`.
pub open spec fn header_bytes() -> Seq<u8> {
    seq![
        0x66u8,
        0x72u8,
        0x6fu8,
        0x6du8,
        0x73u8,
        0x6fu8,
        0x66u8,
        0x74u8,
        0x77u8,
        0x61u8,
        0x72u8,
        0x65u8,
        0x2du8,
        0x72u8,
        0x73u8,
    ]
}

/// Returns the header that marks a save that carries extra data.
pub fn header() -> (h: [u8; 15])
    ensures
        h@ == header_bytes(),
{
    let h: [u8; 15] = [
        0x66,
        0x72,
        0x6f,
        0x6d,
        0x73,
        0x6f,
        0x66,
        0x74,
        0x77,
        0x61,
        0x72,
        0x65,
        0x2d,
        0x72,
        0x73,
    ];
    assert(h@ =~= header_bytes());
    h
}

/// Whether `bytes` start with the header.
pub open spec fn has_header(bytes: Seq<u8>) -> bool {
    bytes.len() >= 15 && bytes.subrange(0, 15) == header_bytes()
}

/// The bytes that carry `payload` in a save: the header, then the payload,
/// delimited.
pub open spec fn extension(payload: Seq<u8>) -> Seq<u8> {
    header_bytes() + delimited(payload)
}

/// The extra data that `bytes` start with: the block behind the header.
/// `None` where `bytes` don't start with the header, or no whole block
/// follows it.
pub open spec fn stored_payload(bytes: Seq<u8>) -> Option<Seq<u8>> {
    if has_header(bytes) {
        leading_block(bytes.subrange(15, bytes.len() as int))
    } else {
        None
    }
}

/// An enum of different circumstances in which a save file can be loaded.
#[derive(Debug, Clone, PartialEq, Eq)]
pub enum OnLoadType {
    /// The fake save file for the main menu is loading. This happens when
    /// the game starts, and again each time the player quits their game.
    /// Extra data is never written for the main menu save, so this never has
    /// any.
    MainMenu,
    /// A non-menu save file with extra data is loading.
    SavedData(Vec<u8>),
    /// A non-menu save file without extra data is loading.
    NoSavedData,
}

/// The error that a save gives whose header is not followed by a whole
/// block of extra data.
#[derive(Debug, Copy, Clone, PartialEq, Eq, Structural)]
pub struct TruncatedSaveData;

/// Reads the extra data that a save starts with, before the game's own
/// routine reads the rest.
///
/// Where the stream starts with the header, the block behind it is read and
/// returned, and the stream is left at the first byte behind the block,
/// where the game's own bytes start. Where the stream doesn't start with the
/// header, nothing is consumed: the stream is left where it was and `None`
/// is returned. A header that is not followed by a whole block is an error,
/// and then nothing is consumed either.
pub fn on_load(stream: &mut DLMemoryInputStream) -> (r: Result<Option<Vec<u8>>, TruncatedSaveData>)
    ensures
        final(stream)@ == old(stream)@,
        !has_header(old(stream).remaining()) ==> r == Ok::<
            Option<Vec<u8>>,
            TruncatedSaveData,
        >(None) && final(stream).spec_position() == old(stream).spec_position(),
        has_header(old(stream).remaining()) && stored_payload(old(stream).remaining()) is None
            ==> r is Err && final(stream).spec_position() == old(stream).spec_position(),
        stored_payload(old(stream).remaining()) is Some ==> {
            &&& r is Ok
            &&& r->Ok_0 is Some
            &&& r->Ok_0->Some_0@ == stored_payload(old(stream).remaining())->Some_0
            &&& final(stream).spec_position() == old(stream).spec_position() + 19
                + r->Ok_0->Some_0@.len()
        },
{
    let before_header = stream.stream_position();
    let ghost all = stream.remaining();
    let expected = header();
    let found = stream.read(HEADER_LEN);
    let has_saved_data = found.len() == HEADER_LEN && crate::shared::text::bytes_equal(
        found.as_slice(),
        expected.as_slice(),
    );
    if has_saved_data {
        assert(stream.remaining() =~= all.subrange(15, all.len() as int));
        match stream.read_delimited() {
            Some(data) => Ok(Some(data)),
            None => {
                stream.seek(before_header);
                Err(TruncatedSaveData)
            },
        }
    } else {
        stream.seek(before_header);
        Ok(None)
    }
}

/// What is left to do once the game's own routine has read a save.
#[derive(Debug, Clone, PartialEq, Eq)]
pub struct LoadOutcome {
    /// What to tell the caller's load callback, if anything.
    pub notify: Option<OnLoadType>,
    /// What the wrapper hands back to the game in place of the routine's
    /// own result.
    pub result: usize,
}

/// Decides what is left to do once the game's own routine has read a save.
///
/// `has_saved_data` says whether the save started with extra data, which
/// the callback has then been told of already. `native_result` is what the
/// game's own routine returned, zero for failure. `is_main_menu` says
/// whether the equipment that was read belongs to the main menu.
///
/// A failed read is handed on as it is and the callback is told nothing. A
/// save without extra data is told to the callback as either the main menu
/// save or a save without extra data.
pub fn after_load(has_saved_data: bool, native_result: usize, is_main_menu: bool) -> (outcome:
    LoadOutcome)
    ensures
        native_result == 0 ==> outcome.result == 0 && outcome.notify is None,
        native_result != 0 ==> outcome.result == 1,
        native_result != 0 && has_saved_data ==> outcome.notify is None,
        native_result != 0 && !has_saved_data && is_main_menu ==> outcome.notify == Some(
            OnLoadType::MainMenu,
        ),
        native_result != 0 && !has_saved_data && !is_main_menu ==> outcome.notify == Some(
            OnLoadType::NoSavedData,
        ),
{
    if native_result == 0 {
        return LoadOutcome { notify: None, result: 0 };
    }
    let notify = if has_saved_data {
        None
    } else if is_main_menu {
        Some(OnLoadType::MainMenu)
    } else {
        Some(OnLoadType::NoSavedData)
    };
    LoadOutcome { notify, result: 1 }
}

/// Returns whether the caller's save callback is to be asked for extra data.
/// It never is for the main menu save.
pub fn wants_payload(is_main_menu: bool) -> (asked: bool)
    ensures
        asked == !is_main_menu,
{
    !is_main_menu
}

/// What writing extra data into a save came to.
#[derive(Debug, Copy, Clone, PartialEq, Eq, Structural)]
pub enum SaveOutcome {
    /// There was nothing to write: the save is as the game writes it.
    Unchanged,
    /// Header and extra data were written.
    Written,
    /// Header and extra data did not fit. Nothing was written.
    WriteFailed,
}

/// What writing `payload` into a stream with `room` bytes left comes to.
pub open spec fn spec_on_save(is_main_menu: bool, payload: Option<Seq<u8>>, room: int) -> SaveOutcome {
    if is_main_menu || payload is None {
        SaveOutcome::Unchanged
    } else if extension(payload->Some_0).len() <= room {
        SaveOutcome::Written
    } else {
        SaveOutcome::WriteFailed
    }
}

/// Writes extra data into a save, before the game's own routine writes the
/// rest. Whatever comes back, the game's own routine is to be called next.
///
/// Nothing is written for the main menu save, nor where there is no
/// payload. Otherwise the header and the delimited payload are written, if
/// they fit as a whole; if they don't, nothing is written, so that the save
/// stays readable.
pub fn on_save(is_main_menu: bool, payload: Option<&[u8]>, stream: &mut DLMemoryOutputStream) -> (outcome:
    SaveOutcome)
    requires
        payload is Some ==> payload->Some_0@.len() <= MAX_SAVE_SIZE,
    ensures
        final(stream).spec_limit() == old(stream).spec_limit(),
        outcome == spec_on_save(
            is_main_menu,
            match payload {
                Some(bytes) => Some(bytes@),
                None => None,
            },
            old(stream).room(),
        ),
        outcome == SaveOutcome::Written ==> final(stream)@ == old(stream)@ + extension(
            payload->Some_0@,
        ),
        outcome != SaveOutcome::Written ==> final(stream)@ == old(stream)@,
{
    if !wants_payload(is_main_menu) {
        return SaveOutcome::Unchanged;
    }
    let bytes = match payload {
        Some(bytes) => bytes,
        None => {
            return SaveOutcome::Unchanged;
        },
    };
    let needed = HEADER_LEN + 4 + bytes.len();
    if stream.remaining() < needed {
        return SaveOutcome::WriteFailed;
    }
    let ghost before = stream@;
    let mark = header();
    stream.write(mark.as_slice());
    stream.write_delimited(bytes);
    assert(stream@ =~= before + extension(bytes@));
    SaveOutcome::Written
}

/// Extra data that was saved is loaded again: a save that starts with the
/// header and the delimited payload, whatever the game's own bytes behind
/// them, is read as that payload, and reading it leaves exactly the game's
/// own bytes.
pub proof fn lemma_save_round_trip(payload: Seq<u8>, native: Seq<u8>)
    requires
        payload.len() <= MAX_SAVE_SIZE,
    ensures
        extension(payload).len() == 19 + payload.len(),
        has_header(extension(payload) + native),
        stored_payload(extension(payload) + native) == Some(payload),
        (extension(payload) + native).subrange(
            19 + payload.len() as int,
            (extension(payload) + native).len() as int,
        ) == native,
{
    let all = extension(payload) + native;
    crate::dlio::lemma_delimited_round_trip(payload, native);
    assert(all.subrange(0, 15) =~= header_bytes());
    assert(all.subrange(15, all.len() as int) =~= delimited(payload) + native);
    assert(all.subrange(19 + payload.len() as int, all.len() as int) =~= native);
}

} // verus!
