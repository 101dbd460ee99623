//! The manager of the data of all characters in the game.

use vstd::prelude::*;

use crate::shared::instance::{resolve, spec_resolve, InstanceResult};
use crate::shared::layout::{FieldKind, StructLayout};
use crate::shared::memory::{le_u64, Region};
use crate::shared::pointer::{ForeignPtr, OwnedPtr};
use crate::sprj::item::{category_code_of, ordinal_of, CategorizedItemID};

verus! {

/// The number of network players whose data the manager holds.
pub const NETWORK_PLAYER_COUNT: usize = 5;

/// The manager of the data of all characters in the game.
#[derive(Debug, Copy, Clone, PartialEq, Eq, Structural)]
pub struct GameDataMan {
    /// The data of the local player's character.
    pub main_player_game_data: ForeignPtr,
    /// The data of the characters of the network players, five in a row.
    pub network_players: ForeignPtr,
}

/// The arguments of one call of the game's routine that gives items to the
/// player or takes them away.
#[derive(Debug, Copy, Clone, PartialEq, Eq, Structural)]
pub struct GiveOrRemoveItemCall {
    /// The event manager. The routine doesn't use it.
    pub event_man: u64,
    /// The item's category, as the routine wants it: the category's code
    /// shifted left by seven bits.
    pub category: u32,
    /// The item's number within its category.
    pub item: u32,
    /// The number of items to add, or to remove if negative.
    pub quantity: i32,
}

impl GameDataMan {
    /// The number of bytes that the structure takes in the game's memory.
    pub const SIZE: u64 = 0x130;

    /// Whether this structure is what the bytes of `bytes` say.
    pub open spec fn decodes(&self, bytes: Seq<u8>) -> bool {
        &&& self.main_player_game_data.address == le_u64(bytes.subrange(0x10, 0x18))
        &&& self.network_players.address == le_u64(bytes.subrange(0x18, 0x20))
    }

    /// Returns the byte layout of the structure.
    pub fn layout() -> (l: StructLayout)
        ensures
            l.wf(),
            l.spec_size() == GameDataMan::SIZE,
            l.spec_align() == 8,
            l.spec_fields().len() == 10,
            l.spec_fields()[2].offset == 0x10,
            l.spec_fields()[3].offset == 0x18,
    {
        let l = StructLayout::new();
        let l = l.with(FieldKind::Pointer, 0x0, 8, 8);
        let l = l.with(FieldKind::Pointer, 0x8, 8, 8);
        let l = l.with(FieldKind::Pointer, 0x10, 8, 8);
        let l = l.with(FieldKind::Pointer, 0x18, 8, 8);
        let l = l.with(FieldKind::Opaque, 0x20, 0x38, 1);
        let l = l.with(FieldKind::Pointer, 0x58, 8, 8);
        let l = l.with(FieldKind::Pointer, 0x60, 8, 8);
        let l = l.with(FieldKind::Pointer, 0x68, 8, 8);
        let l = l.with(FieldKind::Pointer, 0x70, 8, 8);
        let l = l.with(FieldKind::Opaque, 0x78, 0xb8, 1);
        l.finish(0x130)
    }

    /// Reads the structure at `address`. `None` means that the region
    /// doesn't hold all of its bytes.
    pub fn read(region: &Region, address: u64) -> (r: Option<GameDataMan>)
        ensures
            r is Some <==> region.covers(address, 0x130),
            r is Some ==> r->Some_0.decodes(region.span(address, 0x130)),
    {
        let size = GameDataMan::SIZE;
        if !region.contains(address, size) {
            return None;
        }
        Some(
            GameDataMan {
                main_player_game_data: ForeignPtr { address: region.field_u64(address, size, 0x10) },
                network_players: ForeignPtr { address: region.field_u64(address, size, 0x18) },
            },
        )
    }

    /// Looks up the live manager behind its slot. See
    /// [`resolve`](crate::shared::instance::resolve).
    pub fn instance(slot: Option<u64>, region: &Region) -> (r: InstanceResult<OwnedPtr>)
        ensures
            r is Ok <==> spec_resolve(slot, region) is Ok,
            r is Ok ==> r->Ok_0@ == spec_resolve(slot, region)->Ok_0,
            r is Err ==> r->Err_0 == spec_resolve(slot, region)->Err_0,
    {
        resolve(slot, region)
    }

    /// Prepares the call that adds `quantity` instances of `item` to the
    /// player's inventory if `quantity` is positive, and removes that many
    /// if it's negative.
    pub fn add_or_remove_item(&self, item: CategorizedItemID, quantity: i32) -> (call:
        GiveOrRemoveItemCall)
        ensures
            call.event_man == 0,
            call.category == category_code_of(item@) * 0x80,
            call.item == ordinal_of(item@),
            call.quantity == quantity,
    {
        let code: u32 = item.category().code() as u32;
        GiveOrRemoveItemCall {
            event_man: 0,
            category: code * 0x80,
            item: item.uncategorized().value(),
            quantity,
        }
    }
}

} // verus!
