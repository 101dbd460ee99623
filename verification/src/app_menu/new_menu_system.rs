//! The system that runs the game's menus.

use vstd::prelude::*;

use crate::shared::instance::{resolve, spec_resolve, InstanceResult};
use crate::shared::layout::{FieldKind, StructLayout};
use crate::shared::memory::{le_u64, Region};
use crate::shared::pointer::OwnedPtr;

verus! {

/// The system that runs the game's menus.
#[derive(Debug, Copy, Clone, PartialEq, Eq, Structural)]
pub struct NewMenuSystem {
    /// Where the open menu windows are listed.
    pub windows: u64,
    /// The job that cleans up a menu. It's always set for menus in the main
    /// game, but never for other menus.
    pub finalize_callback_job: u64,
}

impl NewMenuSystem {
    /// The number of bytes that the structure takes in the game's memory.
    pub const SIZE: u64 = 0x3098;

    /// Where the list of windows lies in the structure.
    pub const WINDOWS_OFFSET: u64 = 0x40;

    /// Where the cleanup job lies in the structure.
    pub const FINALIZE_CALLBACK_JOB_OFFSET: u64 = 0xa0;

    /// Whether this structure is what the bytes of `bytes` say, where the
    /// structure lies at `address`.
    pub open spec fn decodes(&self, address: u64, bytes: Seq<u8>) -> bool {
        &&& self.windows == address + 0x40
        &&& self.finalize_callback_job == le_u64(bytes.subrange(0xa0, 0xa8))
    }

    /// Returns the byte layout of the structure.
    pub fn layout() -> (l: StructLayout)
        ensures
            l.wf(),
            l.spec_size() == NewMenuSystem::SIZE,
            l.spec_align() == 8,
            l.spec_fields().len() == 34,
            l.spec_fields()[3].offset == NewMenuSystem::WINDOWS_OFFSET,
            l.spec_fields()[6].offset == NewMenuSystem::FINALIZE_CALLBACK_JOB_OFFSET,
    {
        let l = StructLayout::new();
        let l = l.with(FieldKind::Pointer, 0x0, 8, 8);
        let l = l.with(FieldKind::Pointer, 0x8, 8, 8);
        let l = l.with(FieldKind::Opaque, 0x10, 0x30, 1);
        let l = l.with(FieldKind::Nested, 0x40, 0x50, 8);
        let l = l.with(FieldKind::Pointer, 0x90, 8, 8);
        let l = l.with(FieldKind::Integer, 0x98, 8, 8);
        let l = l.with(FieldKind::Pointer, 0xa0, 8, 8);
        let l = l.with(FieldKind::Integer, 0xa8, 8, 8);
        let l = l.with(FieldKind::Integer, 0xb0, 8, 8);
        let l = l.with(FieldKind::Integer, 0xb8, 8, 8);
        let l = l.with(FieldKind::Integer, 0xc0, 8, 8);
        let l = l.with(FieldKind::Pointer, 0xc8, 8, 8);
        let l = l.with(FieldKind::Opaque, 0xd0, 0x18, 1);
        let l = l.with(FieldKind::Pointer, 0xe8, 8, 8);
        let l = l.with(FieldKind::Nested, 0xf0, 0x50, 8);
        let l = l.with(FieldKind::Integer, 0x140, 1, 1);
        let l = l.with(FieldKind::Integer, 0x144, 4, 4);
        let l = l.with(FieldKind::Integer, 0x148, 4, 4);
        let l = l.with(FieldKind::Integer, 0x150, 8, 8);
        let l = l.with(FieldKind::Integer, 0x158, 2, 2);
        let l = l.with(FieldKind::Opaque, 0x15a, 0x2ec8, 1);
        let l = l.with(FieldKind::Pointer, 0x3028, 8, 8);
        let l = l.with(FieldKind::Pointer, 0x3030, 8, 8);
        let l = l.with(FieldKind::Pointer, 0x3038, 8, 8);
        let l = l.with(FieldKind::Pointer, 0x3040, 8, 8);
        let l = l.with(FieldKind::Opaque, 0x3048, 0x28, 1);
        let l = l.with(FieldKind::Integer, 0x3070, 8, 8);
        let l = l.with(FieldKind::Pointer, 0x3078, 8, 8);
        let l = l.with(FieldKind::Integer, 0x3080, 1, 1);
        let l = l.with(FieldKind::Integer, 0x3081, 1, 1);
        let l = l.with(FieldKind::Integer, 0x3082, 1, 1);
        let l = l.with(FieldKind::Integer, 0x3084, 2, 2);
        let l = l.with(FieldKind::Integer, 0x3088, 8, 8);
        let l = l.with(FieldKind::Integer, 0x3090, 4, 4);
        let l = l.finish(0x3098);
        l
    }

    /// Reads the structure at `address`. `None` means that the region
    /// doesn't hold all of its bytes.
    pub fn read(region: &Region, address: u64) -> (r: Option<NewMenuSystem>)
        ensures
            r is Some <==> region.covers(address, 0x3098),
            r is Some ==> r->Some_0.decodes(address, region.span(address, 0x3098)),
    {
        let size = NewMenuSystem::SIZE;
        if !region.contains(address, size) {
            return None;
        }
        Some(
            NewMenuSystem {
                windows: address + 0x40,
                finalize_callback_job: region.field_u64(address, size, 0xa0),
            },
        )
    }

    /// Looks up the live menu system behind its slot. See
    /// [`resolve`](crate::shared::instance::resolve).
    pub fn instance(slot: Option<u64>, region: &Region) -> (r: InstanceResult<OwnedPtr>)
        ensures
            r is Ok <==> spec_resolve(slot, region) is Ok,
            r is Ok ==> r->Ok_0@ == spec_resolve(slot, region)->Ok_0,
            r is Err ==> r->Err_0 == spec_resolve(slot, region)->Err_0,
    {
        resolve(slot, region)
    }

    /// Returns whether an in-game menu (including bonfires, shops, and so
    /// on) is currently open. This is always false on the main menu, even
    /// if a settings sub-menu is open.
    pub fn is_menu_open(&self) -> (open: bool)
        ensures
            open == (self.finalize_callback_job != 0),
    {
        self.finalize_callback_job != 0
    }
}

/// One window of a menu.
#[derive(Debug, Copy, Clone, PartialEq, Eq, Structural)]
pub struct MenuWindow {
    /// A number whose meaning is unknown.
    pub unk90: u64,
}

impl MenuWindow {
    /// The number of bytes that the structure takes in the game's memory.
    pub const SIZE: u64 = 0x9d8;

    /// Whether this structure is what the bytes of `bytes` say.
    pub open spec fn decodes(&self, bytes: Seq<u8>) -> bool {
        self.unk90 == le_u64(bytes.subrange(0x90, 0x98))
    }

    /// Returns the byte layout of the structure.
    pub fn layout() -> (l: StructLayout)
        ensures
            l.wf(),
            l.spec_size() == MenuWindow::SIZE,
            l.spec_align() == 8,
            l.spec_fields().len() == 29,
            l.spec_fields()[8].offset == 0x90,
    {
        let l = StructLayout::new();
        let l = l.with(FieldKind::Pointer, 0x0, 8, 8);
        let l = l.with(FieldKind::Integer, 0x8, 4, 4);
        let l = l.with(FieldKind::Pointer, 0x10, 8, 8);
        let l = l.with(FieldKind::Opaque, 0x18, 0x28, 1);
        let l = l.with(FieldKind::Integer, 0x40, 8, 8);
        let l = l.with(FieldKind::Pointer, 0x48, 8, 8);
        let l = l.with(FieldKind::Pointer, 0x50, 8, 8);
        let l = l.with(FieldKind::Opaque, 0x58, 0x38, 1);
        let l = l.with(FieldKind::Integer, 0x90, 8, 8);
        let l = l.with(FieldKind::Opaque, 0x98, 0x18, 1);
        let l = l.with(FieldKind::Integer, 0xb0, 8, 8);
        let l = l.with(FieldKind::Opaque, 0xb8, 0x18, 1);
        let l = l.with(FieldKind::Integer, 0xd0, 8, 8);
        let l = l.with(FieldKind::Opaque, 0xd8, 0x60, 1);
        let l = l.with(FieldKind::Opaque, 0x138, 0x60, 1);
        let l = l.with(FieldKind::Integer, 0x198, 8, 8);
        let l = l.with(FieldKind::Nested, 0x1a0, 0x20, 8);
        let l = l.with(FieldKind::Nested, 0x1c0, 0x20, 8);
        let l = l.with(FieldKind::Pointer, 0x1e0, 8, 8);
        let l = l.with(FieldKind::Opaque, 0x1e8, 0x18, 1);
        let l = l.with(FieldKind::Opaque, 0x200, 0x38, 1);
        let l = l.with(FieldKind::Opaque, 0x238, 0x60, 1);
        let l = l.with(FieldKind::Opaque, 0x298, 0x60, 1);
        let l = l.with(FieldKind::Opaque, 0x2f8, 0x60, 1);
        let l = l.with(FieldKind::Integer, 0x358, 1, 1);
        let l = l.with(FieldKind::Opaque, 0x359, 0x60, 1);
        let l = l.with(FieldKind::Opaque, 0x3b9, 0x608, 1);
        let l = l.with(FieldKind::Integer, 0x9c8, 8, 8);
        let l = l.with(FieldKind::Integer, 0x9d0, 8, 8);
        let l = l.finish(0x9d8);
        l
    }

    /// Reads the structure at `address`. `None` means that the region
    /// doesn't hold all of its bytes.
    pub fn read(region: &Region, address: u64) -> (r: Option<MenuWindow>)
        ensures
            r is Some <==> region.covers(address, 0x9d8),
            r is Some ==> r->Some_0.decodes(region.span(address, 0x9d8)),
    {
        if !region.contains(address, MenuWindow::SIZE) {
            return None;
        }
        Some(MenuWindow { unk90: region.field_u64(address, MenuWindow::SIZE, 0x90) })
    }
}

} // verus!
