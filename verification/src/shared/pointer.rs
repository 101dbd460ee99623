//! Pointers into the game's memory, and the overlays that they are followed to.
//!
//! A foreign pointer is an address and nothing more: the game may free or
//! move what it points at whenever it likes. There are two flavours. A
//! [`ForeignPtr`] may be null and has to be asked before it is followed. An
//! [`OwnedPtr`] stands where the game itself never stores null.

use vstd::prelude::*;

use crate::shared::layout::Layout;
use crate::shared::memory::{le_u16, le_u32, le_u64, Region};

verus! {

/// A pointer into the game's memory that may be null.
#[derive(Debug, Copy, Clone, PartialEq, Eq, Structural)]
pub struct ForeignPtr {
    /// The address pointed at, or zero.
    pub address: u64,
}

impl ForeignPtr {
    /// Returns the null pointer.
    pub fn null() -> (p: ForeignPtr)
        ensures
            p.address == 0,
    {
        ForeignPtr { address: 0 }
    }

    /// Returns whether this is the null pointer.
    pub fn is_null(&self) -> (b: bool)
        ensures
            b == (self.address == 0),
    {
        self.address == 0
    }

    /// Returns the pointer as one that is known not to be null, or `None`
    /// where it is null.
    pub fn as_non_null(&self) -> (r: Option<OwnedPtr>)
        ensures
            r is None <==> self.address == 0,
            r is Some ==> r->Some_0@ == self.address,
    {
        OwnedPtr::try_new(self.address)
    }

    /// Lays a structure of the given layout over the memory pointed at.
    /// A null pointer gives `None`; no other pointer does.
    pub fn overlay(&self, layout: Layout) -> (r: Option<Overlay>)
        requires
            self.address != 0 ==> can_overlay(self.address, layout),
        ensures
            r is None <==> self.address == 0,
            r is Some ==> r->Some_0.spec_base() == self.address && r->Some_0.spec_layout()
                == layout,
    {
        match self.as_non_null() {
            Some(p) => Some(p.overlay(layout)),
            None => None,
        }
    }
}

/// Whether a structure of the given layout can lie at `address`: the address
/// is not null, it is a multiple of the layout's alignment, and the structure
/// ends at or before the last address.
pub open spec fn can_overlay(address: u64, layout: Layout) -> bool {
    &&& address != 0
    &&& address as int % layout.spec_align() as int == 0
    &&& address + layout.spec_size() <= u64::MAX
}

/// A pointer into the game's memory that is not null.
#[derive(Debug, Copy, Clone, PartialEq, Eq, Structural)]
pub struct OwnedPtr {
    address: u64,
}

impl View for OwnedPtr {
    type V = u64;

    /// The address pointed at.
    closed spec fn view(&self) -> u64 {
        self.address
    }
}

impl OwnedPtr {
    #[verifier::type_invariant]
    spec fn well_formed(self) -> bool {
        self.address != 0
    }

    /// Wraps an address that the game never leaves null.
    pub fn new(address: u64) -> (p: OwnedPtr)
        requires
            address != 0,
        ensures
            p@ == address,
    {
        OwnedPtr { address }
    }

    /// Wraps an address, or returns `None` where it is null.
    pub fn try_new(address: u64) -> (r: Option<OwnedPtr>)
        ensures
            r is None <==> address == 0,
            r is Some ==> r->Some_0@ == address,
    {
        if address == 0 {
            None
        } else {
            Some(OwnedPtr { address })
        }
    }

    /// Returns the address pointed at.
    pub fn address(&self) -> (a: u64)
        ensures
            a == self@,
            a != 0,
    {
        proof {
            use_type_invariant(self);
        }
        self.address
    }

    /// Returns the same pointer as one that may be null.
    pub fn as_foreign(&self) -> (p: ForeignPtr)
        ensures
            p.address == self@,
    {
        ForeignPtr { address: self.address }
    }

    /// Lays a structure of the given layout over the memory pointed at.
    pub fn overlay(&self, layout: Layout) -> (view: Overlay)
        requires
            can_overlay(self@, layout),
        ensures
            view.spec_base() == self@,
            view.spec_layout() == layout,
    {
        Overlay { base: self.address, layout }
    }

    /// Two pointers to the same address are the same pointer.
    pub proof fn lemma_view_injective(a: OwnedPtr, b: OwnedPtr)
        requires
            a@ == b@,
        ensures
            a == b,
    {
    }
}

/// A structure laid over the game's memory: where it starts and how large it
/// is. An overlay holds no bytes. Each read and each write goes to the region
/// that is handed in with it, at the overlay's base plus the field's offset.
#[derive(Debug, Copy, Clone, PartialEq, Eq, Structural)]
pub struct Overlay {
    base: u64,
    layout: Layout,
}

impl Overlay {
    #[verifier::type_invariant]
    spec fn well_formed(self) -> bool {
        can_overlay(self.base, self.layout)
    }

    /// The address of the structure's first byte.
    pub closed spec fn spec_base(&self) -> u64 {
        self.base
    }

    /// The structure's size and alignment.
    pub closed spec fn spec_layout(&self) -> Layout {
        self.layout
    }

    /// Whether a field of `width` bytes at `offset` lies inside the
    /// structure.
    pub open spec fn has_field(&self, offset: u64, width: int) -> bool {
        0 <= width && offset + width <= self.spec_layout().spec_size()
    }

    /// Returns the address of the structure's first byte.
    #[verifier::when_used_as_spec(spec_base)]
    pub fn base(&self) -> (b: u64)
        ensures
            b == self.spec_base(),
            can_overlay(b, self.spec_layout()),
    {
        proof {
            use_type_invariant(self);
        }
        self.base
    }

    /// Returns the structure's size and alignment.
    #[verifier::when_used_as_spec(spec_layout)]
    pub fn layout(&self) -> (l: Layout)
        ensures
            l == self.spec_layout(),
    {
        self.layout
    }

    /// Returns the address of the field at `offset`.
    pub fn field_address(&self, offset: u64) -> (a: u64)
        requires
            self.has_field(offset, 0),
        ensures
            a == self.spec_base() + offset,
    {
        proof {
            use_type_invariant(self);
        }
        self.base + offset
    }

    /// Reads the one-byte field at `offset`. `None` means that the region
    /// doesn't hold the field's byte.
    pub fn read_u8(&self, region: &Region, offset: u64) -> (r: Option<u8>)
        requires
            self.has_field(offset, 1),
        ensures
            r is Some <==> region.covers((self.spec_base() + offset) as u64, 1),
            r is Some ==> r->Some_0 == region.span((self.spec_base() + offset) as u64, 1)[0],
    {
        region.read_u8(self.field_address(offset))
    }

    /// Reads the two-byte field at `offset`. `None` means that the region
    /// doesn't hold all of the field's bytes.
    pub fn read_u16(&self, region: &Region, offset: u64) -> (r: Option<u16>)
        requires
            self.has_field(offset, 2),
        ensures
            r is Some <==> region.covers((self.spec_base() + offset) as u64, 2),
            r is Some ==> r->Some_0 == le_u16(region.span((self.spec_base() + offset) as u64, 2)),
    {
        region.read_u16(self.field_address(offset))
    }

    /// Reads the four-byte field at `offset`. `None` means that the region
    /// doesn't hold all of the field's bytes.
    pub fn read_u32(&self, region: &Region, offset: u64) -> (r: Option<u32>)
        requires
            self.has_field(offset, 4),
        ensures
            r is Some <==> region.covers((self.spec_base() + offset) as u64, 4),
            r is Some ==> r->Some_0 == le_u32(region.span((self.spec_base() + offset) as u64, 4)),
    {
        region.read_u32(self.field_address(offset))
    }

    /// Reads the eight-byte field at `offset`. `None` means that the region
    /// doesn't hold all of the field's bytes.
    pub fn read_u64(&self, region: &Region, offset: u64) -> (r: Option<u64>)
        requires
            self.has_field(offset, 8),
        ensures
            r is Some <==> region.covers((self.spec_base() + offset) as u64, 8),
            r is Some ==> r->Some_0 == le_u64(region.span((self.spec_base() + offset) as u64, 8)),
    {
        region.read_u64(self.field_address(offset))
    }

    /// Reads the pointer field at `offset`. `None` means that the region
    /// doesn't hold all of the field's bytes.
    pub fn read_ptr(&self, region: &Region, offset: u64) -> (r: Option<ForeignPtr>)
        requires
            self.has_field(offset, 8),
        ensures
            r is Some <==> region.covers((self.spec_base() + offset) as u64, 8),
            r is Some ==> r->Some_0.address == le_u64(
                region.span((self.spec_base() + offset) as u64, 8),
            ),
    {
        match self.read_u64(region, offset) {
            Some(address) => Some(ForeignPtr { address }),
            None => None,
        }
    }

    /// Copies out the `width` bytes of the field at `offset`, whatever they
    /// mean. `None` means that the region doesn't hold all of them.
    pub fn read_opaque(&self, region: &Region, offset: u64, width: usize) -> (r: Option<Vec<u8>>)
        requires
            self.has_field(offset, width as int),
        ensures
            r is Some <==> region.covers((self.spec_base() + offset) as u64, width as int),
            r is Some ==> r->Some_0@ == region.span(
                (self.spec_base() + offset) as u64,
                width as int,
            ),
    {
        region.read_bytes(self.field_address(offset), width)
    }

    /// Writes the four-byte field at `offset`. Every byte outside the field
    /// stays as it is. `false` means that the region doesn't hold all of the
    /// field's bytes, and then nothing is written.
    pub fn write_u32(&self, region: &mut Region, offset: u64, value: u32) -> (written: bool)
        requires
            self.has_field(offset, 4),
        ensures
            written == old(region).covers((self.spec_base() + offset) as u64, 4),
            final(region).same_outside(old(region), (self.spec_base() + offset) as u64, 4),
            written ==> final(region).span((self.spec_base() + offset) as u64, 4)
                == crate::shared::memory::u32_le_bytes(value),
            !written ==> final(region)@ == old(region)@,
    {
        let address = self.field_address(offset);
        let written = region.write_u32(address, value);
        proof {
            if written {
                crate::shared::memory::lemma_overwrite(
                    old(region)@,
                    address - old(region).spec_base(),
                    crate::shared::memory::u32_le_bytes(value),
                    0,
                    0,
                );
            }
        }
        written
    }

    /// Writes the eight-byte field at `offset`. Every byte outside the field
    /// stays as it is. `false` means that the region doesn't hold all of the
    /// field's bytes, and then nothing is written.
    pub fn write_u64(&self, region: &mut Region, offset: u64, value: u64) -> (written: bool)
        requires
            self.has_field(offset, 8),
        ensures
            written == old(region).covers((self.spec_base() + offset) as u64, 8),
            final(region).same_outside(old(region), (self.spec_base() + offset) as u64, 8),
            written ==> final(region).span((self.spec_base() + offset) as u64, 8)
                == crate::shared::memory::u64_le_bytes(value),
            !written ==> final(region)@ == old(region)@,
    {
        let address = self.field_address(offset);
        let written = region.write_u64(address, value);
        proof {
            if written {
                crate::shared::memory::lemma_overwrite(
                    old(region)@,
                    address - old(region).spec_base(),
                    crate::shared::memory::u64_le_bytes(value),
                    0,
                    0,
                );
            }
        }
        written
    }
}

} // verus!
