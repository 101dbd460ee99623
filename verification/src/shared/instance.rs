//! Finding the live instance of one of the game's global objects.
//!
//! The game keeps each such object behind a fixed slot: a place in its image
//! that holds the object's address, or null while the object doesn't exist.
//! Finding the object takes two steps that fail for different reasons. The
//! slot's address comes from a table of offsets, which may not know the
//! running version of the game. The slot itself is then read once, and may
//! hold null. Nothing is kept between two lookups: the game can swap or
//! clear the slot at any time.

use vstd::prelude::*;

use crate::shared::memory::{le_u64, Region};
use crate::shared::pointer::OwnedPtr;

verus! {

/// Why an instance could not be found.
#[derive(Debug, Copy, Clone, PartialEq, Eq, Structural)]
pub enum InstanceError {
    /// The slot's address is not known for the running game, or the captured
    /// memory doesn't hold the slot.
    NotFound,
    /// The slot holds null: the object doesn't exist right now.
    Null,
}

/// What a lookup gives: the instance, or why there is none.
pub type InstanceResult<T> = Result<T, InstanceError>;

/// What looking up the instance behind `slot` in `region` gives.
pub open spec fn spec_resolve(slot: Option<u64>, region: &Region) -> Result<u64, InstanceError> {
    match slot {
        None => Err(InstanceError::NotFound),
        Some(address) => if !region.covers(address, 8) {
            Err(InstanceError::NotFound)
        } else if le_u64(region.span(address, 8)) == 0 {
            Err(InstanceError::Null)
        } else {
            Ok(le_u64(region.span(address, 8)) as u64)
        },
    }
}

/// Where the game's executable is loaded: the address of its first byte and
/// the number of bytes that it takes once loaded. Offsets into the
/// executable are turned into addresses against this.
#[derive(Debug, Copy, Clone, PartialEq, Eq, Structural)]
pub struct ImageSpan {
    /// The address that the executable is loaded at.
    pub base: u64,
    /// The number of bytes that the loaded executable takes.
    pub size: u32,
}

impl ImageSpan {
    /// The address that lies `rva` bytes into the executable. There is none
    /// for an offset of zero, for one at or past the executable's end, or
    /// where the address would lie past the last address.
    pub open spec fn spec_rva_to_va(&self, rva: u32) -> Option<u64> {
        if rva == 0 || rva >= self.size || self.base + rva > u64::MAX {
            None
        } else {
            Some((self.base + rva) as u64)
        }
    }

    /// Returns the address that lies `rva` bytes into the executable, or
    /// `None` where the offset is zero or doesn't lie inside the executable.
    pub fn rva_to_va(&self, rva: u32) -> (r: Option<u64>)
        ensures
            r == self.spec_rva_to_va(rva),
    {
        if rva == 0 || rva >= self.size {
            None
        } else {
            self.base.checked_add(rva as u64)
        }
    }
}

/// What looking up the instance whose slot the offset table gives as `entry`
/// comes to: the table may not know the slot, the offset may not lie in the
/// executable, and the slot may hold null.
pub open spec fn spec_locate(entry: Option<u32>, image: &ImageSpan, region: &Region) -> Result<
    u64,
    InstanceError,
> {
    match entry {
        None => Err(InstanceError::NotFound),
        Some(rva) => spec_resolve(image.spec_rva_to_va(rva), region),
    }
}

/// Looks up an instance from the entry that the offset table holds for its
/// slot, or `None` where the table holds none. The offset is turned into the
/// slot's address, and the slot is read from `region` at the moment of the
/// call. A missing entry and an offset outside the executable both come back
/// as not found; only a slot that was read and holds null comes back as
/// null.
pub fn locate(entry: Option<u32>, image: &ImageSpan, region: &Region) -> (r: InstanceResult<
    OwnedPtr,
>)
    ensures
        r is Ok <==> spec_locate(entry, image, region) is Ok,
        r is Ok ==> r->Ok_0@ == spec_locate(entry, image, region)->Ok_0,
        r is Err ==> r->Err_0 == spec_locate(entry, image, region)->Err_0,
{
    match entry {
        Some(rva) => resolve(image.rva_to_va(rva), region),
        None => Err(InstanceError::NotFound),
    }
}

/// Turns what a slot holds into the instance that it points at.
pub fn instance_from_slot(held: u64) -> (r: InstanceResult<OwnedPtr>)
    ensures
        held == 0 ==> r == Err::<OwnedPtr, InstanceError>(InstanceError::Null),
        held != 0 ==> r is Ok && r->Ok_0@ == held,
{
    match OwnedPtr::try_new(held) {
        Some(instance) => Ok(instance),
        None => Err(InstanceError::Null),
    }
}

/// Looks up the instance behind a slot. `slot` is the slot's address as the
/// offset table and the address translation gave it, or `None` where either
/// of them failed. The slot is read from `region` at the moment of the call.
pub fn resolve(slot: Option<u64>, region: &Region) -> (r: InstanceResult<OwnedPtr>)
    ensures
        r is Ok <==> spec_resolve(slot, region) is Ok,
        r is Ok ==> r->Ok_0@ == spec_resolve(slot, region)->Ok_0,
        r is Err ==> r->Err_0 == spec_resolve(slot, region)->Err_0,
{
    let address = match slot {
        Some(address) => address,
        None => {
            return Err(InstanceError::NotFound);
        },
    };
    match region.read_u64(address) {
        Some(held) => instance_from_slot(held),
        None => Err(InstanceError::NotFound),
    }
}

} // verus!
