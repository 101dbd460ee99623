//! Structures of the game's input library.

use vstd::prelude::*;

use crate::dlkr::DLPlainLightMutex;
use crate::shared::instance::{resolve, spec_resolve, InstanceResult};
use crate::shared::layout::{align_up, FieldKind, Layout, LayoutError, StructLayout, MAX_STRUCT_SIZE};
use crate::shared::memory::{le_u64, Region};
use crate::shared::pointer::{ForeignPtr, OwnedPtr};

verus! {

/// The virtual methods of the game's input suppressor, in the order of its
/// method table.
pub trait DLUserInputSuppressorVmt {
    /// A method whose purpose is unknown.
    fn unk00(&self);

    /// Destroys the suppressor. `param_2` says whether its memory is freed
    /// as well.
    fn destructor(&mut self, param_2: bool);
}

/// What keeps the game from seeing some of the user's input: a method table
/// in front of two sets of bits, one after the other.
#[derive(Debug, Copy, Clone, PartialEq, Eq, Structural)]
pub struct DLUserInputSuppressor {}

impl DLUserInputSuppressor {
    /// Where the first set of bits lies in a suppressor whose sets of bits
    /// ask for the alignment `align`.
    pub open spec fn first_offset(align: u64) -> int {
        align_up(8, align as int)
    }

    /// Where the second set of bits lies in a suppressor whose sets of bits
    /// take `size` bytes each and ask for the alignment `align`.
    pub open spec fn second_offset(size: u64, align: u64) -> int {
        align_up(Self::first_offset(align) + size, align as int)
    }

    /// Returns the byte layout of a suppressor whose sets of bits have the
    /// layout `bitset`. The layout is refused where the suppressor would be
    /// larger than a structure may be.
    pub fn layout(bitset: &Layout) -> (r: Result<StructLayout, LayoutError>)
        ensures
            r is Ok <==> Self::second_offset(bitset.spec_size(), bitset.spec_align())
                + bitset.spec_size() <= MAX_STRUCT_SIZE,
            r is Ok ==> {
                let l = r->Ok_0;
                &&& l.wf()
                &&& l.spec_fields().len() == 3
                &&& l.spec_fields()[0].offset == 0
                &&& l.spec_fields()[0].kind == FieldKind::Pointer
                &&& l.spec_fields()[1].offset == Self::first_offset(bitset.spec_align())
                &&& l.spec_fields()[1].size == bitset.spec_size()
                &&& l.spec_fields()[2].offset == Self::second_offset(
                    bitset.spec_size(),
                    bitset.spec_align(),
                )
                &&& l.spec_fields()[2].size == bitset.spec_size()
                &&& l.spec_size() == align_up(
                    Self::second_offset(bitset.spec_size(), bitset.spec_align())
                        + bitset.spec_size(),
                    l.spec_align() as int,
                )
                &&& l.spec_align() == if bitset.spec_align() >= 8 {
                    bitset.spec_align()
                } else {
                    8
                }
            },
    {
        let size = bitset.size();
        let align = bitset.align();
        proof {
            crate::shared::layout::lemma_align_up(8, align);
            crate::shared::layout::lemma_align_up(Self::first_offset(align) + size, align);
        }
        let l = StructLayout::new();
        let l = l.with(FieldKind::Pointer, 0x0, 8, 8);
        let l = match l.place(FieldKind::Nested, size, align) {
            Ok(l) => l,
            Err(e) => {
                return Err(e);
            },
        };
        match l.place(FieldKind::Nested, size, align) {
            Ok(l) => Ok(l.pad()),
            Err(e) => Err(e),
        }
    }
}

/// An input device as the game sees it.
#[derive(Debug, Copy, Clone, PartialEq, Eq, Structural)]
pub struct DLUserInputDevice {
    /// The allocator that the device takes its memory from.
    pub allocator: ForeignPtr,
    /// The first of the extensions that are attached to the device.
    pub extensions_begin: ForeignPtr,
    /// The end of the extensions that are attached to the device.
    pub extensions_end: ForeignPtr,
}

impl DLUserInputDevice {
    /// The number of bytes that the structure takes in the game's memory.
    pub const SIZE: u64 = 0x78;

    /// Whether this structure is what the bytes of `bytes` say.
    pub open spec fn decodes(&self, bytes: Seq<u8>) -> bool {
        &&& self.allocator.address == le_u64(bytes.subrange(0x8, 0x10))
        &&& self.extensions_begin.address == le_u64(bytes.subrange(0x60, 0x68))
        &&& self.extensions_end.address == le_u64(bytes.subrange(0x68, 0x70))
    }

    /// Returns the byte layout of the structure.
    pub fn layout() -> (l: StructLayout)
        ensures
            l.wf(),
            l.spec_size() == DLUserInputDevice::SIZE,
            l.spec_align() == 8,
            l.spec_fields().len() == 4,
            l.spec_fields()[1].offset == 0x8,
            l.spec_fields()[3].offset == 0x60,
    {
        let l = StructLayout::new();
        let l = l.with(FieldKind::Pointer, 0x0, 8, 8);
        let l = l.with(FieldKind::Pointer, 0x8, 8, 8);
        let l = l.with(FieldKind::Opaque, 0x10, 0x50, 1);
        let l = l.with(FieldKind::Nested, 0x60, 0x18, 8);
        l.finish(0x78)
    }

    /// Reads the structure at `address`. `None` means that the region
    /// doesn't hold all of its bytes.
    pub fn read(region: &Region, address: u64) -> (r: Option<DLUserInputDevice>)
        ensures
            r is Some <==> region.covers(address, 0x78),
            r is Some ==> r->Some_0.decodes(region.span(address, 0x78)),
    {
        let size = DLUserInputDevice::SIZE;
        if !region.contains(address, size) {
            return None;
        }
        Some(
            DLUserInputDevice {
                allocator: ForeignPtr { address: region.field_u64(address, size, 0x8) },
                extensions_begin: ForeignPtr { address: region.field_u64(address, size, 0x60) },
                extensions_end: ForeignPtr { address: region.field_u64(address, size, 0x68) },
            },
        )
    }
}

/// An input device together with what the game keeps beside it: the mutex
/// that guards it and the state of its inputs.
#[derive(Debug, Copy, Clone, PartialEq, Eq, Structural)]
pub struct DLUserInputDeviceImpl {
    /// The device itself.
    pub device: DLUserInputDevice,
    /// Where the mutex lies that guards the device.
    pub mutex: u64,
    /// The state of the device's inputs.
    pub input_data: VirtualInputData,
}

impl DLUserInputDeviceImpl {
    /// Where the mutex lies in the structure.
    pub const MUTEX_OFFSET: u64 = 0x88;

    /// Where the state of the inputs lies in the structure.
    pub const INPUT_DATA_OFFSET: u64 = 0x120;

    /// The number of bytes from the start of the structure to the set of
    /// bits at the end of the state of the inputs. The size of that set is
    /// not known, and so neither is that of the structure.
    pub const KNOWN_SIZE: u64 = 0x148;

    /// Whether this structure is what the bytes of `bytes` say, for a
    /// structure that lies at `address`.
    pub open spec fn decodes(&self, address: u64, bytes: Seq<u8>) -> bool {
        &&& self.device.decodes(bytes.subrange(0, 0x78))
        &&& self.mutex == address + 0x88
        &&& self.input_data.bitset == address + 0x148
    }

    /// Returns the byte layout of the known part of the structure.
    pub fn layout() -> (l: StructLayout)
        ensures
            l.wf(),
            l.spec_size() == DLUserInputDeviceImpl::KNOWN_SIZE,
            l.spec_align() == 8,
            l.spec_fields().len() == 8,
            l.spec_fields()[0].size == DLUserInputDevice::SIZE,
            l.spec_fields()[2].offset == DLUserInputDeviceImpl::MUTEX_OFFSET,
            l.spec_fields()[2].size == DLPlainLightMutex::SIZE,
            l.spec_fields()[7].offset == DLUserInputDeviceImpl::INPUT_DATA_OFFSET,
            l.spec_fields()[7].size == VirtualInputData::BITSET_OFFSET,
    {
        let l = StructLayout::new();
        let l = l.with(FieldKind::Nested, 0x0, 0x78, 8);
        let l = l.with(FieldKind::Opaque, 0x78, 0x10, 1);
        let l = l.with(FieldKind::Nested, 0x88, 0x38, 8);
        let l = l.with(FieldKind::Opaque, 0xc0, 0x8, 1);
        let l = l.with(FieldKind::Nested, 0xc8, 0x20, 8);
        let l = l.with(FieldKind::Nested, 0xe8, 0x20, 8);
        let l = l.with(FieldKind::Nested, 0x108, 0x18, 8);
        let l = l.with(FieldKind::Nested, 0x120, 0x28, 8);
        l.finish(0x148)
    }

    /// Reads the known part of the structure at `address`. `None` means
    /// that the region doesn't hold all of its bytes.
    pub fn read(region: &Region, address: u64) -> (r: Option<DLUserInputDeviceImpl>)
        ensures
            r is Some <==> region.covers(address, 0x148),
            r is Some ==> r->Some_0.decodes(address, region.span(address, 0x148)),
    {
        if !region.contains(address, DLUserInputDeviceImpl::KNOWN_SIZE) {
            return None;
        }
        proof {
            region.lemma_field_span(address, 0x148, 0x0, 0x78);
        }
        let device = DLUserInputDevice::read(region, address);
        let input_data = VirtualInputData::at(address + 0x120);
        match (device, input_data) {
            (Some(device), Some(input_data)) => Some(
                DLUserInputDeviceImpl { device, mutex: address + 0x88, input_data },
            ),
            _ => None,
        }
    }
}

/// The state of the inputs of a device, as numbers between off and on.
#[derive(Debug, Copy, Clone, PartialEq, Eq, Structural)]
pub struct VirtualInputData {
    /// Where the set of bits lies that says which inputs are on.
    pub bitset: u64,
}

impl VirtualInputData {
    /// Where the set of bits lies in the structure.
    pub const BITSET_OFFSET: u64 = 0x28;

    /// Returns the byte layout of the part of the structure in front of the
    /// set of bits.
    pub fn layout() -> (l: StructLayout)
        ensures
            l.wf(),
            l.spec_size() == VirtualInputData::BITSET_OFFSET,
            l.spec_align() == 8,
            l.spec_fields().len() == 2,
    {
        let l = StructLayout::new();
        let l = l.with(FieldKind::Pointer, 0x0, 8, 8);
        let l = l.with(FieldKind::Nested, 0x8, 0x20, 8);
        l.finish(0x28)
    }

    /// Describes the structure at `address`. `None` means that the set of
    /// bits would lie past the last address.
    pub fn at(address: u64) -> (r: Option<VirtualInputData>)
        ensures
            r is Some <==> address + 0x28 <= u64::MAX,
            r is Some ==> r->Some_0.bitset == address + 0x28,
    {
        match address.checked_add(VirtualInputData::BITSET_OFFSET) {
            Some(bitset) => Some(VirtualInputData { bitset }),
            None => None,
        }
    }
}

/// The manager of all input devices.
#[derive(Debug, Copy, Clone, PartialEq, Eq, Structural)]
pub struct DLUserInputManager {}

impl DLUserInputManager {
    /// Where the manager's mutex lies in the structure.
    pub const MUTEX_OFFSET: u64 = 0x8;

    /// Looks up the live manager behind its slot. See
    /// [`resolve`](crate::shared::instance::resolve).
    pub fn instance(slot: Option<u64>, region: &Region) -> (r: InstanceResult<OwnedPtr>)
        ensures
            r is Ok <==> spec_resolve(slot, region) is Ok,
            r is Ok ==> r->Ok_0@ == spec_resolve(slot, region)->Ok_0,
            r is Err ==> r->Err_0 == spec_resolve(slot, region)->Err_0,
    {
        resolve(slot, region)
    }
}

} // verus!
