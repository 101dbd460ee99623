//! The game's parameter tables.
//!
//! A parameter table starts with a header, followed by a directory with one
//! entry for each row, followed by the rows themselves. A directory entry
//! holds the row's ID and where the row lies, counted in bytes from the start
//! of the table. The directory is sorted by ID, so that a row is found by
//! binary search.

use vstd::prelude::*;
use vstd::utf8::valid_utf8;

use crate::shared::empty::CountArray;
use crate::shared::layout::{FieldKind, StructLayout};
use crate::shared::memory::{le_u16, le_u64, Region};
use crate::shared::pointer::{ForeignPtr, OwnedPtr};
use crate::shared::text::{bytes_equal, decode_utf8, find_terminator, terminator};

verus! {

/// What is known ahead of time about one kind of parameter: where its table
/// sits in the list of all tables, and what the table calls itself.
#[derive(Debug, PartialEq, Eq)]
pub struct ParamDef {
    /// The index of the table in the list of all tables.
    pub index: usize,
    /// The snake-case name that the table holds.
    pub name: String,
}

/// The directory entry of one row.
#[derive(Debug, Copy, Clone, PartialEq, Eq, Structural)]
pub struct ParamRowInfo {
    /// The ID of the parameter row this describes.
    pub id: u64,
    /// The offset (in bytes) from the beginning of the table to the data of
    /// the row.
    pub offset: u64,
}

impl ParamRowInfo {
    /// The number of bytes that one directory entry takes in the game's
    /// memory.
    pub const SIZE: u64 = 0x18;

    /// Whether this entry is what the bytes of `bytes` say.
    pub open spec fn decodes(&self, bytes: Seq<u8>) -> bool {
        &&& self.id == le_u64(bytes.subrange(0x0, 0x8))
        &&& self.offset == le_u64(bytes.subrange(0x8, 0x10))
    }

    /// Returns the byte layout of a directory entry.
    pub fn layout() -> (l: StructLayout)
        ensures
            l.wf(),
            l.spec_size() == ParamRowInfo::SIZE,
            l.spec_align() == 8,
            l.spec_fields().len() == 3,
    {
        let l = StructLayout::new();
        let l = l.with(FieldKind::Integer, 0x0, 8, 8);
        let l = l.with(FieldKind::Integer, 0x8, 8, 8);
        let l = l.with(FieldKind::Integer, 0x10, 8, 8);
        l.finish(0x18)
    }

    /// Reads the entry at `address`. `None` means that the region doesn't
    /// hold all of its bytes.
    pub fn read(region: &Region, address: u64) -> (r: Option<ParamRowInfo>)
        ensures
            r is Some <==> region.covers(address, 0x18),
            r is Some ==> r->Some_0.decodes(region.span(address, 0x18)),
    {
        if !region.contains(address, ParamRowInfo::SIZE) {
            return None;
        }
        Some(
            ParamRowInfo {
                id: region.field_u64(address, ParamRowInfo::SIZE, 0x0),
                offset: region.field_u64(address, ParamRowInfo::SIZE, 0x8),
            },
        )
    }
}

/// The address `offset` bytes behind `base`, or the last address where that
/// would lie past it.
pub open spec fn saturating_address(base: u64, offset: int) -> u64 {
    if base + offset > u64::MAX {
        u64::MAX
    } else {
        (base + offset) as u64
    }
}

/// Returns the address `offset` bytes behind `base`, or the last address
/// where that would lie past it.
pub fn saturating_offset(base: u64, offset: u64) -> (a: u64)
    ensures
        a == saturating_address(base, offset as int),
{
    match base.checked_add(offset) {
        Some(a) => a,
        None => u64::MAX,
    }
}

/// A parameter table, as its header describes it.
#[derive(Debug, Copy, Clone, PartialEq, Eq, Structural)]
pub struct ParamTable {
    /// Where the table lies. Every offset in the table counts from here.
    pub address: OwnedPtr,
    /// The number of rows.
    pub length: u16,
    /// The offset of the parameter's snake-case name from the beginning of
    /// the table.
    pub name_offset: u64,
}

impl ParamTable {
    /// The number of bytes that the header takes in front of the directory.
    pub const HEADER_SIZE: u64 = 0x40;

    /// Whether this header is what the bytes of `bytes` say.
    pub open spec fn decodes(&self, bytes: Seq<u8>) -> bool {
        &&& self.length == le_u16(bytes.subrange(0xa, 0xc))
        &&& self.name_offset == le_u64(bytes.subrange(0x10, 0x18))
    }

    /// The number of bytes that header and directory take together.
    pub open spec fn directory_end(&self) -> int {
        0x40 + self.length * 0x18
    }

    /// Whether `region` holds the header and the whole directory.
    pub open spec fn directory_mapped(&self, region: &Region) -> bool {
        &&& self.address@ + self.directory_end() <= u64::MAX
        &&& region.covers(self.address@, self.directory_end())
    }

    /// The bytes of the directory entry of row `index`.
    pub open spec fn row_bytes(&self, region: &Region, index: int) -> Seq<u8> {
        region.span((self.address@ + 0x40 + index * 0x18) as u64, 0x18)
    }

    /// The ID of row `index`.
    pub open spec fn row_id(&self, region: &Region, index: int) -> int {
        le_u64(self.row_bytes(region, index).subrange(0x0, 0x8))
    }

    /// The offset of the data of row `index` from the beginning of the
    /// table.
    pub open spec fn row_offset(&self, region: &Region, index: int) -> int {
        le_u64(self.row_bytes(region, index).subrange(0x8, 0x10))
    }

    /// Whether the directory is sorted ascending by ID.
    pub open spec fn directory_sorted(&self, region: &Region) -> bool {
        forall|i: int, j: int|
            0 <= i <= j < self.length ==> self.row_id(region, i) <= self.row_id(region, j)
    }

    /// Whether no two rows of the directory have the same ID.
    pub open spec fn directory_unique(&self, region: &Region) -> bool {
        forall|i: int, j: int|
            0 <= i < j < self.length ==> self.row_id(region, i) != self.row_id(region, j)
    }

    /// Returns the byte layout of the header.
    pub fn layout() -> (l: StructLayout)
        ensures
            l.wf(),
            l.spec_size() == ParamTable::HEADER_SIZE,
            l.spec_align() == 8,
            l.spec_fields().len() == 5,
            l.spec_fields()[1].offset == 0xa,
            l.spec_fields()[3].offset == 0x10,
    {
        let l = StructLayout::new();
        let l = l.with(FieldKind::Opaque, 0x0, 0xa, 1);
        let l = l.with(FieldKind::Integer, 0xa, 2, 2);
        let l = l.with(FieldKind::Opaque, 0xc, 4, 1);
        let l = l.with(FieldKind::Integer, 0x10, 8, 8);
        let l = l.with(FieldKind::Opaque, 0x18, 0x28, 1);
        l.finish(0x40)
    }

    /// Reads the header at `address`. `None` means that the address is null
    /// or that the region doesn't hold all of the header's bytes.
    pub fn read(region: &Region, address: u64) -> (r: Option<ParamTable>)
        ensures
            r is Some <==> address != 0 && region.covers(address, 0x40),
            r is Some ==> r->Some_0.address@ == address && r->Some_0.decodes(
                region.span(address, 0x40),
            ),
    {
        let here = match OwnedPtr::try_new(address) {
            Some(here) => here,
            None => {
                return None;
            },
        };
        if !region.contains(address, ParamTable::HEADER_SIZE) {
            return None;
        }
        Some(
            ParamTable {
                address: here,
                length: region.field_u16(address, ParamTable::HEADER_SIZE, 0xa),
                name_offset: region.field_u64(address, ParamTable::HEADER_SIZE, 0x10),
            },
        )
    }

    /// Returns whether `region` holds the header and the whole directory.
    pub fn is_directory_mapped(&self, region: &Region) -> (b: bool)
        ensures
            b == self.directory_mapped(region),
    {
        let size: u64 = 0x40 + self.length as u64 * 0x18;
        region.contains(self.address.address(), size)
    }

    /// Returns the directory entry of row `index`.
    pub fn row(&self, region: &Region, index: u16) -> (row: ParamRowInfo)
        requires
            self.directory_mapped(region),
            index < self.length,
        ensures
            row.id == self.row_id(region, index as int),
            row.offset == self.row_offset(region, index as int),
    {
        let base = self.address.address();
        proof {
            region.lemma_field_span(
                base,
                self.directory_end(),
                0x40 + index * 0x18,
                0x18,
            );
        }
        let at = base + 0x40 + index as u64 * 0x18;
        ParamRowInfo {
            id: region.field_u64(at, ParamRowInfo::SIZE, 0x0),
            offset: region.field_u64(at, ParamRowInfo::SIZE, 0x8),
        }
    }

    /// Returns the header information about each row, in the order of the
    /// directory. `None` means that the region doesn't hold the whole
    /// directory.
    pub fn row_info(&self, region: &Region) -> (r: Option<Vec<ParamRowInfo>>)
        ensures
            r is Some <==> self.directory_mapped(region),
            r is Some ==> r->Some_0@.len() == self.length && forall|i: int|
                0 <= i < self.length ==> (#[trigger] r->Some_0@[i]).id == self.row_id(region, i)
                    && r->Some_0@[i].offset == self.row_offset(region, i),
    {
        if !self.is_directory_mapped(region) {
            return None;
        }
        let mut rows: Vec<ParamRowInfo> = Vec::new();
        let mut i: u16 = 0;
        while i < self.length
            invariant
                i <= self.length,
                self.directory_mapped(region),
                rows@.len() == i,
                forall|j: int|
                    0 <= j < i ==> (#[trigger] rows@[j]).id == self.row_id(region, j)
                        && rows@[j].offset == self.row_offset(region, j),
            decreases self.length - i,
        {
            let row = self.row(region, i);
            rows.push(row);
            i += 1;
        }
        Some(rows)
    }

    /// Returns the address of the beginning of the section of the table that
    /// contains the actual parameter data: the first byte behind the
    /// directory, which lies behind the header. Where that would lie past
    /// the last address, the last address is returned.
    pub fn data(&self) -> (a: u64)
        ensures
            a == saturating_address(self.address@, self.directory_end()),
    {
        saturating_offset(self.address.address(), 0x40 + self.length as u64 * 0x18)
    }

    /// The bytes of the table's name: the bytes from the name's offset on,
    /// up to the first zero byte. `None` where the name would start outside
    /// the region or no zero byte follows it inside the region.
    pub open spec fn spec_name_bytes(&self, region: &Region) -> Option<Seq<u8>> {
        let start = self.address@ + self.name_offset - region.spec_base();
        if start < 0 || start > region@.len() || terminator(region@, start) >= region@.len() {
            None
        } else {
            Some(region@.subrange(start, terminator(region@, start)))
        }
    }

    /// Returns the bytes of the table's name, without the zero byte that
    /// ends it. `None` means that the name starts outside the region or is
    /// not terminated inside it.
    pub fn name_bytes(&self, region: &Region) -> (r: Option<Vec<u8>>)
        ensures
            match r {
                Some(bytes) => self.spec_name_bytes(region) == Some(bytes@),
                None => self.spec_name_bytes(region) is None,
            },
    {
        let base = region.base();
        let len = region.len();
        let start = match self.address.address().checked_add(self.name_offset) {
            Some(start) => start,
            None => {
                return None;
            },
        };
        if start < base || start - base > len as u64 {
            return None;
        }
        let from = (start - base) as usize;
        match find_terminator(region.as_slice(), from) {
            Some(end) => {
                proof {
                    crate::shared::text::lemma_terminator(region@, from as int);
                }
                let part = vstd::slice::slice_subrange(region.as_slice(), from, end);
                Some(vstd::slice::slice_to_vec(part))
            },
            None => None,
        }
    }

    /// Returns the parameter's snake-case name. The name has to lie in the
    /// region and to be valid UTF-8.
    pub fn name(&self, region: &Region) -> (name: String)
        requires
            self.spec_name_bytes(region) is Some,
            valid_utf8(self.spec_name_bytes(region)->Some_0),
        ensures
            name@ == vstd::utf8::decode_utf8(self.spec_name_bytes(region)->Some_0),
    {
        match self.name_bytes(region) {
            Some(bytes) => match decode_utf8(bytes) {
                Some(name) => name,
                None => vstd::pervasive::unreached(),
            },
            None => vstd::pervasive::unreached(),
        }
    }

    /// Returns the parameter's snake-case name, or `None` where the name
    /// doesn't lie in the region or isn't valid UTF-8.
    pub fn try_name(&self, region: &Region) -> (r: Option<String>)
        ensures
            r is Some <==> self.spec_name_bytes(region) is Some && valid_utf8(
                self.spec_name_bytes(region)->Some_0,
            ),
            r is Some ==> r->Some_0@ == vstd::utf8::decode_utf8(
                self.spec_name_bytes(region)->Some_0,
            ),
    {
        match self.name_bytes(region) {
            Some(bytes) => decode_utf8(bytes),
            None => None,
        }
    }

    /// Whether the table's name is the name that `def` announces, byte for
    /// byte.
    pub open spec fn is_param(&self, region: &Region, def: &ParamDef) -> bool {
        self.spec_name_bytes(region) == Some(vstd::utf8::encode_utf8(def.name@))
    }

    /// If the table's name matches the name of `def`, returns the table as a
    /// [`Parameter`].
    pub fn as_param(&self, region: &Region, def: &ParamDef) -> (r: Option<Parameter>)
        ensures
            r is Some <==> self.is_param(region, def),
            r is Some ==> r->Some_0.table == *self,
    {
        match self.name_bytes(region) {
            Some(bytes) => {
                if bytes_equal(bytes.as_slice(), def.name.as_str().as_bytes()) {
                    Some(Parameter { table: *self })
                } else {
                    None
                }
            },
            None => None,
        }
    }

    /// If the table's name matches the name of `def`, returns the table as a
    /// [`Parameter`] whose rows are to be changed. A parameter is the same
    /// value either way: a row is changed by writing to the region at the
    /// address that the parameter gives for it.
    pub fn as_mut_param(&self, region: &Region, def: &ParamDef) -> (r: Option<Parameter>)
        ensures
            r is Some <==> self.is_param(region, def),
            r is Some ==> r->Some_0.table == *self,
    {
        self.as_param(region, def)
    }
}

/// A usable view of a single parameter table, whose name has been checked
/// against the kind of parameter that is expected in it.
#[derive(Debug, Copy, Clone, PartialEq, Eq, Structural)]
pub struct Parameter {
    /// The table.
    pub table: ParamTable,
}

impl Parameter {
    /// What looking for the row with the given ID gives: the index of a row
    /// with that ID, or `None` where no row has it.
    pub open spec fn found(&self, region: &Region, id: u64, r: Option<u16>) -> bool {
        match r {
            Some(index) => index < self.table.length && self.table.row_id(region, index as int)
                == id,
            None => forall|i: int|
                0 <= i < self.table.length ==> self.table.row_id(region, i) != id,
        }
    }

    /// Returns the index of the row with the given ID in the directory, or
    /// `None` if no such row exists. The directory is searched by halving.
    pub fn index_for_id(&self, region: &Region, id: u64) -> (r: Option<u16>)
        requires
            self.table.directory_mapped(region),
            self.table.directory_sorted(region),
        ensures
            self.found(region, id, r),
    {
        let mut low: u16 = 0;
        let mut high: u16 = self.table.length;
        while low < high
            invariant
                low <= high <= self.table.length,
                self.table.directory_mapped(region),
                self.table.directory_sorted(region),
                forall|i: int| 0 <= i < low ==> self.table.row_id(region, i) < id,
                forall|i: int| high <= i < self.table.length ==> self.table.row_id(region, i) > id,
            decreases high - low,
        {
            let mid: u16 = low + (high - low) / 2;
            let row = self.table.row(region, mid);
            if row.id == id {
                return Some(mid);
            } else if row.id < id {
                low = mid + 1;
            } else {
                high = mid;
            }
        }
        None
    }

    /// Returns the address of the row with the given ID, or `None` if no
    /// such row exists. The address is the table's address plus the offset
    /// that the directory gives for the row.
    pub fn ptr_for_id(&self, region: &Region, id: u64) -> (r: Option<u64>)
        requires
            self.table.directory_mapped(region),
            self.table.directory_sorted(region),
        ensures
            r is Some <==> exists|i: int|
                0 <= i < self.table.length && self.table.row_id(region, i) == id,
            r is Some ==> exists|i: int|
                0 <= i < self.table.length && self.table.row_id(region, i) == id && r->Some_0
                    == saturating_address(self.table.address@, self.table.row_offset(region, i)),
    {
        match self.index_for_id(region, id) {
            Some(index) => {
                let row = self.table.row(region, index);
                Some(saturating_offset(self.table.address.address(), row.offset))
            },
            None => None,
        }
    }

    /// If this parameter has a row with the given ID, returns where it
    /// lies. Otherwise returns `None`.
    pub fn get(&self, region: &Region, id: u64) -> (r: Option<u64>)
        requires
            self.table.directory_mapped(region),
            self.table.directory_sorted(region),
        ensures
            r is Some <==> exists|i: int|
                0 <= i < self.table.length && self.table.row_id(region, i) == id,
            r is Some ==> exists|i: int|
                0 <= i < self.table.length && self.table.row_id(region, i) == id && r->Some_0
                    == saturating_address(self.table.address@, self.table.row_offset(region, i)),
    {
        self.ptr_for_id(region, id)
    }

    /// If this parameter has a row with the given ID, returns where it lies,
    /// for a caller that is going to change the row. Otherwise returns
    /// `None`.
    pub fn get_mut(&self, region: &Region, id: u64) -> (r: Option<u64>)
        requires
            self.table.directory_mapped(region),
            self.table.directory_sorted(region),
        ensures
            r is Some <==> exists|i: int|
                0 <= i < self.table.length && self.table.row_id(region, i) == id,
            r is Some ==> exists|i: int|
                0 <= i < self.table.length && self.table.row_id(region, i) == id && r->Some_0
                    == saturating_address(self.table.address@, self.table.row_offset(region, i)),
    {
        self.ptr_for_id(region, id)
    }

    /// Returns whether the directory lies in the region and is sorted
    /// ascending by ID, which is what looking up a row asks for.
    pub fn check_directory(&self, region: &Region) -> (ok: bool)
        ensures
            ok == (self.table.directory_mapped(region) && self.table.directory_sorted(region)),
    {
        if !self.table.is_directory_mapped(region) {
            return false;
        }
        if self.table.length == 0 {
            return true;
        }
        let mut previous = self.table.row(region, 0).id;
        let mut i: u16 = 1;
        while i < self.table.length
            invariant
                1 <= i <= self.table.length,
                self.table.directory_mapped(region),
                previous == self.table.row_id(region, i - 1),
                forall|a: int, b: int|
                    0 <= a <= b < i ==> self.table.row_id(region, a) <= self.table.row_id(
                        region,
                        b,
                    ),
            decreases self.table.length - i,
        {
            let id = self.table.row(region, i).id;
            if id < previous {
                return false;
            }
            previous = id;
            i += 1;
        }
        true
    }

    /// Returns the rows of this parameter as an array of `row_size`-byte
    /// records that starts where the directory ends. Note that the rows
    /// don't hold their IDs; for those, see [`Parameter::iter`]. `None`
    /// means that the rows would end past the last address.
    pub fn as_slice(&self, row_size: u32) -> (r: Option<CountArray>)
        ensures
            r is Some <==> saturating_address(self.table.address@, self.table.directory_end())
                + self.table.length * row_size <= u64::MAX,
            r is Some ==> {
                &&& r->Some_0.spec_head() == saturating_address(
                    self.table.address@,
                    self.table.directory_end(),
                )
                &&& r->Some_0.spec_count() == self.table.length
                &&& r->Some_0.spec_capacity() == self.table.length
                &&& r->Some_0.spec_stride() == row_size
            },
    {
        CountArray::new(
            self.table.data(),
            self.table.length as u32,
            self.table.length as u32,
            row_size,
        )
    }

    /// Returns the rows of this parameter as an array of `row_size`-byte
    /// records, for a caller that is going to change them. The array is
    /// that of [`Parameter::as_slice`].
    pub fn as_mut_slice(&self, row_size: u32) -> (r: Option<CountArray>)
        ensures
            r is Some <==> saturating_address(self.table.address@, self.table.directory_end())
                + self.table.length * row_size <= u64::MAX,
            r is Some ==> {
                &&& r->Some_0.spec_head() == saturating_address(
                    self.table.address@,
                    self.table.directory_end(),
                )
                &&& r->Some_0.spec_count() == self.table.length
                &&& r->Some_0.spec_capacity() == self.table.length
                &&& r->Some_0.spec_stride() == row_size
            },
    {
        self.as_slice(row_size)
    }

    /// Starts a walk that gives the ID and the address of each row in this
    /// parameter, in the order of the directory. `None` means that the
    /// region doesn't hold the whole directory.
    pub fn iter<'a>(&self, region: &'a Region) -> (r: Option<ParamIter<'a>>)
        ensures
            r is Some <==> self.table.directory_mapped(region),
            r is Some ==> r->Some_0.spec_table() == self.table && r->Some_0.spec_region()
                == region && r->Some_0.spec_position() == 0,
    {
        if self.table.is_directory_mapped(region) {
            Some(ParamIter { table: self.table, region, position: 0 })
        } else {
            None
        }
    }

    /// Starts a walk that gives the ID and the address of each row in this
    /// parameter for a caller that changes rows as it goes.
    pub fn iter_mut(&self) -> (r: ParamIterMut)
        ensures
            r.spec_table() == self.table,
            r.spec_position() == 0,
    {
        ParamIterMut { table: self.table, position: 0 }
    }
}

/// In a directory that is sorted and in which no ID occurs twice, a row is
/// found under exactly one index: whenever two indices hold the same ID,
/// they are the same index, so a lookup can only give the row that was
/// asked for.
pub proof fn lemma_unique_row(table: ParamTable, region: &Region, i: int, j: int)
    requires
        table.directory_unique(region),
        0 <= i < table.length,
        0 <= j < table.length,
        table.row_id(region, i) == table.row_id(region, j),
    ensures
        i == j,
{
}

/// A walk over the rows of a parameter and their IDs.
#[derive(Debug)]
pub struct ParamIter<'a> {
    table: ParamTable,
    region: &'a Region,
    position: u16,
}

impl<'a> ParamIter<'a> {
    #[verifier::type_invariant]
    spec fn well_formed(self) -> bool {
        self.table.directory_mapped(self.region) && self.position <= self.table.length
    }

    /// The table whose rows are walked over.
    pub closed spec fn spec_table(&self) -> ParamTable {
        self.table
    }

    /// The region that the directory is read from.
    pub closed spec fn spec_region(&self) -> &'a Region {
        self.region
    }

    /// The index of the row that is given next.
    pub closed spec fn spec_position(&self) -> u16 {
        self.position
    }

    /// Moves to the next row and returns its ID and its address, or returns
    /// `None` once every row has been given.
    pub fn next(&mut self) -> (r: Option<(u64, u64)>)
        ensures
            final(self).spec_table() == old(self).spec_table(),
            final(self).spec_region() == old(self).spec_region(),
            r is None <==> old(self).spec_position() >= old(self).spec_table().length,
            r is None ==> final(self).spec_position() == old(self).spec_position(),
            r is Some ==> {
                let table = old(self).spec_table();
                let index = old(self).spec_position() as int;
                &&& final(self).spec_position() == index + 1
                &&& r->Some_0.0 == table.row_id(old(self).spec_region(), index)
                &&& r->Some_0.1 == saturating_address(
                    table.address@,
                    table.row_offset(old(self).spec_region(), index),
                )
            },
    {
        proof {
            use_type_invariant(&*self);
        }
        if self.position >= self.table.length {
            return None;
        }
        let row = self.table.row(self.region, self.position);
        self.position = self.position + 1;
        Some((row.id, saturating_offset(self.table.address.address(), row.offset)))
    }
}

/// A walk over the rows of a parameter and their IDs for a caller that
/// changes rows as it goes. Each step is handed the region as it is then.
#[derive(Debug)]
pub struct ParamIterMut {
    table: ParamTable,
    position: u16,
}

impl ParamIterMut {
    #[verifier::type_invariant]
    spec fn well_formed(self) -> bool {
        self.position <= self.table.length
    }

    /// The table whose rows are walked over.
    pub closed spec fn spec_table(&self) -> ParamTable {
        self.table
    }

    /// The index of the row that is given next.
    pub closed spec fn spec_position(&self) -> u16 {
        self.position
    }

    /// Moves to the next row and returns its ID and its address as `region`
    /// gives them, or returns `None` once every row has been given.
    pub fn next(&mut self, region: &Region) -> (r: Option<(u64, u64)>)
        requires
            old(self).spec_table().directory_mapped(region),
        ensures
            final(self).spec_table() == old(self).spec_table(),
            r is None <==> old(self).spec_position() >= old(self).spec_table().length,
            r is None ==> final(self).spec_position() == old(self).spec_position(),
            r is Some ==> {
                let table = old(self).spec_table();
                let index = old(self).spec_position() as int;
                &&& final(self).spec_position() == index + 1
                &&& r->Some_0.0 == table.row_id(region, index)
                &&& r->Some_0.1 == saturating_address(
                    table.address@,
                    table.row_offset(region, index),
                )
            },
    {
        proof {
            use_type_invariant(&*self);
        }
        if self.position >= self.table.length {
            return None;
        }
        let row = self.table.row(region, self.position);
        self.position = self.position + 1;
        Some((row.id, saturating_offset(self.table.address.address(), row.offset)))
    }
}

/// The entry of one parameter in the list of all parameters.
#[derive(Debug, Copy, Clone, PartialEq, Eq, Structural)]
pub struct ParamResCap {
    /// The parameter's resource.
    pub param: ForeignPtr,
}

impl ParamResCap {
    /// The number of bytes that the structure takes in the game's memory.
    pub const SIZE: u64 = 0x70;

    /// Whether this structure is what the bytes of `bytes` say.
    pub open spec fn decodes(&self, bytes: Seq<u8>) -> bool {
        self.param.address == le_u64(bytes.subrange(0x68, 0x70))
    }

    /// Returns the byte layout of the structure.
    pub fn layout() -> (l: StructLayout)
        ensures
            l.wf(),
            l.spec_size() == ParamResCap::SIZE,
            l.spec_align() == 8,
            l.spec_fields().len() == 5,
            l.spec_fields()[4].offset == 0x68,
    {
        let l = StructLayout::new();
        let l = l.with(FieldKind::Pointer, 0x0, 8, 8);
        let l = l.with(FieldKind::Opaque, 0x8, 8, 1);
        let l = l.with(FieldKind::Nested, 0x10, 0x30, 8);
        let l = l.with(FieldKind::Opaque, 0x40, 0x28, 1);
        let l = l.with(FieldKind::Pointer, 0x68, 8, 8);
        l.finish(0x70)
    }

    /// Reads the structure at `address`. `None` means that the region
    /// doesn't hold all of its bytes.
    pub fn read(region: &Region, address: u64) -> (r: Option<ParamResCap>)
        ensures
            r is Some <==> region.covers(address, 0x70),
            r is Some ==> r->Some_0.decodes(region.span(address, 0x70)),
    {
        if !region.contains(address, ParamResCap::SIZE) {
            return None;
        }
        Some(
            ParamResCap {
                param: ForeignPtr { address: region.field_u64(address, ParamResCap::SIZE, 0x68) },
            },
        )
    }
}

/// The resource that holds one parameter table.
#[derive(Debug, Copy, Clone, PartialEq, Eq, Structural)]
pub struct FD4ParamResCap {
    /// The total size of the table in bytes.
    pub table_size: u64,
    /// The table.
    pub table: ForeignPtr,
}

impl FD4ParamResCap {
    /// The number of bytes that the structure takes in the game's memory.
    pub const SIZE: u64 = 0x70;

    /// Whether this structure is what the bytes of `bytes` say.
    pub open spec fn decodes(&self, bytes: Seq<u8>) -> bool {
        &&& self.table_size == le_u64(bytes.subrange(0x60, 0x68))
        &&& self.table.address == le_u64(bytes.subrange(0x68, 0x70))
    }

    /// Returns the byte layout of the structure.
    pub fn layout() -> (l: StructLayout)
        ensures
            l.wf(),
            l.spec_size() == FD4ParamResCap::SIZE,
            l.spec_align() == 8,
            l.spec_fields().len() == 6,
            l.spec_fields()[4].offset == 0x60,
            l.spec_fields()[5].offset == 0x68,
    {
        let l = StructLayout::new();
        let l = l.with(FieldKind::Pointer, 0x0, 8, 8);
        let l = l.with(FieldKind::Opaque, 0x8, 8, 1);
        let l = l.with(FieldKind::Nested, 0x10, 0x30, 8);
        let l = l.with(FieldKind::Opaque, 0x40, 0x20, 1);
        let l = l.with(FieldKind::Integer, 0x60, 8, 8);
        let l = l.with(FieldKind::Pointer, 0x68, 8, 8);
        l.finish(0x70)
    }

    /// Reads the structure at `address`. `None` means that the region
    /// doesn't hold all of its bytes.
    pub fn read(region: &Region, address: u64) -> (r: Option<FD4ParamResCap>)
        ensures
            r is Some <==> region.covers(address, 0x70),
            r is Some ==> r->Some_0.decodes(region.span(address, 0x70)),
    {
        if !region.contains(address, FD4ParamResCap::SIZE) {
            return None;
        }
        Some(
            FD4ParamResCap {
                table_size: region.field_u64(address, FD4ParamResCap::SIZE, 0x60),
                table: ForeignPtr {
                    address: region.field_u64(address, FD4ParamResCap::SIZE, 0x68),
                },
            },
        )
    }
}

/// The manager of all parameter tables.
#[derive(Debug, Copy, Clone, PartialEq, Eq, Structural)]
pub struct CSRegulationManager {
    /// The first entry of the list of parameters.
    pub params_begin: ForeignPtr,
    /// The end of the list of parameters: the address behind its last
    /// entry.
    pub params_end: ForeignPtr,
}

impl CSRegulationManager {
    /// The number of bytes that the structure takes in the game's memory.
    pub const SIZE: u64 = 0x28;

    /// Whether this structure is what the bytes of `bytes` say.
    pub open spec fn decodes(&self, bytes: Seq<u8>) -> bool {
        &&& self.params_begin.address == le_u64(bytes.subrange(0x10, 0x18))
        &&& self.params_end.address == le_u64(bytes.subrange(0x18, 0x20))
    }

    /// The number of entries in the list of parameters.
    pub open spec fn param_count(&self) -> int {
        if self.params_end.address >= self.params_begin.address {
            (self.params_end.address - self.params_begin.address) / 0x70
        } else {
            0
        }
    }

    /// Where the table of the parameter with the given index lies, as the
    /// list of parameters and the parameter's resource in `region` say.
    /// `None` where the index is past the list or the region doesn't hold
    /// the entry or the resource.
    pub open spec fn table_address(&self, region: &Region, index: int) -> Option<u64> {
        let entry = (self.params_begin.address + index * 0x70) as u64;
        if index < 0 || index >= self.param_count() || !region.covers(entry, 0x70) {
            None
        } else {
            let resource = le_u64(region.span(entry, 0x70).subrange(0x68, 0x70)) as u64;
            if !region.covers(resource, 0x70) {
                None
            } else {
                Some(le_u64(region.span(resource, 0x70).subrange(0x68, 0x70)) as u64)
            }
        }
    }

    /// Whether `table` is the table of the parameter that `def` names: the
    /// table lies where the list of parameters says, `region` holds its
    /// header, and it holds the name that `def` announces.
    pub open spec fn leads_to(&self, region: &Region, def: &ParamDef, table: ParamTable) -> bool {
        &&& table.address@ != 0
        &&& self.table_address(region, def.index as int) == Some(table.address@)
        &&& region.covers(table.address@, 0x40)
        &&& table.decodes(region.span(table.address@, 0x40))
        &&& table.is_param(region, def)
    }

    /// Returns the byte layout of the structure.
    pub fn layout() -> (l: StructLayout)
        ensures
            l.wf(),
            l.spec_size() == CSRegulationManager::SIZE,
            l.spec_align() == 8,
            l.spec_fields().len() == 3,
            l.spec_fields()[2].offset == 0x10,
    {
        let l = StructLayout::new();
        let l = l.with(FieldKind::Pointer, 0x0, 8, 8);
        let l = l.with(FieldKind::Opaque, 0x8, 8, 1);
        let l = l.with(FieldKind::Nested, 0x10, 0x18, 8);
        l.finish(0x28)
    }

    /// Reads the structure at `address`. `None` means that the region
    /// doesn't hold all of its bytes.
    pub fn read(region: &Region, address: u64) -> (r: Option<CSRegulationManager>)
        ensures
            r is Some <==> region.covers(address, 0x28),
            r is Some ==> r->Some_0.decodes(region.span(address, 0x28)),
    {
        let size = CSRegulationManager::SIZE;
        if !region.contains(address, size) {
            return None;
        }
        Some(
            CSRegulationManager {
                params_begin: ForeignPtr { address: region.field_u64(address, size, 0x10) },
                params_end: ForeignPtr { address: region.field_u64(address, size, 0x18) },
            },
        )
    }

    /// Follows the list of parameters to the table of the parameter with
    /// the given index.
    fn find_table(&self, region: &Region, index: usize) -> (r: Option<u64>)
        ensures
            r == self.table_address(region, index as int),
    {
        if self.params_end.address < self.params_begin.address {
            return None;
        }
        let count = (self.params_end.address - self.params_begin.address) / 0x70;
        if index as u64 >= count {
            return None;
        }
        let entry = self.params_begin.address + index as u64 * 0x70;
        let cap = match ParamResCap::read(region, entry) {
            Some(cap) => cap,
            None => {
                return None;
            },
        };
        match FD4ParamResCap::read(region, cap.param.address) {
            Some(resource) => Some(resource.table.address),
            None => None,
        }
    }

    /// Returns the parameter table that `def` names, or `None` where the
    /// list of parameters doesn't lead to a table with that name.
    pub fn try_get_param(&self, region: &Region, def: &ParamDef) -> (r: Option<Parameter>)
        ensures
            r is Some <==> exists|table: ParamTable| self.leads_to(region, def, table),
            r is Some ==> self.leads_to(region, def, r->Some_0.table),
    {
        let address = match self.find_table(region, def.index) {
            Some(address) => address,
            None => {
                return None;
            },
        };
        let read = match ParamTable::read(region, address) {
            Some(read) => read,
            None => {
                return None;
            },
        };
        let found = read.as_param(region, def);
        proof {
            if found is Some {
                assert(self.leads_to(region, def, read));
            }
            if found is None {
                assert forall|table: ParamTable| !self.leads_to(region, def, table) by {
                    if self.leads_to(region, def, table) {
                        OwnedPtr::lemma_view_injective(read.address, table.address);
                        assert(read == table);
                    }
                }
            }
        }
        found
    }

    /// Returns the parameter table that `def` names. The list of parameters
    /// has to lead to a table with that name.
    pub fn get_param(&self, region: &Region, def: &ParamDef) -> (r: Parameter)
        requires
            exists|table: ParamTable| self.leads_to(region, def, table),
        ensures
            self.leads_to(region, def, r.table),
    {
        match self.try_get_param(region, def) {
            Some(parameter) => parameter,
            None => vstd::pervasive::unreached(),
        }
    }

    /// Returns the parameter table that `def` names, for a caller that
    /// changes its rows. The list of parameters has to lead to a table with
    /// that name.
    pub fn get_mut_param(&self, region: &Region, def: &ParamDef) -> (r: Parameter)
        requires
            exists|table: ParamTable| self.leads_to(region, def, table),
        ensures
            self.leads_to(region, def, r.table),
    {
        self.get_param(region, def)
    }
}

} // verus!
