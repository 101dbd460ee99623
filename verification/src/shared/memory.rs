//! A captured span of the game's address space.
//!
//! The game owns its memory and changes it whenever it likes. This crate
//! never holds on to it: whoever calls the crate captures a span of bytes,
//! together with the address of the first one, and hands it over as a
//! [`Region`]. Every read decodes bytes of the region at the moment it is
//! asked for, and every write changes nothing but the bytes it names.

use vstd::prelude::*;

verus! {

/// The number that two bytes hold, least significant byte first.
pub open spec fn le_u16(bytes: Seq<u8>) -> int {
    bytes[0] as int + bytes[1] as int * 0x100
}

/// The number that four bytes hold, least significant byte first.
pub open spec fn le_u32(bytes: Seq<u8>) -> int {
    bytes[0] as int + bytes[1] as int * 0x100 + bytes[2] as int * 0x1_0000 + bytes[3] as int
        * 0x100_0000
}

/// The number that eight bytes hold, least significant byte first.
pub open spec fn le_u64(bytes: Seq<u8>) -> int {
    le_u32(bytes.subrange(0, 4)) + le_u32(bytes.subrange(4, 8)) * 0x1_0000_0000
}

/// The signed number that four bytes hold in two's complement, least
/// significant byte first.
pub open spec fn le_i32(bytes: Seq<u8>) -> int {
    if le_u32(bytes) >= 0x8000_0000 {
        le_u32(bytes) - 0x1_0000_0000
    } else {
        le_u32(bytes)
    }
}

/// The two bytes that hold `value`, least significant byte first.
pub open spec fn u16_le_bytes(value: u16) -> Seq<u8> {
    seq![(value as int % 0x100) as u8, (value as int / 0x100) as u8]
}

/// The four bytes that hold `value`, least significant byte first.
pub open spec fn u32_le_bytes(value: u32) -> Seq<u8> {
    seq![
        (value as int % 0x100) as u8,
        (value as int / 0x100 % 0x100) as u8,
        (value as int / 0x1_0000 % 0x100) as u8,
        (value as int / 0x100_0000) as u8,
    ]
}

/// The eight bytes that hold `value`, least significant byte first.
pub open spec fn u64_le_bytes(value: u64) -> Seq<u8> {
    u32_le_bytes((value as int % 0x1_0000_0000) as u32) + u32_le_bytes(
        (value as int / 0x1_0000_0000) as u32,
    )
}

/// `bytes` with the bytes from `offset` on replaced by `data`.
pub open spec fn overwrite(bytes: Seq<u8>, offset: int, data: Seq<u8>) -> Seq<u8> {
    Seq::new(
        bytes.len(),
        |i: int|
            if offset <= i < offset + data.len() {
                data[i - offset]
            } else {
                bytes[i]
            },
    )
}

/// Encoding a number and decoding the bytes gives the number back, for each
/// of the three widths.
pub proof fn lemma_le_round_trip(a: u16, b: u32, c: u64)
    ensures
        u16_le_bytes(a).len() == 2,
        u32_le_bytes(b).len() == 4,
        u64_le_bytes(c).len() == 8,
        le_u16(u16_le_bytes(a)) == a,
        le_u32(u32_le_bytes(b)) == b,
        le_u64(u64_le_bytes(c)) == c,
{
    lemma_le_u32_value(b);
    let low = (c as int % 0x1_0000_0000) as u32;
    let high = (c as int / 0x1_0000_0000) as u32;
    lemma_le_u32_value(low);
    lemma_le_u32_value(high);
    assert(u64_le_bytes(c).subrange(0, 4) =~= u32_le_bytes(low));
    assert(u64_le_bytes(c).subrange(4, 8) =~= u32_le_bytes(high));
    assert(c == low + high * 0x1_0000_0000);
}

/// Encoding a 32-bit number and decoding the bytes gives the number back.
proof fn lemma_le_u32_value(value: u32)
    ensures
        u32_le_bytes(value).len() == 4,
        le_u32(u32_le_bytes(value)) == value,
{
    let v = value as int;
    let b0 = v % 0x100;
    let b1 = v / 0x100 % 0x100;
    let b2 = v / 0x1_0000 % 0x100;
    let b3 = v / 0x100_0000;
    let q1 = v / 0x100;
    let q2 = v / 0x1_0000;
    assert(v == b0 + q1 * 0x100);
    assert(q1 == b1 + (q1 / 0x100) * 0x100);
    assert(q1 / 0x100 == q2);
    assert(q2 == b2 + (q2 / 0x100) * 0x100);
    assert(q2 / 0x100 == b3);
    assert(0 <= b3 < 0x100);
    let bytes = u32_le_bytes(value);
    assert(bytes[0] == b0 && bytes[1] == b1 && bytes[2] == b2 && bytes[3] == b3);
    assert(v == b0 + b1 * 0x100 + b2 * 0x1_0000 + b3 * 0x100_0000);
}

/// Decoding bytes and encoding the number gives the bytes back, for each of
/// the three widths.
pub proof fn lemma_le_bytes_of_value(bytes: Seq<u8>)
    ensures
        bytes.len() == 2 ==> 0 <= le_u16(bytes) <= u16::MAX && u16_le_bytes(le_u16(bytes) as u16)
            == bytes,
        bytes.len() == 4 ==> 0 <= le_u32(bytes) <= u32::MAX && u32_le_bytes(le_u32(bytes) as u32)
            == bytes,
        bytes.len() == 8 ==> 0 <= le_u64(bytes) <= u64::MAX && u64_le_bytes(le_u64(bytes) as u64)
            == bytes,
{
    if bytes.len() == 2 {
        lemma_le_u16_bytes(bytes);
    }
    if bytes.len() == 4 {
        lemma_le_u32_bytes(bytes);
    }
    if bytes.len() == 8 {
        lemma_le_u64_bytes(bytes);
    }
}

proof fn lemma_le_u16_bytes(bytes: Seq<u8>)
    requires
        bytes.len() == 2,
    ensures
        0 <= le_u16(bytes) <= u16::MAX,
        u16_le_bytes(le_u16(bytes) as u16) == bytes,
{
    let b0 = bytes[0] as int;
    let b1 = bytes[1] as int;
    let value = le_u16(bytes);
    assert(value == b0 + b1 * 0x100);
    assert(value % 0x100 == b0 && value / 0x100 == b1);
    assert(u16_le_bytes(value as u16) =~= bytes);
}

proof fn lemma_le_u64_bytes(bytes: Seq<u8>)
    requires
        bytes.len() == 8,
    ensures
        0 <= le_u64(bytes) <= u64::MAX,
        u64_le_bytes(le_u64(bytes) as u64) == bytes,
{
    let low = bytes.subrange(0, 4);
    let high = bytes.subrange(4, 8);
    lemma_le_u32_bytes(low);
    lemma_le_u32_bytes(high);
    let l = le_u32(low);
    let h = le_u32(high);
    lemma_split_halves(l, h);
    let value = (l + h * 0x1_0000_0000) as u64;
    assert(le_u64(bytes) == value);
    assert(u64_le_bytes(value) == u32_le_bytes(l as u32) + u32_le_bytes(h as u32));
    assert(low + high =~= bytes);
}

/// A 64-bit number is its low half plus its high half times two to the
/// power of 32, and the halves are read back by remainder and quotient.
proof fn lemma_split_halves(low: int, high: int)
    requires
        0 <= low <= u32::MAX,
        0 <= high <= u32::MAX,
    ensures
        0 <= low + high * 0x1_0000_0000 <= u64::MAX,
        (low + high * 0x1_0000_0000) % 0x1_0000_0000 == low,
        (low + high * 0x1_0000_0000) / 0x1_0000_0000 == high,
{
}

proof fn lemma_le_u32_bytes(bytes: Seq<u8>)
    requires
        bytes.len() == 4,
    ensures
        0 <= le_u32(bytes) <= u32::MAX,
        u32_le_bytes(le_u32(bytes) as u32) == bytes,
{
    let b0 = bytes[0] as int;
    let b1 = bytes[1] as int;
    let b2 = bytes[2] as int;
    let b3 = bytes[3] as int;
    let value = le_u32(bytes);
    let upper3 = b1 + b2 * 0x100 + b3 * 0x1_0000;
    let upper2 = b2 + b3 * 0x100;
    assert(value == b0 + upper3 * 0x100);
    assert(value % 0x100 == b0 && value / 0x100 == upper3);
    assert(upper3 % 0x100 == b1);
    assert(value == (b0 + b1 * 0x100) + upper2 * 0x1_0000);
    assert(value / 0x1_0000 == upper2);
    assert(upper2 % 0x100 == b2);
    assert(value == (b0 + b1 * 0x100 + b2 * 0x1_0000) + b3 * 0x100_0000);
    assert(value / 0x100_0000 == b3);
    assert(u32_le_bytes(value as u32) =~= bytes);
}

/// A span of the game's memory: the address of its first byte, and the bytes
/// as they were when the span was captured or last written to.
#[derive(Debug)]
pub struct Region {
    base: u64,
    bytes: Vec<u8>,
}

impl View for Region {
    type V = Seq<u8>;

    /// The bytes of the span, first to last.
    closed spec fn view(&self) -> Seq<u8> {
        self.bytes@
    }
}

impl Region {
    #[verifier::type_invariant]
    spec fn well_formed(self) -> bool {
        self.base + self.bytes@.len() <= u64::MAX
    }

    /// The address of the span's first byte.
    pub closed spec fn spec_base(&self) -> u64 {
        self.base
    }

    /// Whether the `size` bytes from `address` on all lie inside the span.
    pub open spec fn covers(&self, address: u64, size: int) -> bool {
        0 <= size && self.spec_base() <= address && address + size <= self.spec_base()
            + self@.len()
    }

    /// The `size` bytes from `address` on. Meaningful where the span covers
    /// them.
    pub open spec fn span(&self, address: u64, size: int) -> Seq<u8> {
        self@.subrange(address - self.spec_base(), address - self.spec_base() + size)
    }

    /// Whether this span and `other` hold the same bytes everywhere but in
    /// the `size` bytes from `address` on.
    pub open spec fn same_outside(&self, other: &Region, address: u64, size: int) -> bool {
        &&& self.spec_base() == other.spec_base()
        &&& self@.len() == other@.len()
        &&& forall|i: int|
            0 <= i < self@.len() && !(address - self.spec_base() <= i < address
                - self.spec_base() + size) ==> self@[i] == other@[i]
    }

    /// Wraps bytes captured from `base` on. Bytes that would lie past the
    /// last address are refused.
    pub fn new(base: u64, bytes: Vec<u8>) -> (r: Option<Region>)
        ensures
            r is Some <==> base + bytes@.len() <= u64::MAX,
            r is Some ==> r->Some_0.spec_base() == base && r->Some_0@ == bytes@,
    {
        if bytes.len() as u64 <= u64::MAX - base {
            Some(Region { base, bytes })
        } else {
            None
        }
    }

    /// Returns the address of the span's first byte.
    #[verifier::when_used_as_spec(spec_base)]
    pub fn base(&self) -> (b: u64)
        ensures
            b == self.spec_base(),
            b + self@.len() <= u64::MAX,
    {
        proof {
            use_type_invariant(self);
        }
        self.base
    }

    /// Returns the number of bytes in the span.
    pub fn len(&self) -> (n: usize)
        ensures
            n == self@.len(),
            self.spec_base() + n <= u64::MAX,
    {
        proof {
            use_type_invariant(self);
        }
        self.bytes.len()
    }

    /// Returns the bytes of the span.
    pub fn as_slice(&self) -> (bytes: &[u8])
        ensures
            bytes@ == self@,
    {
        self.bytes.as_slice()
    }

    /// Returns whether the `size` bytes from `address` on all lie inside the
    /// span.
    pub fn contains(&self, address: u64, size: u64) -> (b: bool)
        ensures
            b == self.covers(address, size as int),
            b ==> address + size <= u64::MAX,
    {
        proof {
            use_type_invariant(self);
        }
        let len = self.bytes.len() as u64;
        address >= self.base && address - self.base <= len && size <= len - (address - self.base)
    }

    /// Where `address` lies in the span, provided that the `size` bytes from
    /// there on all lie inside it.
    fn offset_of(&self, address: u64, size: usize) -> (r: Option<usize>)
        ensures
            r is Some <==> self.covers(address, size as int),
            r is Some ==> r->Some_0 == address - self.spec_base() && r->Some_0 + size
                <= self@.len() <= usize::MAX,
    {
        proof {
            use_type_invariant(self);
        }
        let len = self.bytes.len() as u64;
        if address >= self.base && address - self.base <= len && size as u64 <= len - (address
            - self.base) {
            Some((address - self.base) as usize)
        } else {
            None
        }
    }

    /// Reads the byte at `address`.
    pub fn read_u8(&self, address: u64) -> (r: Option<u8>)
        ensures
            r is Some <==> self.covers(address, 1),
            r is Some ==> r->Some_0 == self.span(address, 1)[0],
    {
        match self.offset_of(address, 1) {
            Some(offset) => Some(self.bytes[offset]),
            None => None,
        }
    }

    /// Reads the two bytes at `address` as a little-endian number.
    pub fn read_u16(&self, address: u64) -> (r: Option<u16>)
        ensures
            r is Some <==> self.covers(address, 2),
            r is Some ==> r->Some_0 == le_u16(self.span(address, 2)),
    {
        match self.offset_of(address, 2) {
            Some(offset) => {
                let b0 = self.bytes[offset] as u16;
                let b1 = self.bytes[offset + 1] as u16;
                Some(b0 + b1 * 0x100)
            },
            None => None,
        }
    }

    /// Reads the four bytes at `address` as a little-endian number.
    pub fn read_u32(&self, address: u64) -> (r: Option<u32>)
        ensures
            r is Some <==> self.covers(address, 4),
            r is Some ==> r->Some_0 == le_u32(self.span(address, 4)),
    {
        match self.offset_of(address, 4) {
            Some(offset) => Some(self.word_at(offset)),
            None => None,
        }
    }

    /// Reads the four bytes at `address` as a signed little-endian number.
    pub fn read_i32(&self, address: u64) -> (r: Option<i32>)
        ensures
            r is Some <==> self.covers(address, 4),
            r is Some ==> r->Some_0 == le_i32(self.span(address, 4)),
    {
        match self.read_u32(address) {
            Some(word) => {
                if word >= 0x8000_0000 {
                    Some((word - 0x8000_0000) as i32 + i32::MIN)
                } else {
                    Some(word as i32)
                }
            },
            None => None,
        }
    }

    /// Reads the eight bytes at `address` as a little-endian number.
    pub fn read_u64(&self, address: u64) -> (r: Option<u64>)
        ensures
            r is Some <==> self.covers(address, 8),
            r is Some ==> r->Some_0 == le_u64(self.span(address, 8)),
    {
        match self.offset_of(address, 8) {
            Some(offset) => {
                let low = self.word_at(offset) as u64;
                let high = self.word_at(offset + 4) as u64;
                proof {
                    let all = self.span(address, 8);
                    assert(all.subrange(0, 4) =~= self@.subrange(offset as int, offset + 4));
                    assert(all.subrange(4, 8) =~= self@.subrange(offset + 4, offset + 8));
                }
                Some(low + high * 0x1_0000_0000)
            },
            None => None,
        }
    }

    /// Decodes the four bytes from `offset` on.
    fn word_at(&self, offset: usize) -> (word: u32)
        requires
            offset + 4 <= self@.len() <= usize::MAX,
        ensures
            word == le_u32(self@.subrange(offset as int, offset + 4)),
    {
        let b0 = self.bytes[offset] as u32;
        let b1 = self.bytes[offset + 1] as u32;
        let b2 = self.bytes[offset + 2] as u32;
        let b3 = self.bytes[offset + 3] as u32;
        b0 + b1 * 0x100 + b2 * 0x1_0000 + b3 * 0x100_0000
    }

    /// A field of a structure that the span covers is covered too, and its
    /// bytes are the bytes of the structure at the field's offset.
    pub proof fn lemma_field_span(&self, address: u64, size: int, offset: int, width: int)
        requires
            self.covers(address, size),
            address + size <= u64::MAX,
            0 <= offset,
            0 <= width,
            offset + width <= size,
        ensures
            self.covers((address + offset) as u64, width),
            self.span((address + offset) as u64, width) == self.span(address, size).subrange(
                offset,
                offset + width,
            ),
    {
        assert(self.span((address + offset) as u64, width) =~= self.span(address, size).subrange(
            offset,
            offset + width,
        ));
    }

    /// Reads the one-byte field at `offset` of the structure of `size` bytes
    /// at `address`.
    pub fn field_u8(&self, address: u64, size: u64, offset: u64) -> (value: u8)
        requires
            self.covers(address, size as int),
            offset + 1 <= size,
        ensures
            value == self.span(address, size as int)[offset as int],
    {
        proof {
            use_type_invariant(self);
            self.lemma_field_span(address, size as int, offset as int, 1);
        }
        match self.read_u8(address + offset) {
            Some(value) => value,
            None => vstd::pervasive::unreached(),
        }
    }

    /// Reads the two-byte field at `offset` of the structure of `size` bytes
    /// at `address`.
    pub fn field_u16(&self, address: u64, size: u64, offset: u64) -> (value: u16)
        requires
            self.covers(address, size as int),
            offset + 2 <= size,
        ensures
            value == le_u16(self.span(address, size as int).subrange(offset as int, offset + 2)),
    {
        proof {
            use_type_invariant(self);
            self.lemma_field_span(address, size as int, offset as int, 2);
        }
        match self.read_u16(address + offset) {
            Some(value) => value,
            None => vstd::pervasive::unreached(),
        }
    }

    /// Reads the four-byte field at `offset` of the structure of `size` bytes
    /// at `address`.
    pub fn field_u32(&self, address: u64, size: u64, offset: u64) -> (value: u32)
        requires
            self.covers(address, size as int),
            offset + 4 <= size,
        ensures
            value == le_u32(self.span(address, size as int).subrange(offset as int, offset + 4)),
    {
        proof {
            use_type_invariant(self);
            self.lemma_field_span(address, size as int, offset as int, 4);
        }
        match self.read_u32(address + offset) {
            Some(value) => value,
            None => vstd::pervasive::unreached(),
        }
    }

    /// Reads the signed four-byte field at `offset` of the structure of
    /// `size` bytes at `address`.
    pub fn field_i32(&self, address: u64, size: u64, offset: u64) -> (value: i32)
        requires
            self.covers(address, size as int),
            offset + 4 <= size,
        ensures
            value == le_i32(self.span(address, size as int).subrange(offset as int, offset + 4)),
    {
        proof {
            use_type_invariant(self);
            self.lemma_field_span(address, size as int, offset as int, 4);
        }
        match self.read_i32(address + offset) {
            Some(value) => value,
            None => vstd::pervasive::unreached(),
        }
    }

    /// Reads the eight-byte field at `offset` of the structure of `size`
    /// bytes at `address`.
    pub fn field_u64(&self, address: u64, size: u64, offset: u64) -> (value: u64)
        requires
            self.covers(address, size as int),
            offset + 8 <= size,
        ensures
            value == le_u64(self.span(address, size as int).subrange(offset as int, offset + 8)),
    {
        proof {
            use_type_invariant(self);
            self.lemma_field_span(address, size as int, offset as int, 8);
        }
        match self.read_u64(address + offset) {
            Some(value) => value,
            None => vstd::pervasive::unreached(),
        }
    }

    /// Copies out the `size` bytes from `address` on.
    pub fn read_bytes(&self, address: u64, size: usize) -> (r: Option<Vec<u8>>)
        ensures
            r is Some <==> self.covers(address, size as int),
            r is Some ==> r->Some_0@ == self.span(address, size as int),
    {
        match self.offset_of(address, size) {
            Some(offset) => {
                let part = vstd::slice::slice_subrange(
                    self.bytes.as_slice(),
                    offset,
                    offset + size,
                );
                Some(vstd::slice::slice_to_vec(part))
            },
            None => None,
        }
    }

    /// Replaces the bytes from `address` on by `data`. Where they don't all
    /// lie inside the span, nothing is written and `false` comes back.
    pub fn write_bytes(&mut self, address: u64, data: &[u8]) -> (written: bool)
        ensures
            written == old(self).covers(address, data@.len() as int),
            final(self).spec_base() == old(self).spec_base(),
            written ==> final(self)@ == overwrite(
                old(self)@,
                address - old(self).spec_base(),
                data@,
            ),
            !written ==> final(self)@ == old(self)@,
            final(self).same_outside(old(self), address, data@.len() as int),
    {
        proof {
            use_type_invariant(&*self);
        }
        let offset = match self.offset_of(address, data.len()) {
            Some(offset) => offset,
            None => {
                return false;
            },
        };
        let mut bytes: Vec<u8> = Vec::new();
        core::mem::swap(&mut self.bytes, &mut bytes);
        let ghost before = bytes@;
        let mut i: usize = 0;
        while i < data.len()
            invariant
                i <= data@.len(),
                offset + data@.len() <= before.len() <= usize::MAX,
                bytes@.len() == before.len(),
                forall|j: int|
                    0 <= j < before.len() ==> bytes@[j] == if offset <= j < offset + i {
                        data@[j - offset]
                    } else {
                        before[j]
                    },
            decreases data@.len() - i,
        {
            bytes.set(offset + i, data[i]);
            i += 1;
        }
        assert(bytes@ =~= overwrite(before, offset as int, data@));
        self.bytes = bytes;
        true
    }

    /// Writes `value` as one byte at `address`.
    pub fn write_u8(&mut self, address: u64, value: u8) -> (written: bool)
        ensures
            written == old(self).covers(address, 1),
            final(self).spec_base() == old(self).spec_base(),
            written ==> final(self)@ == overwrite(
                old(self)@,
                address - old(self).spec_base(),
                seq![value],
            ),
            !written ==> final(self)@ == old(self)@,
            final(self).same_outside(old(self), address, 1),
    {
        let data: [u8; 1] = [value];
        assert(data@ =~= seq![value]);
        self.write_bytes(address, data.as_slice())
    }

    /// Writes `value` as two little-endian bytes at `address`.
    pub fn write_u16(&mut self, address: u64, value: u16) -> (written: bool)
        ensures
            written == old(self).covers(address, 2),
            final(self).spec_base() == old(self).spec_base(),
            written ==> final(self)@ == overwrite(
                old(self)@,
                address - old(self).spec_base(),
                u16_le_bytes(value),
            ),
            !written ==> final(self)@ == old(self)@,
            final(self).same_outside(old(self), address, 2),
    {
        let data: [u8; 2] = [(value % 0x100) as u8, (value / 0x100) as u8];
        assert(data@ =~= u16_le_bytes(value));
        self.write_bytes(address, data.as_slice())
    }

    /// Writes `value` as four little-endian bytes at `address`.
    pub fn write_u32(&mut self, address: u64, value: u32) -> (written: bool)
        ensures
            written == old(self).covers(address, 4),
            final(self).spec_base() == old(self).spec_base(),
            written ==> final(self)@ == overwrite(
                old(self)@,
                address - old(self).spec_base(),
                u32_le_bytes(value),
            ),
            !written ==> final(self)@ == old(self)@,
            final(self).same_outside(old(self), address, 4),
    {
        let data = word_bytes(value);
        self.write_bytes(address, data.as_slice())
    }

    /// Writes `value` as eight little-endian bytes at `address`.
    pub fn write_u64(&mut self, address: u64, value: u64) -> (written: bool)
        ensures
            written == old(self).covers(address, 8),
            final(self).spec_base() == old(self).spec_base(),
            written ==> final(self)@ == overwrite(
                old(self)@,
                address - old(self).spec_base(),
                u64_le_bytes(value),
            ),
            !written ==> final(self)@ == old(self)@,
            final(self).same_outside(old(self), address, 8),
    {
        let low = word_bytes((value % 0x1_0000_0000) as u32);
        let high = word_bytes((value / 0x1_0000_0000) as u32);
        let data: [u8; 8] = [
            low[0],
            low[1],
            low[2],
            low[3],
            high[0],
            high[1],
            high[2],
            high[3],
        ];
        assert(data@ =~= u64_le_bytes(value));
        self.write_bytes(address, data.as_slice())
    }
}

/// Encodes `value` as four little-endian bytes.
pub fn word_bytes(value: u32) -> (data: [u8; 4])
    ensures
        data@ == u32_le_bytes(value),
{
    let data: [u8; 4] = [
        (value % 0x100) as u8,
        (value / 0x100 % 0x100) as u8,
        (value / 0x1_0000 % 0x100) as u8,
        (value / 0x100_0000) as u8,
    ];
    assert(data@ =~= u32_le_bytes(value));
    data
}

/// What was written is what is read: after bytes are replaced, the replaced
/// range holds the new bytes, and every range that doesn't touch it holds
/// what it held before.
pub proof fn lemma_overwrite(bytes: Seq<u8>, offset: int, data: Seq<u8>, other: int, size: int)
    requires
        0 <= offset,
        offset + data.len() <= bytes.len(),
        0 <= other,
        0 <= size,
        other + size <= bytes.len(),
    ensures
        overwrite(bytes, offset, data).len() == bytes.len(),
        overwrite(bytes, offset, data).subrange(offset, offset + data.len()) == data,
        other + size <= offset || offset + data.len() <= other ==> overwrite(
            bytes,
            offset,
            data,
        ).subrange(other, other + size) == bytes.subrange(other, other + size),
{
    assert(overwrite(bytes, offset, data).subrange(offset, offset + data.len()) =~= data);
    if other + size <= offset || offset + data.len() <= other {
        assert(overwrite(bytes, offset, data).subrange(other, other + size) =~= bytes.subrange(
            other,
            other + size,
        ));
    }
}

} // verus!
