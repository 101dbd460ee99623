//! Streams over memory, as the game's save routines read and write them.
//!
//! A block of bytes is stored *delimited*: its length goes first, as four
//! bytes with the least significant byte first, and the bytes follow.

use vstd::prelude::*;

use crate::shared::memory::{le_u32, u32_le_bytes, word_bytes};

verus! {

/// The number of bytes that the length of a delimited block takes.
pub const LENGTH_PREFIX_SIZE: usize = 4;

/// A block of bytes with its length in front.
pub open spec fn delimited(block: Seq<u8>) -> Seq<u8> {
    u32_le_bytes(block.len() as u32) + block
}

/// The block that `bytes` starts with, if it starts with a whole delimited
/// block.
pub open spec fn leading_block(bytes: Seq<u8>) -> Option<Seq<u8>> {
    if bytes.len() < 4 || bytes.len() < 4 + le_u32(bytes.subrange(0, 4)) {
        None
    } else {
        Some(bytes.subrange(4, 4 + le_u32(bytes.subrange(0, 4))))
    }
}

/// A delimited block is read back as the block that was stored, whatever
/// follows it.
pub proof fn lemma_delimited_round_trip(block: Seq<u8>, rest: Seq<u8>)
    requires
        block.len() <= u32::MAX,
    ensures
        (delimited(block) + rest).len() == 4 + block.len() + rest.len(),
        leading_block(delimited(block) + rest) == Some(block),
{
    crate::shared::memory::lemma_le_round_trip(0, block.len() as u32, 0);
    let bytes = delimited(block) + rest;
    assert(bytes.subrange(0, 4) =~= u32_le_bytes(block.len() as u32));
    assert(bytes.subrange(4, 4 + block.len() as int) =~= block);
}

/// A stream that reads from bytes held in memory.
#[derive(Debug)]
pub struct DLMemoryInputStream {
    data: Vec<u8>,
    position: usize,
}

impl View for DLMemoryInputStream {
    type V = Seq<u8>;

    /// All bytes of the stream, read or not.
    closed spec fn view(&self) -> Seq<u8> {
        self.data@
    }
}

impl DLMemoryInputStream {
    #[verifier::type_invariant]
    spec fn well_formed(self) -> bool {
        self.position <= self.data@.len()
    }

    /// The number of bytes that have been read.
    pub closed spec fn spec_position(&self) -> usize {
        self.position
    }

    /// The bytes that have not been read yet.
    pub open spec fn remaining(&self) -> Seq<u8> {
        self@.subrange(self.spec_position() as int, self@.len() as int)
    }

    /// Creates a stream that reads `data` from its first byte on.
    pub fn new(data: Vec<u8>) -> (stream: DLMemoryInputStream)
        ensures
            stream@ == data@,
            stream.spec_position() == 0,
    {
        DLMemoryInputStream { data, position: 0 }
    }

    /// Returns the number of bytes that have been read.
    pub fn stream_position(&self) -> (p: usize)
        ensures
            p == self.spec_position(),
            p <= self@.len(),
    {
        proof {
            use_type_invariant(self);
        }
        self.position
    }

    /// Moves to the byte at `position`, counted from the start of the
    /// stream. A position past the end is refused: `false` comes back and
    /// the stream stays where it is.
    pub fn seek(&mut self, position: usize) -> (moved: bool)
        ensures
            final(self)@ == old(self)@,
            moved == (position <= old(self)@.len()),
            moved ==> final(self).spec_position() == position,
            !moved ==> final(self).spec_position() == old(self).spec_position(),
    {
        proof {
            use_type_invariant(&*self);
        }
        if position <= self.data.len() {
            self.position = position;
            true
        } else {
            false
        }
    }

    /// Reads up to `count` bytes: as many as are left, and no more than
    /// `count`.
    pub fn read(&mut self, count: usize) -> (bytes: Vec<u8>)
        ensures
            final(self)@ == old(self)@,
            bytes@.len() == if count <= old(self).remaining().len() {
                count as int
            } else {
                old(self).remaining().len() as int
            },
            bytes@ == old(self).remaining().subrange(0, bytes@.len() as int),
            final(self).spec_position() == old(self).spec_position() + bytes@.len(),
    {
        proof {
            use_type_invariant(&*self);
        }
        let left = self.data.len() - self.position;
        let take = if count <= left {
            count
        } else {
            left
        };
        let part = vstd::slice::slice_subrange(
            self.data.as_slice(),
            self.position,
            self.position + take,
        );
        let bytes = vstd::slice::slice_to_vec(part);
        assert(bytes@ =~= self.remaining().subrange(0, take as int));
        self.position = self.position + take;
        bytes
    }

    /// Reads a delimited block. `None` means that the stream doesn't hold a
    /// whole block from here on, and then nothing is read.
    pub fn read_delimited(&mut self) -> (r: Option<Vec<u8>>)
        ensures
            final(self)@ == old(self)@,
            r is Some <==> leading_block(old(self).remaining()) is Some,
            r is Some ==> {
                &&& leading_block(old(self).remaining()) == Some(r->Some_0@)
                &&& final(self).spec_position() == old(self).spec_position() + 4
                    + r->Some_0@.len()
            },
            r is None ==> final(self).spec_position() == old(self).spec_position(),
    {
        proof {
            use_type_invariant(&*self);
        }
        let start = self.position;
        let left = self.data.len() - start;
        if left < 4 {
            return None;
        }
        let b0 = self.data[start] as u32;
        let b1 = self.data[start + 1] as u32;
        let b2 = self.data[start + 2] as u32;
        let b3 = self.data[start + 3] as u32;
        let length: u32 = b0 + b1 * 0x100 + b2 * 0x1_0000 + b3 * 0x100_0000;
        assert(length == le_u32(self.remaining().subrange(0, 4)));
        if (left - 4) as u64 >= length as u64 {
            let from = start + 4;
            let part = vstd::slice::slice_subrange(
                self.data.as_slice(),
                from,
                from + length as usize,
            );
            let block = vstd::slice::slice_to_vec(part);
            assert(block@ =~= self.remaining().subrange(4, 4 + length));
            self.position = from + length as usize;
            Some(block)
        } else {
            None
        }
    }
}

/// A stream that writes into a buffer of a fixed size held in memory.
#[derive(Debug)]
pub struct DLMemoryOutputStream {
    data: Vec<u8>,
    limit: usize,
}

impl View for DLMemoryOutputStream {
    type V = Seq<u8>;

    /// The bytes written so far.
    closed spec fn view(&self) -> Seq<u8> {
        self.data@
    }
}

impl DLMemoryOutputStream {
    #[verifier::type_invariant]
    spec fn well_formed(self) -> bool {
        self.data@.len() <= self.limit
    }

    /// The number of bytes that the buffer takes at most.
    pub closed spec fn spec_limit(&self) -> usize {
        self.limit
    }

    /// The number of bytes that can still be written.
    pub open spec fn room(&self) -> int {
        self.spec_limit() - self@.len()
    }

    /// Creates an empty stream over a buffer of `limit` bytes.
    pub fn new(limit: usize) -> (stream: DLMemoryOutputStream)
        ensures
            stream@.len() == 0,
            stream.spec_limit() == limit,
    {
        DLMemoryOutputStream { data: Vec::new(), limit }
    }

    /// Returns the bytes written so far.
    pub fn as_slice(&self) -> (bytes: &[u8])
        ensures
            bytes@ == self@,
    {
        self.data.as_slice()
    }

    /// Returns the number of bytes that can still be written.
    pub fn remaining(&self) -> (n: usize)
        ensures
            n == self.room(),
    {
        proof {
            use_type_invariant(self);
        }
        self.limit - self.data.len()
    }

    /// Writes as many of `bytes` as there is room for, from the first on,
    /// and returns how many were written.
    pub fn write(&mut self, bytes: &[u8]) -> (written: usize)
        ensures
            final(self).spec_limit() == old(self).spec_limit(),
            written == if bytes@.len() <= old(self).room() {
                bytes@.len() as int
            } else {
                old(self).room()
            },
            final(self)@ == old(self)@ + bytes@.subrange(0, written as int),
    {
        proof {
            use_type_invariant(&*self);
        }
        let room = self.limit - self.data.len();
        let take = if bytes.len() <= room {
            bytes.len()
        } else {
            room
        };
        let mut data: Vec<u8> = Vec::new();
        core::mem::swap(&mut self.data, &mut data);
        let ghost before = data@;
        let mut i: usize = 0;
        while i < take
            invariant
                i <= take <= bytes@.len(),
                before.len() + take <= self.limit,
                data@ == before + bytes@.subrange(0, i as int),
            decreases take - i,
        {
            data.push(bytes[i]);
            assert(data@ =~= before + bytes@.subrange(0, i + 1));
            i += 1;
        }
        self.data = data;
        take
    }

    /// Writes `block` delimited: its length, then its bytes. Returns the
    /// number of bytes written, which is four more than the length of the
    /// block unless the room ran out.
    pub fn write_delimited(&mut self, block: &[u8]) -> (written: usize)
        requires
            block@.len() <= u32::MAX,
        ensures
            final(self).spec_limit() == old(self).spec_limit(),
            written == if 4 + block@.len() <= old(self).room() {
                4 + block@.len() as int
            } else {
                old(self).room()
            },
            final(self)@ == old(self)@ + delimited(block@).subrange(0, written as int),
    {
        proof {
            use_type_invariant(&*self);
        }
        let ghost before = self@;
        let prefix = word_bytes(block.len() as u32);
        let first = self.write(prefix.as_slice());
        if first < 4 {
            assert(delimited(block@).subrange(0, first as int) =~= prefix@.subrange(
                0,
                first as int,
            ));
            return first;
        }
        let second = self.write(block);
        assert(self@ =~= before + delimited(block@).subrange(0, 4 + second));
        4 + second
    }
}

} // verus!
