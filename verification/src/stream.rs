//! A seekable in-memory byte source.
//!
//! The engine parses one exclusively-owned stream per call; a file is
//! read into memory by the surrounding application before it is handed
//! here.

use crate::error::BmffError;
use vstd::prelude::*;

verus! {

/// The big-endian 32-bit value stored at `p` in `d`.
pub open spec fn be32_at(d: Seq<u8>, p: int) -> u32
    recommends
        0 <= p,
        p + 4 <= d.len(),
{
    ((d[p] as u32) << 24) | ((d[p + 1] as u32) << 16) | ((d[p + 2] as u32) << 8) | (d[p + 3] as u32)
}

/// The big-endian 64-bit value stored at `p` in `d`.
pub open spec fn be64_at(d: Seq<u8>, p: int) -> u64
    recommends
        0 <= p,
        p + 8 <= d.len(),
{
    ((d[p] as u64) << 56) | ((d[p + 1] as u64) << 48) | ((d[p + 2] as u64) << 40)
        | ((d[p + 3] as u64) << 32) | ((d[p + 4] as u64) << 24) | ((d[p + 5] as u64) << 16)
        | ((d[p + 6] as u64) << 8) | (d[p + 7] as u64)
}

/// A byte buffer with a current position. Reads consume bytes in order;
/// seeks move the position to an absolute offset. The position never
/// passes the end of the buffer: a seek that would is refused as an I/O
/// error, distinct from structural corruption.
pub struct ByteStream {
    data: Vec<u8>,
    pos: usize,
}

impl ByteStream {
    /// The bytes of the underlying source.
    pub closed spec fn bytes(self) -> Seq<u8> {
        self.data@
    }

    /// The current position.
    pub closed spec fn spec_pos(self) -> int {
        self.pos as int
    }

    /// The position stays within the source.
    pub closed spec fn inv(self) -> bool {
        self.pos <= self.data.len()
    }

    /// Wraps a buffer, positioned at its first byte.
    pub fn new(data: Vec<u8>) -> (s: ByteStream)
        ensures
            s.inv(),
            s.bytes() == data@,
            s.spec_pos() == 0,
    {
        ByteStream { data, pos: 0 }
    }

    /// The current position, as the stream reports it.
    pub fn position(&self) -> (r: u64)
        requires
            self.inv(),
        ensures
            r as int == self.spec_pos(),
    {
        self.pos as u64
    }

    /// The total length of the source.
    pub fn len(&self) -> (r: u64)
        ensures
            r as int == self.bytes().len(),
    {
        self.data.len() as u64
    }

    /// Reads a big-endian 32-bit value; fails without moving when fewer
    /// than 4 bytes remain.
    pub fn read_u32_be(&mut self) -> (r: Result<u32, BmffError>)
        requires
            old(self).inv(),
        ensures
            final(self).inv(),
            final(self).bytes() == old(self).bytes(),
            old(self).spec_pos() + 4 <= old(self).bytes().len() ==> (r matches Ok(v)
                && v == be32_at(old(self).bytes(), old(self).spec_pos())
                && final(self).spec_pos() == old(self).spec_pos() + 4),
            old(self).spec_pos() + 4 > old(self).bytes().len() ==> r == Err::<u32, BmffError>(
                BmffError::Truncated,
            ) && final(self).spec_pos() == old(self).spec_pos(),
    {
        if self.data.len() - self.pos >= 4 {
            let b0 = self.data[self.pos];
            let b1 = self.data[self.pos + 1];
            let b2 = self.data[self.pos + 2];
            let b3 = self.data[self.pos + 3];
            self.pos = self.pos + 4;
            Ok(((b0 as u32) << 24) | ((b1 as u32) << 16) | ((b2 as u32) << 8) | (b3 as u32))
        } else {
            Err(BmffError::Truncated)
        }
    }

    /// Reads a big-endian 64-bit value; fails without moving when fewer
    /// than 8 bytes remain.
    pub fn read_u64_be(&mut self) -> (r: Result<u64, BmffError>)
        requires
            old(self).inv(),
        ensures
            final(self).inv(),
            final(self).bytes() == old(self).bytes(),
            old(self).spec_pos() + 8 <= old(self).bytes().len() ==> (r matches Ok(v)
                && v == be64_at(old(self).bytes(), old(self).spec_pos())
                && final(self).spec_pos() == old(self).spec_pos() + 8),
            old(self).spec_pos() + 8 > old(self).bytes().len() ==> r == Err::<u64, BmffError>(
                BmffError::Truncated,
            ) && final(self).spec_pos() == old(self).spec_pos(),
    {
        if self.data.len() - self.pos >= 8 {
            let b0 = self.data[self.pos];
            let b1 = self.data[self.pos + 1];
            let b2 = self.data[self.pos + 2];
            let b3 = self.data[self.pos + 3];
            let b4 = self.data[self.pos + 4];
            let b5 = self.data[self.pos + 5];
            let b6 = self.data[self.pos + 6];
            let b7 = self.data[self.pos + 7];
            self.pos = self.pos + 8;
            Ok(
                ((b0 as u64) << 56) | ((b1 as u64) << 48) | ((b2 as u64) << 40)
                    | ((b3 as u64) << 32) | ((b4 as u64) << 24) | ((b5 as u64) << 16)
                    | ((b6 as u64) << 8) | (b7 as u64),
            )
        } else {
            Err(BmffError::Truncated)
        }
    }

    /// Moves the position to the absolute offset `target`; a target past
    /// the end of the source is an I/O error and leaves the position
    /// unchanged.
    pub fn seek_to(&mut self, target: u64) -> (r: Result<(), BmffError>)
        requires
            old(self).inv(),
        ensures
            final(self).inv(),
            final(self).bytes() == old(self).bytes(),
            target as int <= old(self).bytes().len() ==> r == Ok::<(), BmffError>(())
                && final(self).spec_pos() == target as int,
            target as int > old(self).bytes().len() ==> r == Err::<(), BmffError>(BmffError::Io)
                && final(self).spec_pos() == old(self).spec_pos(),
    {
        if target <= self.data.len() as u64 {
            self.pos = target as usize;
            Ok(())
        } else {
            Err(BmffError::Io)
        }
    }
}

} // verus!
