//! The universal box prolog: declared size, type tag, optional
//! extended 64-bit size.

use crate::error::BmffError;
use crate::fourcc::FourCC;
use crate::stream::{be32_at, be64_at, ByteStream};
use vstd::prelude::*;

verus! {

/// The reserved 32-bit size value that means "an 8-byte extended size
/// field follows the type tag".
pub const EXTENDED_SIZE: u32 = 1;

/// A parsed box prolog: the box's type, its total declared length in
/// bytes (its own header included), and the stream offset of its first
/// header byte. The byte after the box is the derived
/// [`end offset`](BoxHeader::spec_end).
#[derive(Debug, Clone, Copy, PartialEq, Eq, Structural)]
pub struct BoxHeader {
    pub typ: FourCC,
    pub size: u64,
    pub start_offset: u64,
}

/// The header, if any, whose first byte stands at `p` in `d`: 4 bytes of
/// big-endian size, 4 bytes of type, and, when the size field holds the
/// reserved [`EXTENDED_SIZE`] value, 8 further bytes of big-endian
/// 64-bit size. `None` when the bytes run out first.
pub open spec fn spec_header_at(d: Seq<u8>, p: int) -> Option<BoxHeader> {
    if p + 8 <= d.len() {
        let size32 = be32_at(d, p);
        let typ = FourCC { value: be32_at(d, p + 4) };
        if size32 == EXTENDED_SIZE {
            if p + 16 <= d.len() {
                Some(BoxHeader { typ, size: be64_at(d, p + 8), start_offset: p as u64 })
            } else {
                None
            }
        } else {
            Some(BoxHeader { typ, size: size32 as u64, start_offset: p as u64 })
        }
    } else {
        None
    }
}

/// How many bytes the prolog at `p` occupies: 16 in the extended-size
/// form, 8 otherwise.
pub open spec fn spec_header_len(d: Seq<u8>, p: int) -> int {
    if be32_at(d, p) == EXTENDED_SIZE {
        16
    } else {
        8
    }
}

impl BoxHeader {
    /// The offset of the first byte after the box.
    pub open spec fn spec_end(self) -> int {
        self.start_offset + self.size
    }

    /// The end offset is representable, so sibling bookkeeping cannot
    /// wrap around.
    pub open spec fn wf(self) -> bool {
        self.start_offset + self.size <= u64::MAX
    }

    /// The offset of the first byte after the box.
    pub fn end_offset(&self) -> (r: u64)
        requires
            self.wf(),
        ensures
            r as int == self.spec_end(),
    {
        self.start_offset + self.size
    }

    /// Consumes exactly the prolog at the current position and returns
    /// the header it declares, with `start_offset` equal to the position
    /// before the read. Fails with a truncation error when the stream is
    /// exhausted before the prolog (and the extended-size field, if
    /// present) is fully read; it never reads past the prolog into
    /// payload bytes.
    pub fn parse(stream: &mut ByteStream) -> (r: Result<BoxHeader, BmffError>)
        requires
            old(stream).inv(),
        ensures
            final(stream).inv(),
            final(stream).bytes() == old(stream).bytes(),
            r is Ok <==> spec_header_at(old(stream).bytes(), old(stream).spec_pos()) is Some,
            r matches Ok(h) ==> Some(h) == spec_header_at(
                old(stream).bytes(),
                old(stream).spec_pos(),
            ) && final(stream).spec_pos() == old(stream).spec_pos() + spec_header_len(
                old(stream).bytes(),
                old(stream).spec_pos(),
            ),
            r matches Err(e) ==> e == BmffError::Truncated,
    {
        let start = stream.position();
        let size32 = match stream.read_u32_be() {
            Ok(v) => v,
            Err(e) => {
                return Err(e);
            },
        };
        let typ_value = match stream.read_u32_be() {
            Ok(v) => v,
            Err(e) => {
                return Err(e);
            },
        };
        let size: u64 = if size32 == EXTENDED_SIZE {
            match stream.read_u64_be() {
                Ok(v) => v,
                Err(e) => {
                    return Err(e);
                },
            }
        } else {
            size32 as u64
        };
        Ok(BoxHeader { typ: FourCC { value: typ_value }, size, start_offset: start })
    }
}

impl Default for BoxHeader {
    /// An empty prolog: zero type, zero size, zero offset.
    fn default() -> (r: BoxHeader)
        ensures
            r == (BoxHeader { typ: FourCC { value: 0 }, size: 0, start_offset: 0 }),
    {
        BoxHeader { typ: FourCC { value: 0 }, size: 0, start_offset: 0 }
    }
}

} // verus!
