//! The box reader protocol and the structural box types that take part
//! in it.
//!
//! Decoding the payloads of the leaf boxes (media header, handler,
//! media information) is owned by other subsystems; here each leaf
//! participates in the tree contract only: given a positioned stream
//! and its already-parsed header, it consumes exactly the header's
//! declared span.

use crate::error::BmffError;
use crate::fourcc::FourCC;
use crate::header::BoxHeader;
use crate::stream::ByteStream;
use vstd::prelude::*;

verus! {

/// The `u32` packing of the FourCC `mdhd`.
pub const MDHD_TYP: u32 = 0x6D64_6864;

/// The `u32` packing of the FourCC `hdlr`.
pub const HDLR_TYP: u32 = 0x6864_6C72;

/// The `u32` packing of the FourCC `minf`.
pub const MINF_TYP: u32 = 0x6D69_6E66;

/// The contract every structural box type implements: given a stream
/// positioned right after the box's prolog and the already-parsed
/// header, consume exactly the header's declared span and produce a
/// typed value, or a structured error. On success the stream always
/// stands at the header's declared end offset, however the body chose
/// to read, so sibling parsing is never desynchronized.
pub trait ReadBox: Sized {
    /// When reading this box type from `d` at `pos` under `header`
    /// succeeds.
    spec fn parse_ok(d: Seq<u8>, pos: int, header: BoxHeader) -> bool;

    /// The error reported when it does not.
    spec fn parse_err(d: Seq<u8>, pos: int, header: BoxHeader) -> BmffError;

    /// What the returned value holds, in terms of the bytes it was read
    /// from.
    spec fn wf_parsed(self, d: Seq<u8>, pos: int, header: BoxHeader) -> bool;

    /// Reads one box. The position after a success is exactly
    /// `header.spec_end()`, unconditionally.
    fn read_box(stream: &mut ByteStream, header: BoxHeader) -> (r: Result<Self, BmffError>)
        requires
            old(stream).inv(),
            header.wf(),
        ensures
            final(stream).inv(),
            final(stream).bytes() == old(stream).bytes(),
            r is Ok <==> Self::parse_ok(old(stream).bytes(), old(stream).spec_pos(), header),
            r matches Ok(b) ==> b.wf_parsed(old(stream).bytes(), old(stream).spec_pos(), header)
                && final(stream).spec_pos() == header.spec_end(),
            r matches Err(e) ==> e == Self::parse_err(
                old(stream).bytes(),
                old(stream).spec_pos(),
                header,
            ),
    ;
}

/// The media-header leaf box. Its payload semantics belong to a
/// collaborating decoder; structurally it records its span and skips to
/// its declared end.
#[derive(Debug, Clone, Copy, PartialEq, Eq, Structural)]
pub struct MdhdBox {
    pub header: BoxHeader,
}

impl MdhdBox {
    /// The FourCC `mdhd` this box is dispatched on.
    pub open spec fn spec_typ() -> FourCC {
        FourCC { value: MDHD_TYP }
    }

    /// The FourCC `mdhd` this box is dispatched on.
    pub fn typ() -> (r: FourCC)
        ensures
            r == Self::spec_typ(),
    {
        FourCC { value: MDHD_TYP }
    }
}

impl ReadBox for MdhdBox {
    open spec fn parse_ok(d: Seq<u8>, pos: int, header: BoxHeader) -> bool {
        header.spec_end() <= d.len()
    }

    open spec fn parse_err(d: Seq<u8>, pos: int, header: BoxHeader) -> BmffError {
        BmffError::Io
    }

    open spec fn wf_parsed(self, d: Seq<u8>, pos: int, header: BoxHeader) -> bool {
        self.header == header
    }

    fn read_box(stream: &mut ByteStream, header: BoxHeader) -> (r: Result<Self, BmffError>) {
        let end = header.end_offset();
        match stream.seek_to(end) {
            Ok(_) => Ok(MdhdBox { header }),
            Err(e) => Err(e),
        }
    }
}

/// The handler leaf box; a structural participant like [`MdhdBox`].
#[derive(Debug, Clone, Copy, PartialEq, Eq, Structural)]
pub struct HdlrBox {
    pub header: BoxHeader,
}

impl HdlrBox {
    /// The FourCC `hdlr` this box is dispatched on.
    pub open spec fn spec_typ() -> FourCC {
        FourCC { value: HDLR_TYP }
    }

    /// The FourCC `hdlr` this box is dispatched on.
    pub fn typ() -> (r: FourCC)
        ensures
            r == Self::spec_typ(),
    {
        FourCC { value: HDLR_TYP }
    }
}

impl ReadBox for HdlrBox {
    open spec fn parse_ok(d: Seq<u8>, pos: int, header: BoxHeader) -> bool {
        header.spec_end() <= d.len()
    }

    open spec fn parse_err(d: Seq<u8>, pos: int, header: BoxHeader) -> BmffError {
        BmffError::Io
    }

    open spec fn wf_parsed(self, d: Seq<u8>, pos: int, header: BoxHeader) -> bool {
        self.header == header
    }

    fn read_box(stream: &mut ByteStream, header: BoxHeader) -> (r: Result<Self, BmffError>) {
        let end = header.end_offset();
        match stream.seek_to(end) {
            Ok(_) => Ok(HdlrBox { header }),
            Err(e) => Err(e),
        }
    }
}

/// The media-information leaf box; a structural participant like
/// [`MdhdBox`].
#[derive(Debug, Clone, Copy, PartialEq, Eq, Structural)]
pub struct MinfBox {
    pub header: BoxHeader,
}

impl MinfBox {
    /// The FourCC `minf` this box is dispatched on.
    pub open spec fn spec_typ() -> FourCC {
        FourCC { value: MINF_TYP }
    }

    /// The FourCC `minf` this box is dispatched on.
    pub fn typ() -> (r: FourCC)
        ensures
            r == Self::spec_typ(),
    {
        FourCC { value: MINF_TYP }
    }
}

impl ReadBox for MinfBox {
    open spec fn parse_ok(d: Seq<u8>, pos: int, header: BoxHeader) -> bool {
        header.spec_end() <= d.len()
    }

    open spec fn parse_err(d: Seq<u8>, pos: int, header: BoxHeader) -> BmffError {
        BmffError::Io
    }

    open spec fn wf_parsed(self, d: Seq<u8>, pos: int, header: BoxHeader) -> bool {
        self.header == header
    }

    fn read_box(stream: &mut ByteStream, header: BoxHeader) -> (r: Result<Self, BmffError>) {
        let end = header.end_offset();
        match stream.seek_to(end) {
            Ok(_) => Ok(MinfBox { header }),
            Err(e) => Err(e),
        }
    }
}

/// A box whose type the enclosing composite's schema does not know.
/// Unknown types are the expected steady state for forward
/// compatibility: the reader records the span and skips to its declared
/// end, and it never fails merely because the type is unknown.
#[derive(Debug, Clone, Copy, PartialEq, Eq, Structural)]
pub struct VendorBox {
    pub header: BoxHeader,
}

impl ReadBox for VendorBox {
    open spec fn parse_ok(d: Seq<u8>, pos: int, header: BoxHeader) -> bool {
        header.spec_end() <= d.len()
    }

    open spec fn parse_err(d: Seq<u8>, pos: int, header: BoxHeader) -> BmffError {
        BmffError::Io
    }

    open spec fn wf_parsed(self, d: Seq<u8>, pos: int, header: BoxHeader) -> bool {
        self.header == header
    }

    fn read_box(stream: &mut ByteStream, header: BoxHeader) -> (r: Result<Self, BmffError>) {
        let end = header.end_offset();
        match stream.seek_to(end) {
            Ok(_) => Ok(VendorBox { header }),
            Err(e) => Err(e),
        }
    }
}

impl Default for MdhdBox {
    /// The empty participant, with the all-zero header.
    fn default() -> (r: MdhdBox)
        ensures
            r.header == (BoxHeader { typ: FourCC { value: 0 }, size: 0, start_offset: 0 }),
    {
        MdhdBox { header: BoxHeader { typ: FourCC { value: 0 }, size: 0, start_offset: 0 } }
    }
}

impl Default for HdlrBox {
    /// The empty participant, with the all-zero header.
    fn default() -> (r: HdlrBox)
        ensures
            r.header == (BoxHeader { typ: FourCC { value: 0 }, size: 0, start_offset: 0 }),
    {
        HdlrBox { header: BoxHeader { typ: FourCC { value: 0 }, size: 0, start_offset: 0 } }
    }
}

impl Default for MinfBox {
    /// The empty participant, with the all-zero header.
    fn default() -> (r: MinfBox)
        ensures
            r.header == (BoxHeader { typ: FourCC { value: 0 }, size: 0, start_offset: 0 }),
    {
        MinfBox { header: BoxHeader { typ: FourCC { value: 0 }, size: 0, start_offset: 0 } }
    }
}

impl Default for VendorBox {
    /// The empty participant, with the all-zero header.
    fn default() -> (r: VendorBox)
        ensures
            r.header == (BoxHeader { typ: FourCC { value: 0 }, size: 0, start_offset: 0 }),
    {
        VendorBox { header: BoxHeader { typ: FourCC { value: 0 }, size: 0, start_offset: 0 } }
    }
}

} // verus!
