//! Four-byte box type tags.

use vstd::prelude::*;

verus! {

/// A 4-byte box type tag with value equality, packed big-endian into a
/// `u32` exactly as it appears on the wire. It is used only as a dispatch
/// key; the bytes are not required to be printable text.
#[derive(Debug, Clone, Copy, PartialEq, Eq, Structural)]
pub struct FourCC {
    pub value: u32,
}

/// The `u32` a big-endian 4-byte group packs into.
pub open spec fn spec_pack(a: u8, b: u8, c: u8, d: u8) -> u32 {
    ((a as u32) << 24) | ((b as u32) << 16) | ((c as u32) << 8) | (d as u32)
}

impl FourCC {
    /// Builds the tag from its four wire bytes, in stream order.
    pub fn with(a: u8, b: u8, c: u8, d: u8) -> (r: FourCC)
        ensures
            r.value == spec_pack(a, b, c, d),
    {
        FourCC { value: ((a as u32) << 24) | ((b as u32) << 16) | ((c as u32) << 8) | (d as u32) }
    }
}

impl Default for FourCC {
    /// The zero tag, matching no real box type.
    fn default() -> (r: FourCC)
        ensures
            r.value == 0,
    {
        FourCC { value: 0 }
    }
}

} // verus!
