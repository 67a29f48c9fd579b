//! Reserialization of a parsed container's structure, and the
//! round-trip theorem: writing the declared sizes and types of a
//! successfully parsed composite back to bytes and reparsing them
//! yields the same composite. The round trip is on structure; vendor
//! payload bytes are not retained, so payloads reserialize as zeros.

use crate::header::{spec_header_at, BoxHeader, EXTENDED_SIZE};
use crate::mdia::{spec_read_mdia, walk, WalkResult};
use crate::stream::{be32_at, be64_at};
use vstd::prelude::*;

verus! {

/// `n` zero bytes.
pub open spec fn zeros(n: int) -> Seq<u8> {
    Seq::new(n as nat, |i: int| 0u8)
}

/// The big-endian wire bytes of a 32-bit value.
pub open spec fn be32_bytes(v: u32) -> Seq<u8> {
    seq![
        ((v >> 24) & 0xff) as u8,
        ((v >> 16) & 0xff) as u8,
        ((v >> 8) & 0xff) as u8,
        (v & 0xff) as u8,
    ]
}

/// The big-endian wire bytes of a 64-bit value.
pub open spec fn be64_bytes(v: u64) -> Seq<u8> {
    seq![
        ((v >> 56) & 0xff) as u8,
        ((v >> 48) & 0xff) as u8,
        ((v >> 40) & 0xff) as u8,
        ((v >> 32) & 0xff) as u8,
        ((v >> 24) & 0xff) as u8,
        ((v >> 16) & 0xff) as u8,
        ((v >> 8) & 0xff) as u8,
        (v & 0xff) as u8,
    ]
}

/// The wire form of a header: the basic 8-byte prolog when the size
/// fits 32 bits, the 16-byte extended form otherwise.
pub open spec fn header_bytes(h: BoxHeader) -> Seq<u8> {
    if h.size < 0x1_0000_0000 {
        be32_bytes(h.size as u32) + be32_bytes(h.typ.value)
    } else {
        be32_bytes(EXTENDED_SIZE) + be32_bytes(h.typ.value) + be64_bytes(h.size)
    }
}

/// One box's whole span: its header bytes, zero-padded to its declared
/// size.
pub open spec fn box_bytes(h: BoxHeader) -> Seq<u8> {
    header_bytes(h) + zeros(h.size - header_bytes(h).len())
}

/// The children tile the span from `p` to `end` without gap or
/// overlap, and each is large enough to carry its own rewritten
/// header.
pub open spec fn chain(cs: Seq<BoxHeader>, p: int, end: int) -> bool
    decreases cs.len(),
{
    if cs.len() == 0 {
        p == end
    } else {
        cs[0].start_offset == p && 8 <= cs[0].size && p + cs[0].size <= end && chain(
            cs.subrange(1, cs.len() as int),
            p + cs[0].size,
            end,
        )
    }
}

/// The chained children, written back to wire bytes in file order.
pub open spec fn encode_chain(cs: Seq<BoxHeader>) -> Seq<u8>
    decreases cs.len(),
{
    if cs.len() == 0 {
        Seq::empty()
    } else {
        box_bytes(cs[0]) + encode_chain(cs.subrange(1, cs.len() as int))
    }
}

/// A container's span reserialized from its parsed structure: the
/// bytes before the payload are of no interest and rewrite as zeros,
/// then the children follow in file order.
pub open spec fn reserialize(p0: int, cs: Seq<BoxHeader>) -> Seq<u8> {
    zeros(p0) + encode_chain(cs)
}

/// Reading back four written bytes gives the written value.
proof fn lemma_be32_at_bytes(d: Seq<u8>, p: int, v: u32)
    requires
        0 <= p,
        p + 4 <= d.len(),
        d[p] == be32_bytes(v)[0],
        d[p + 1] == be32_bytes(v)[1],
        d[p + 2] == be32_bytes(v)[2],
        d[p + 3] == be32_bytes(v)[3],
    ensures
        be32_at(d, p) == v,
{
    assert((((((v >> 24) & 0xff) as u8) as u32) << 24) | (((((v >> 16) & 0xff) as u8) as u32)
        << 16) | (((((v >> 8) & 0xff) as u8) as u32) << 8) | ((((v) & 0xff) as u8) as u32) == v)
        by (bit_vector);
}

/// Reading back eight written bytes gives the written value.
proof fn lemma_be64_at_bytes(d: Seq<u8>, p: int, v: u64)
    requires
        0 <= p,
        p + 8 <= d.len(),
        forall|k: int| 0 <= k < 8 ==> d[p + k] == be64_bytes(v)[k],
    ensures
        be64_at(d, p) == v,
{
    assert(d[p] == be64_bytes(v)[0]);
    assert(d[p + 1] == be64_bytes(v)[1]);
    assert(d[p + 2] == be64_bytes(v)[2]);
    assert(d[p + 3] == be64_bytes(v)[3]);
    assert(d[p + 4] == be64_bytes(v)[4]);
    assert(d[p + 5] == be64_bytes(v)[5]);
    assert(d[p + 6] == be64_bytes(v)[6]);
    assert(d[p + 7] == be64_bytes(v)[7]);
    assert((((((v >> 56) & 0xff) as u8) as u64) << 56) | (((((v >> 48) & 0xff) as u8) as u64)
        << 48) | (((((v >> 40) & 0xff) as u8) as u64) << 40) | (((((v >> 32) & 0xff) as u8) as u64)
        << 32) | (((((v >> 24) & 0xff) as u8) as u64) << 24) | (((((v >> 16) & 0xff) as u8) as u64)
        << 16) | (((((v >> 8) & 0xff) as u8) as u64) << 8) | ((((v) & 0xff) as u8) as u64) == v)
        by (bit_vector);
}

/// A span that holds a header's wire bytes parses back to exactly that
/// header.
proof fn lemma_header_bytes_parse(d: Seq<u8>, p: int, h: BoxHeader)
    requires
        0 <= p,
        h.start_offset == p,
        8 <= h.size,
        p + header_bytes(h).len() <= d.len(),
        forall|k: int| 0 <= k < header_bytes(h).len() ==> d[p + k] == header_bytes(h)[k],
    ensures
        spec_header_at(d, p) == Some(h),
{
    if h.size < 0x1_0000_0000 {
        let s32 = h.size as u32;
        assert(forall|k: int| 0 <= k < 4 ==> header_bytes(h)[k] == be32_bytes(s32)[k]);
        assert(forall|k: int| 0 <= k < 4 ==> header_bytes(h)[4 + k] == be32_bytes(h.typ.value)[k]);
        lemma_be32_at_bytes(d, p, s32);
        lemma_be32_at_bytes(d, p + 4, h.typ.value);
        assert(s32 != EXTENDED_SIZE);
        assert(s32 as u64 == h.size);
        assert(p as u64 == h.start_offset);
    } else {
        assert(forall|k: int| 0 <= k < 4 ==> header_bytes(h)[k] == be32_bytes(EXTENDED_SIZE)[k]);
        assert(forall|k: int| 0 <= k < 4 ==> header_bytes(h)[4 + k] == be32_bytes(h.typ.value)[k]);
        assert(forall|k: int| 0 <= k < 8 ==> header_bytes(h)[8 + k] == be64_bytes(h.size)[k]);
        lemma_be32_at_bytes(d, p, EXTENDED_SIZE);
        lemma_be32_at_bytes(d, p + 4, h.typ.value);
        lemma_be64_at_bytes(d, p + 8, h.size);
        assert(p as u64 == h.start_offset);
    }
}

/// A chain's wire form is exactly as long as the span it tiles.
pub proof fn lemma_encode_chain_len(cs: Seq<BoxHeader>, p: int, end: int)
    requires
        chain(cs, p, end),
    ensures
        encode_chain(cs).len() == end - p,
    decreases cs.len(),
{
    if cs.len() > 0 {
        let h = cs[0];
        assert(header_bytes(h).len() <= h.size);
        assert(box_bytes(h).len() == h.size);
        lemma_encode_chain_len(cs.subrange(1, cs.len() as int), p + h.size, end);
    }
}

/// Walking a buffer whose span holds a chain's wire bytes returns the
/// chained children themselves.
pub proof fn lemma_chain_reparse(cs: Seq<BoxHeader>, buf: Seq<u8>, p: int, end: int)
    requires
        chain(cs, p, end),
        0 <= p,
        p <= end,
        end <= buf.len(),
        buf.subrange(p, end) == encode_chain(cs),
    ensures
        walk(buf, p, end) == WalkResult::Children(cs),
    decreases cs.len(),
{
    if cs.len() == 0 {
        assert(cs =~= Seq::<BoxHeader>::empty());
    } else {
        let h = cs[0];
        let rest = cs.subrange(1, cs.len() as int);
        let hb = header_bytes(h);
        let hlen = hb.len() as int;
        lemma_encode_chain_len(rest, p + h.size, end);
        assert(box_bytes(h).len() == h.size);
        assert forall|k: int| 0 <= k < hlen implies buf[p + k] == hb[k] by {
            assert(buf[p + k] == buf.subrange(p, end)[k]);
            assert(encode_chain(cs)[k] == (box_bytes(h) + encode_chain(rest))[k]);
            assert(box_bytes(h)[k] == (header_bytes(h) + zeros(h.size - hlen))[k]);
        }
        lemma_header_bytes_parse(buf, p, h);
        assert(buf.subrange(p + h.size, end) =~= encode_chain(rest)) by {
            assert forall|k: int| 0 <= k < end - (p + h.size) implies buf.subrange(
                p + h.size,
                end,
            )[k] == encode_chain(rest)[k] by {
                assert(buf.subrange(p + h.size, end)[k] == buf[p + h.size + k]);
                assert(buf[p + h.size + k] == buf.subrange(p, end)[h.size + k]);
                assert(encode_chain(cs)[h.size + k] == encode_chain(rest)[k]);
            }
        }
        lemma_chain_reparse(rest, buf, p + h.size, end);
        assert(walk(buf, p, end) == WalkResult::Children(seq![h] + rest));
        assert((seq![h] + rest) =~= cs);
    }
}

/// A successful walk over children that can carry their own headers is
/// a chain: the children tile the span contiguously.
pub proof fn lemma_walk_chain(d: Seq<u8>, p: int, end: int, cs: Seq<BoxHeader>)
    requires
        walk(d, p, end) == WalkResult::Children(cs),
        0 <= p,
        p <= end,
        d.len() <= u64::MAX,
        forall|i: int| 0 <= i < cs.len() ==> cs[i].size >= 8,
    ensures
        chain(cs, p, end),
    decreases end - p,
{
    if p >= end {
        assert(cs =~= Seq::<BoxHeader>::empty());
    } else {
        let h = choose|h: BoxHeader| spec_header_at(d, p) == Some(h);
        match walk(d, p + h.size, end) {
            WalkResult::Children(cs2) => {
                assert(cs == seq![h] + cs2);
                assert(cs[0] == h);
                assert(forall|i: int| 0 <= i < cs2.len() ==> cs2[i] == cs[i + 1]);
                lemma_walk_chain(d, p + h.size, end, cs2);
                assert(cs.subrange(1, cs.len() as int) =~= cs2);
            },
            WalkResult::Truncated => {
                assert(false);
            },
            WalkResult::Corrupt => {
                assert(false);
            },
            WalkResult::Io => {
                assert(false);
            },
        }
    }
}

/// Round trip on structure: reserializing the declared sizes and types
/// of a successfully parsed composite and reparsing the result yields a
/// composite equal to the original. The children must be large enough
/// to carry their own headers back; a child whose declared size is
/// smaller than its 8-byte prolog parses but cannot be rewritten
/// without touching its neighbour.
pub proof fn lemma_round_trip(d: Seq<u8>, p0: int, header: BoxHeader, cs: Seq<BoxHeader>)
    requires
        0 <= p0,
        d.len() <= u64::MAX,
        walk(d, p0, header.spec_end()) == WalkResult::Children(cs),
        forall|i: int| 0 <= i < cs.len() ==> cs[i].size >= 8,
        spec_read_mdia(d, p0, header) is Ok,
    ensures
        walk(reserialize(p0, cs), p0, header.spec_end()) == WalkResult::Children(cs),
        spec_read_mdia(reserialize(p0, cs), p0, header) == spec_read_mdia(d, p0, header),
{
    let end = header.spec_end();
    if p0 >= end {
        assert(walk(d, p0, end) == WalkResult::Children(Seq::<BoxHeader>::empty()));
        assert(cs =~= Seq::<BoxHeader>::empty());
        assert(false);
    }
    lemma_walk_chain(d, p0, end, cs);
    let buf = reserialize(p0, cs);
    lemma_encode_chain_len(cs, p0, end);
    assert(zeros(p0).len() == p0);
    assert(buf.len() == end);
    assert(buf.subrange(p0, end) =~= encode_chain(cs)) by {
        assert forall|k: int| 0 <= k < end - p0 implies buf.subrange(p0, end)[k] == encode_chain(
            cs,
        )[k] by {
            assert(buf.subrange(p0, end)[k] == buf[p0 + k]);
            assert(buf[p0 + k] == encode_chain(cs)[k]);
        }
    }
    lemma_chain_reparse(cs, buf, p0, end);
    assert(end <= d.len());
}

} // verus!
