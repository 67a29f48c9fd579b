//! The composite box engine, shown on the media container box: the
//! recursive tree walk that parses one child header at a time,
//! dispatches by FourCC to a typed reader or to the vendor/opaque
//! fallback, enforces the container's structural invariants, and
//! assembles the typed composite.

use crate::boxes::{HdlrBox, MdhdBox, MinfBox, ReadBox, VendorBox};
use crate::error::BmffError;
use crate::fourcc::FourCC;
use crate::header::{spec_header_at, BoxHeader};
use crate::stream::ByteStream;
use vstd::pervasive::arbitrary;
use vstd::prelude::*;

verus! {

/// What walking one container's span yields: its child headers in file
/// order, or the first failure.
pub enum WalkResult {
    /// Every child header, in stream order.
    Children(Seq<BoxHeader>),
    /// The bytes ran out inside a child prolog.
    Truncated,
    /// A child would escape the container or not advance the position.
    Corrupt,
    /// A child's declared end lies past the end of the byte source.
    Io,
}

/// The child headers declared between `p` and `end`, walked exactly as
/// the engine does: parse a prolog, refuse a child that declares no
/// progress or escapes its parent, refuse a child whose span passes the
/// end of the source, then continue at the child's declared end.
pub open spec fn walk(d: Seq<u8>, p: int, end: int) -> WalkResult
    decreases end - p,
{
    if p >= end {
        WalkResult::Children(Seq::empty())
    } else {
        match spec_header_at(d, p) {
            Option::None => WalkResult::Truncated,
            Option::Some(h) => {
                if h.size == 0 || h.size > end - p {
                    WalkResult::Corrupt
                } else if p + h.size > d.len() {
                    WalkResult::Io
                } else {
                    match walk(d, p + h.size, end) {
                        WalkResult::Children(cs) => WalkResult::Children(seq![h] + cs),
                        WalkResult::Truncated => WalkResult::Truncated,
                        WalkResult::Corrupt => WalkResult::Corrupt,
                        WalkResult::Io => WalkResult::Io,
                    }
                }
            },
        }
    }
}

/// Prepends already-walked children to the result of walking the rest.
pub open spec fn compose(pre: Seq<BoxHeader>, w: WalkResult) -> WalkResult {
    match w {
        WalkResult::Children(cs) => WalkResult::Children(pre + cs),
        WalkResult::Truncated => WalkResult::Truncated,
        WalkResult::Corrupt => WalkResult::Corrupt,
        WalkResult::Io => WalkResult::Io,
    }
}

/// Whether the media container's schema knows this child type.
pub open spec fn recognized(t: FourCC) -> bool {
    t == MdhdBox::spec_typ() || t == HdlrBox::spec_typ() || t == MinfBox::spec_typ()
}

/// Whether some child of type `t` occurs.
pub open spec fn has_typ(cs: Seq<BoxHeader>, t: FourCC) -> bool {
    exists|i: int| 0 <= i < cs.len() && cs[i].typ == t
}

/// The last child of type `t`; the engine's duplicate policy is that
/// the last occurrence wins.
pub open spec fn last_of(cs: Seq<BoxHeader>, t: FourCC) -> BoxHeader
    recommends
        has_typ(cs, t),
    decreases cs.len(),
{
    if cs.len() == 0 {
        arbitrary()
    } else if cs.last().typ == t {
        cs.last()
    } else {
        last_of(cs.drop_last(), t)
    }
}

/// The children the schema does not recognize, in file order.
pub open spec fn vendor_children(cs: Seq<BoxHeader>) -> Seq<BoxHeader> {
    cs.filter(|h: BoxHeader| !recognized(h.typ))
}

/// The mathematical shape of a parsed media container: its own header,
/// the last occurrence of each mandatory child, and the unrecognized
/// children in file order.
pub struct MdiaView {
    pub header: BoxHeader,
    pub mdhd: BoxHeader,
    pub hdlr: BoxHeader,
    pub minf: BoxHeader,
    pub vendor: Seq<BoxHeader>,
}

/// What reading a media container from `d` at `p` under `header`
/// returns, in full: the walk of its span, then the unconditional seek
/// to the declared end, then the mandatory-child schema check, in the
/// order the engine performs them.
pub open spec fn spec_read_mdia(d: Seq<u8>, p: int, header: BoxHeader) -> Result<
    MdiaView,
    BmffError,
> {
    match walk(d, p, header.spec_end()) {
        WalkResult::Truncated => Err(BmffError::Truncated),
        WalkResult::Corrupt => Err(BmffError::Corrupt),
        WalkResult::Io => Err(BmffError::Io),
        WalkResult::Children(cs) => {
            if header.spec_end() > d.len() {
                Err(BmffError::Io)
            } else if !has_typ(cs, MdhdBox::spec_typ()) {
                Err(BmffError::MissingChild(MdhdBox::spec_typ()))
            } else if !has_typ(cs, HdlrBox::spec_typ()) {
                Err(BmffError::MissingChild(HdlrBox::spec_typ()))
            } else if !has_typ(cs, MinfBox::spec_typ()) {
                Err(BmffError::MissingChild(MinfBox::spec_typ()))
            } else {
                Ok(
                    MdiaView {
                        header,
                        mdhd: last_of(cs, MdhdBox::spec_typ()),
                        hdlr: last_of(cs, HdlrBox::spec_typ()),
                        minf: last_of(cs, MinfBox::spec_typ()),
                        vendor: vendor_children(cs),
                    },
                )
            }
        },
    }
}

/// How one appended child changes presence and the last occurrence of a
/// type.
pub proof fn lemma_children_push(cs: Seq<BoxHeader>, h: BoxHeader, t: FourCC)
    ensures
        has_typ(cs.push(h), t) == (has_typ(cs, t) || h.typ == t),
        h.typ == t ==> last_of(cs.push(h), t) == h,
        h.typ != t ==> last_of(cs.push(h), t) == last_of(cs, t),
{
    assert(cs.push(h).drop_last() =~= cs);
    assert(cs.push(h).last() == h);
    if has_typ(cs, t) {
        let i = choose|i: int| 0 <= i < cs.len() && cs[i].typ == t;
        assert(cs.push(h)[i].typ == t);
    }
    if h.typ == t {
        assert(cs.push(h)[cs.len() as int].typ == t);
    }
    if has_typ(cs.push(h), t) && h.typ != t {
        let i = choose|i: int| 0 <= i < cs.push(h).len() && cs.push(h)[i].typ == t;
        assert(i < cs.len());
        assert(cs[i].typ == t);
    }
}

/// How one appended child changes the vendor sequence: a recognized
/// type leaves it as it was, an unrecognized one goes to its end, so
/// file order is preserved.
pub proof fn lemma_vendor_push(cs: Seq<BoxHeader>, h: BoxHeader)
    ensures
        recognized(h.typ) ==> vendor_children(cs.push(h)) == vendor_children(cs),
        !recognized(h.typ) ==> vendor_children(cs.push(h)) == vendor_children(cs).push(h),
{
    reveal(Seq::filter);
    assert(cs.push(h).drop_last() =~= cs);
    assert(cs.push(h).last() == h);
}

/// Which positions the walk starting at `p` visits as child boundaries
/// on its way to `q`, inside a container ending at `end`.
pub open spec fn reaches(d: Seq<u8>, p: int, q: int, end: int) -> bool
    decreases q - p,
{
    if p == q {
        true
    } else if p > q {
        false
    } else {
        match spec_header_at(d, p) {
            Option::None => false,
            Option::Some(h) => h.size > 0 && h.size <= end - p && p + h.size <= d.len() && p
                + h.size <= q && reaches(d, p + h.size, q, end),
        }
    }
}

/// A failure at any boundary the walk visits is the failure of the
/// whole walk: there is no local recovery.
pub proof fn lemma_error_propagates(d: Seq<u8>, p: int, q: int, end: int)
    requires
        reaches(d, p, q, end),
        q < end,
        !(walk(d, q, end) is Children),
    ensures
        walk(d, p, end) == walk(d, q, end),
    decreases q - p,
{
    if p != q {
        let h = choose|h: BoxHeader| spec_header_at(d, p) == Some(h);
        lemma_error_propagates(d, p + h.size, q, end);
    }
}

/// A child whose declared size would place its end offset beyond the
/// enclosing container's end offset is rejected with the structural
/// error, wherever in the container it stands, before its payload is
/// looked at.
pub proof fn lemma_oversized_child_rejected(
    d: Seq<u8>,
    p: int,
    header: BoxHeader,
    q: int,
    h: BoxHeader,
)
    requires
        reaches(d, p, q, header.spec_end()),
        q < header.spec_end(),
        spec_header_at(d, q) == Some(h),
        h.size > header.spec_end() - q,
    ensures
        spec_read_mdia(d, p, header) == Err::<MdiaView, BmffError>(BmffError::Corrupt),
{
    assert(walk(d, q, header.spec_end()) == WalkResult::Corrupt);
    lemma_error_propagates(d, p, q, header.spec_end());
}

/// A composite with a mandatory child absent fails with the
/// missing-child error naming that child's type — never with a generic
/// or truncation error — and the first absent slot, in schema order, is
/// the one named.
pub proof fn lemma_missing_child_named(d: Seq<u8>, p: int, header: BoxHeader, cs: Seq<BoxHeader>)
    requires
        walk(d, p, header.spec_end()) == WalkResult::Children(cs),
        header.spec_end() <= d.len(),
    ensures
        !has_typ(cs, MdhdBox::spec_typ()) ==> spec_read_mdia(d, p, header) == Err::<
            MdiaView,
            BmffError,
        >(BmffError::MissingChild(MdhdBox::spec_typ())),
        has_typ(cs, MdhdBox::spec_typ()) && !has_typ(cs, HdlrBox::spec_typ())
            ==> spec_read_mdia(d, p, header) == Err::<MdiaView, BmffError>(
            BmffError::MissingChild(HdlrBox::spec_typ()),
        ),
        has_typ(cs, MdhdBox::spec_typ()) && has_typ(cs, HdlrBox::spec_typ()) && !has_typ(
            cs,
            MinfBox::spec_typ(),
        ) ==> spec_read_mdia(d, p, header) == Err::<MdiaView, BmffError>(
            BmffError::MissingChild(MinfBox::spec_typ()),
        ),
{
}

/// Children of unrecognized type never abort the parse: when the walk
/// completes and the mandatory children are present, the composite is
/// produced, and every unrecognized child stands in its vendor
/// sequence, which is exactly the unrecognized subsequence of the
/// children in file order.
pub proof fn lemma_vendor_preserved(d: Seq<u8>, p: int, header: BoxHeader, cs: Seq<BoxHeader>)
    requires
        walk(d, p, header.spec_end()) == WalkResult::Children(cs),
        header.spec_end() <= d.len(),
        has_typ(cs, MdhdBox::spec_typ()),
        has_typ(cs, HdlrBox::spec_typ()),
        has_typ(cs, MinfBox::spec_typ()),
    ensures
        spec_read_mdia(d, p, header) matches Ok(v) && v.vendor == vendor_children(cs),
        forall|i: int|
            0 <= i < cs.len() && !recognized(cs[i].typ) ==> vendor_children(cs).contains(cs[i]),
{
    assert forall|i: int|
        0 <= i < cs.len() && !recognized(cs[i].typ) implies vendor_children(cs).contains(
        cs[i],
    ) by {
        cs.lemma_filter_contains(|h: BoxHeader| !recognized(h.typ), i);
    }
}

/// The children of a successful walk stand at strictly increasing
/// offsets: later in the sequence is later in the file.
pub proof fn lemma_walk_ordered(d: Seq<u8>, p: int, end: int, cs: Seq<BoxHeader>)
    requires
        walk(d, p, end) == WalkResult::Children(cs),
        0 <= p,
        d.len() <= u64::MAX,
    ensures
        forall|i: int| 0 <= i < cs.len() ==> p <= cs[i].start_offset,
        forall|i: int, j: int|
            0 <= i < j < cs.len() ==> cs[i].start_offset < cs[j].start_offset,
    decreases end - p,
{
    if p < end {
        let h = choose|h: BoxHeader| spec_header_at(d, p) == Some(h);
        match walk(d, p + h.size, end) {
            WalkResult::Children(cs2) => {
                lemma_walk_ordered(d, p + h.size, end, cs2);
                assert(cs == seq![h] + cs2);
                assert(cs[0] == h);
                assert(h.start_offset == p);
                assert(forall|i: int| 1 <= i < cs.len() ==> cs[i] == cs2[i - 1]);
            },
            WalkResult::Truncated => {
                assert(false);
            },
            WalkResult::Corrupt => {
                assert(false);
            },
            WalkResult::Io => {
                assert(false);
            },
        }
    }
}

/// A subsequence selected by filtering keeps the strictly increasing
/// offsets of the sequence it was selected from.
proof fn lemma_filter_keeps_order(cs: Seq<BoxHeader>, pred: spec_fn(BoxHeader) -> bool)
    requires
        forall|i: int, j: int|
            0 <= i < j < cs.len() ==> cs[i].start_offset < cs[j].start_offset,
    ensures
        forall|i: int, j: int|
            0 <= i < j < cs.filter(pred).len() ==> cs.filter(pred)[i].start_offset < cs.filter(
                pred,
            )[j].start_offset,
    decreases cs.len(),
{
    reveal(Seq::filter);
    if cs.len() > 0 {
        let pre = cs.drop_last();
        let last = cs.last();
        assert(forall|i: int| 0 <= i < pre.len() ==> pre[i] == cs[i]);
        lemma_filter_keeps_order(pre, pred);
        let f = cs.filter(pred);
        let g = pre.filter(pred);
        assert forall|i: int, j: int|
            0 <= i < j < f.len() implies f[i].start_offset < f[j].start_offset by {
            if pred(last) {
                assert(f == g.push(last));
                if j < g.len() {
                    assert(f[i] == g[i] && f[j] == g[j]);
                } else {
                    assert(f[j] == last);
                    let e = f[i];
                    assert(g[i] == e);
                    assert(g.contains(e));
                    pre.lemma_filter_contains_rev(pred, e);
                    let m = choose|m: int| 0 <= m < pre.len() && pre[m] == e;
                    assert(cs[m] == e);
                    assert(cs[m].start_offset < cs[cs.len() - 1].start_offset);
                }
            } else {
                assert(f == g);
            }
        }
    }
}

/// The vendor sequence of a parsed composite is in original file
/// order, interleaved exactly as the unrecognized children stood among
/// their recognized siblings: its recorded start offsets strictly
/// increase.
pub proof fn lemma_vendor_in_file_order(d: Seq<u8>, p: int, end: int, cs: Seq<BoxHeader>)
    requires
        walk(d, p, end) == WalkResult::Children(cs),
        0 <= p,
        d.len() <= u64::MAX,
    ensures
        forall|i: int, j: int|
            0 <= i < j < vendor_children(cs).len() ==> vendor_children(cs)[i].start_offset
                < vendor_children(cs)[j].start_offset,
{
    lemma_walk_ordered(d, p, end, cs);
    lemma_filter_keeps_order(cs, |h: BoxHeader| !recognized(h.typ));
}

/// The media container box: a composite with three mandatory children
/// and any number of vendor children.
///
/// Duplicate policy: when two children of the same mandatory type occur,
/// the last occurrence wins; a duplicate is not an error.
#[derive(Debug, Clone, PartialEq)]
pub struct MdiaBox {
    pub header: BoxHeader,
    pub mdhd: MdhdBox,
    pub hdlr: HdlrBox,
    pub minf: MinfBox,
    pub vendor: Vec<VendorBox>,
}

impl MdiaBox {
    /// The FourCC `mdia` of the media container itself.
    pub open spec fn spec_typ() -> FourCC {
        FourCC { value: 0x6D64_6961 }
    }

    /// The FourCC `mdia` of the media container itself.
    pub fn typ() -> (r: FourCC)
        ensures
            r == Self::spec_typ(),
    {
        FourCC { value: 0x6D64_6961 }
    }
}

impl View for MdiaBox {
    type V = MdiaView;

    open spec fn view(&self) -> MdiaView {
        MdiaView {
            header: self.header,
            mdhd: self.mdhd.header,
            hdlr: self.hdlr.header,
            minf: self.minf.header,
            vendor: self.vendor@.map_values(|v: VendorBox| v.header),
        }
    }
}

impl ReadBox for MdiaBox {
    open spec fn parse_ok(d: Seq<u8>, pos: int, header: BoxHeader) -> bool {
        spec_read_mdia(d, pos, header) is Ok
    }

    open spec fn parse_err(d: Seq<u8>, pos: int, header: BoxHeader) -> BmffError {
        match spec_read_mdia(d, pos, header) {
            Err(e) => e,
            Ok(_) => arbitrary(),
        }
    }

    open spec fn wf_parsed(self, d: Seq<u8>, pos: int, header: BoxHeader) -> bool {
        spec_read_mdia(d, pos, header) == Ok::<MdiaView, BmffError>(self@)
    }

    /// The composite walk. It loops from the current position to the
    /// container's declared end, parsing one child header at a time and
    /// dispatching on its type; it refuses a child that escapes the
    /// container or does not advance the position; it unconditionally
    /// reseeks to the container's own declared end before returning, so
    /// siblings one level up never see drift from inside; and it then
    /// requires every mandatory child to be present, reporting the first
    /// missing one by type.
    fn read_box(stream: &mut ByteStream, header: BoxHeader) -> (r: Result<Self, BmffError>) {
        let ghost d: Seq<u8> = stream.bytes();
        let ghost p0: int = stream.spec_pos();
        let ghost endi: int = header.spec_end();
        let end: u64 = header.end_offset();
        let mut mdhd: Option<MdhdBox> = None;
        let mut hdlr: Option<HdlrBox> = None;
        let mut minf: Option<MinfBox> = None;
        let mut vendor: Vec<VendorBox> = Vec::new();
        let ghost mut done: Seq<BoxHeader> = Seq::empty();
        let mut current: u64 = stream.position();
        proof {
            assert(compose(done, walk(d, current as int, endi)) == walk(d, p0, endi));
        }
        while current < end
            invariant
                d == old(stream).bytes(),
                p0 == old(stream).spec_pos(),
                stream.inv(),
                stream.bytes() == d,
                stream.spec_pos() == current as int,
                header.wf(),
                end as int == endi,
                endi == header.spec_end(),
                compose(done, walk(d, current as int, endi)) == walk(d, p0, endi),
                mdhd is None ==> !has_typ(done, MdhdBox::spec_typ()),
                mdhd matches Some(b) ==> (has_typ(done, MdhdBox::spec_typ()) && b.header == last_of(
                    done,
                    MdhdBox::spec_typ(),
                )),
                hdlr is None ==> !has_typ(done, HdlrBox::spec_typ()),
                hdlr matches Some(b) ==> (has_typ(done, HdlrBox::spec_typ()) && b.header == last_of(
                    done,
                    HdlrBox::spec_typ(),
                )),
                minf is None ==> !has_typ(done, MinfBox::spec_typ()),
                minf matches Some(b) ==> (has_typ(done, MinfBox::spec_typ()) && b.header == last_of(
                    done,
                    MinfBox::spec_typ(),
                )),
                vendor@.map_values(|v: VendorBox| v.header) == vendor_children(done),
            decreases end - current,
        {
            let ghost prev: int = current as int;
            let child = match BoxHeader::parse(stream) {
                Ok(h) => h,
                Err(e) => {
                    proof {
                        assert(walk(d, prev, endi) == WalkResult::Truncated);
                    }
                    return Err(e);
                },
            };
            if child.size == 0 || child.size > end - current {
                proof {
                    assert(walk(d, prev, endi) == WalkResult::Corrupt);
                }
                return Err(BmffError::Corrupt);
            }
            proof {
                assert(child.start_offset == current);
                assert(child.wf());
            }
            if child.typ == MdhdBox::typ() {
                match MdhdBox::read_box(stream, child) {
                    Ok(b) => {
                        mdhd = Some(b);
                    },
                    Err(e) => {
                        proof {
                            assert(prev + child.size > d.len());
                            assert(walk(d, prev, endi) == WalkResult::Io);
                        }
                        return Err(e);
                    },
                }
            } else if child.typ == HdlrBox::typ() {
                match HdlrBox::read_box(stream, child) {
                    Ok(b) => {
                        hdlr = Some(b);
                    },
                    Err(e) => {
                        proof {
                            assert(prev + child.size > d.len());
                            assert(walk(d, prev, endi) == WalkResult::Io);
                        }
                        return Err(e);
                    },
                }
            } else if child.typ == MinfBox::typ() {
                match MinfBox::read_box(stream, child) {
                    Ok(b) => {
                        minf = Some(b);
                    },
                    Err(e) => {
                        proof {
                            assert(prev + child.size > d.len());
                            assert(walk(d, prev, endi) == WalkResult::Io);
                        }
                        return Err(e);
                    },
                }
            } else {
                match VendorBox::read_box(stream, child) {
                    Ok(b) => {
                        let ghost old_vendor: Seq<BoxHeader> = vendor@.map_values(
                            |v: VendorBox| v.header,
                        );
                        vendor.push(b);
                        proof {
                            assert(vendor@.map_values(|v: VendorBox| v.header) =~= old_vendor.push(
                                b.header,
                            ));
                        }
                    },
                    Err(e) => {
                        proof {
                            assert(prev + child.size > d.len());
                            assert(walk(d, prev, endi) == WalkResult::Io);
                        }
                        return Err(e);
                    },
                }
            }
            proof {
                lemma_children_push(done, child, MdhdBox::spec_typ());
                lemma_children_push(done, child, HdlrBox::spec_typ());
                lemma_children_push(done, child, MinfBox::spec_typ());
                lemma_vendor_push(done, child);
                let nxt = prev + child.size;
                match walk(d, nxt, endi) {
                    WalkResult::Children(cs) => {
                        assert(walk(d, prev, endi) == WalkResult::Children(seq![child] + cs));
                        assert((done + (seq![child] + cs)) =~= (done.push(child) + cs));
                    },
                    WalkResult::Truncated => {},
                    WalkResult::Corrupt => {},
                    WalkResult::Io => {},
                }
                done = done.push(child);
            }
            current = stream.position();
        }
        proof {
            assert(walk(d, current as int, endi) == WalkResult::Children(Seq::<BoxHeader>::empty()));
            assert((done + Seq::<BoxHeader>::empty()) =~= done);
            assert(walk(d, p0, endi) == WalkResult::Children(done));
        }
        match stream.seek_to(end) {
            Ok(_) => {},
            Err(e) => {
                return Err(e);
            },
        }
        let mdhd = match mdhd {
            Some(b) => b,
            None => {
                return Err(BmffError::MissingChild(MdhdBox::typ()));
            },
        };
        let hdlr = match hdlr {
            Some(b) => b,
            None => {
                return Err(BmffError::MissingChild(HdlrBox::typ()));
            },
        };
        let minf = match minf {
            Some(b) => b,
            None => {
                return Err(BmffError::MissingChild(MinfBox::typ()));
            },
        };
        Ok(MdiaBox { header, mdhd, hdlr, minf, vendor })
    }
}

impl Default for MdiaBox {
    /// The empty composite, with all-zero headers and no vendor
    /// children.
    fn default() -> (r: MdiaBox)
        ensures
            r.header == (BoxHeader { typ: FourCC { value: 0 }, size: 0, start_offset: 0 }),
            r.mdhd.header == (BoxHeader { typ: FourCC { value: 0 }, size: 0, start_offset: 0 }),
            r.hdlr.header == (BoxHeader { typ: FourCC { value: 0 }, size: 0, start_offset: 0 }),
            r.minf.header == (BoxHeader { typ: FourCC { value: 0 }, size: 0, start_offset: 0 }),
            r.vendor@ == Seq::<VendorBox>::empty(),
    {
        MdiaBox {
            header: BoxHeader::default(),
            mdhd: MdhdBox::default(),
            hdlr: HdlrBox::default(),
            minf: MinfBox::default(),
            vendor: Vec::new(),
        }
    }
}

} // verus!
