//! Scenario tests for the composite box engine: the walk, the
//! resynchronization invariant, the error taxonomy, the vendor
//! fallback, and the structural round trip.

use rawler::boxes::{ReadBox, VendorBox};
use rawler::error::BmffError;
use rawler::fourcc::FourCC;
use rawler::header::BoxHeader;
use rawler::mdia::MdiaBox;
use rawler::stream::ByteStream;

fn push_u32(out: &mut Vec<u8>, v: u32) {
    out.push((v >> 24) as u8);
    out.push((v >> 16) as u8);
    out.push((v >> 8) as u8);
    out.push(v as u8);
}

fn push_u64(out: &mut Vec<u8>, v: u64) {
    out.push((v >> 56) as u8);
    out.push((v >> 48) as u8);
    out.push((v >> 40) as u8);
    out.push((v >> 32) as u8);
    out.push((v >> 24) as u8);
    out.push((v >> 16) as u8);
    out.push((v >> 8) as u8);
    out.push(v as u8);
}

/// Appends a whole box: an 8-byte prolog declaring `size`, then zero
/// padding so the box occupies exactly `size` bytes.
fn push_box(out: &mut Vec<u8>, typ: &[u8; 4], size: u32) {
    push_u32(out, size);
    out.extend_from_slice(typ);
    for _ in 8..size {
        out.push(0);
    }
}

/// Appends only a prolog declaring `size`, without its payload.
fn push_prolog(out: &mut Vec<u8>, typ: &[u8; 4], size: u32) {
    push_u32(out, size);
    out.extend_from_slice(typ);
}

fn fourcc(t: &[u8; 4]) -> FourCC {
    FourCC::with(t[0], t[1], t[2], t[3])
}

/// Parses the container header at the start of `data` and then the
/// composite under it.
fn parse_mdia(data: Vec<u8>) -> (Result<MdiaBox, BmffError>, u64) {
    let mut stream = ByteStream::new(data);
    let header = BoxHeader::parse(&mut stream).expect("container prolog must parse");
    assert_eq!(header.typ, fourcc(b"mdia"));
    let r = MdiaBox::read_box(&mut stream, header);
    let pos = stream.position();
    (r, pos)
}

#[test]
fn container_parses_with_vendor_child() {
    // Container of 100 bytes: its own 8-byte prolog, the three
    // mandatory children, then an unknown child filling the rest.
    let mut data = Vec::new();
    push_prolog(&mut data, b"mdia", 100);
    push_box(&mut data, b"mdhd", 20);
    push_box(&mut data, b"hdlr", 20);
    push_box(&mut data, b"minf", 12);
    push_box(&mut data, b"cccc", 40);
    assert_eq!(data.len(), 100);
    let (r, pos) = parse_mdia(data);
    let m = r.expect("well-formed container must parse");
    assert_eq!(m.header.size, 100);
    assert_eq!(m.mdhd.header.typ, fourcc(b"mdhd"));
    assert_eq!(m.mdhd.header.start_offset, 8);
    assert_eq!(m.mdhd.header.size, 20);
    assert_eq!(m.hdlr.header.start_offset, 28);
    assert_eq!(m.minf.header.start_offset, 48);
    assert_eq!(
        m.vendor,
        vec![VendorBox {
            header: BoxHeader { typ: fourcc(b"cccc"), size: 40, start_offset: 60 },
        }]
    );
    assert_eq!(pos, 100);
}

#[test]
fn missing_mandatory_child_reported_by_name() {
    // Same shape, but the handler child is absent; its place is held
    // by a padding box. The failure names the missing type and is not
    // a truncation or generic error.
    let mut data = Vec::new();
    push_prolog(&mut data, b"mdia", 100);
    push_box(&mut data, b"mdhd", 20);
    push_box(&mut data, b"free", 20);
    push_box(&mut data, b"minf", 12);
    push_box(&mut data, b"cccc", 40);
    assert_eq!(data.len(), 100);
    let (r, _) = parse_mdia(data);
    assert_eq!(r, Err(BmffError::MissingChild(fourcc(b"hdlr"))));
}

#[test]
fn oversized_child_rejected_before_payload() {
    // The first child declares 200 bytes while the container has only
    // 92 left: a structural violation, reported before the child's
    // payload is looked at (the buffer does not even hold it).
    let mut data = Vec::new();
    push_prolog(&mut data, b"mdia", 100);
    push_prolog(&mut data, b"mdhd", 200);
    let (r, _) = parse_mdia(data);
    assert_eq!(r, Err(BmffError::Corrupt));
}

#[test]
fn child_that_does_not_advance_rejected() {
    // A child declaring size 0 would leave the position where it was;
    // the engine reports it instead of looping.
    let mut data = Vec::new();
    push_prolog(&mut data, b"mdia", 100);
    push_prolog(&mut data, b"mdhd", 0);
    for _ in 0..84 {
        data.push(0);
    }
    let (r, _) = parse_mdia(data);
    assert_eq!(r, Err(BmffError::Corrupt));
}

#[test]
fn truncated_child_prolog_reported() {
    // The container promises 100 bytes but the source ends inside the
    // second child's prolog.
    let mut data = Vec::new();
    push_prolog(&mut data, b"mdia", 100);
    push_box(&mut data, b"mdhd", 20);
    data.extend_from_slice(&[0, 0, 0, 30]);
    let (r, _) = parse_mdia(data);
    assert_eq!(r, Err(BmffError::Truncated));
}

#[test]
fn child_span_past_source_is_io_error() {
    // The child stays inside its parent's declared span, but the
    // source itself is shorter: seeking to the child's end fails as an
    // I/O error, distinct from structural corruption.
    let mut data = Vec::new();
    push_prolog(&mut data, b"mdia", 100);
    push_prolog(&mut data, b"mdhd", 60);
    let (r, _) = parse_mdia(data);
    assert_eq!(r, Err(BmffError::Io));
}

#[test]
fn empty_container_reports_first_missing_child() {
    let mut data = Vec::new();
    push_prolog(&mut data, b"mdia", 8);
    let (r, pos) = parse_mdia(data);
    assert_eq!(r, Err(BmffError::MissingChild(fourcc(b"mdhd"))));
    assert_eq!(pos, 8);
}

#[test]
fn vendor_children_kept_in_file_order() {
    let mut data = Vec::new();
    push_prolog(&mut data, b"mdia", 80);
    push_box(&mut data, b"cccc", 12);
    push_box(&mut data, b"mdhd", 12);
    push_box(&mut data, b"dddd", 12);
    push_box(&mut data, b"hdlr", 12);
    push_box(&mut data, b"eeee", 12);
    push_box(&mut data, b"minf", 12);
    assert_eq!(data.len(), 80);
    let (r, pos) = parse_mdia(data);
    let m = r.expect("all mandatory children are present");
    let vendor_types: Vec<FourCC> = m.vendor.iter().map(|v| v.header.typ).collect();
    assert_eq!(vendor_types, vec![fourcc(b"cccc"), fourcc(b"dddd"), fourcc(b"eeee")]);
    assert_eq!(m.vendor[0].header.start_offset, 8);
    assert_eq!(m.vendor[1].header.start_offset, 32);
    assert_eq!(m.vendor[2].header.start_offset, 56);
    assert_eq!(pos, 80);
}

#[test]
fn duplicate_mandatory_child_last_wins() {
    let mut data = Vec::new();
    push_prolog(&mut data, b"mdia", 72);
    push_box(&mut data, b"mdhd", 12);
    push_box(&mut data, b"hdlr", 12);
    push_box(&mut data, b"minf", 12);
    push_box(&mut data, b"mdhd", 28);
    assert_eq!(data.len(), 72);
    let (r, _) = parse_mdia(data);
    let m = r.expect("a duplicate mandatory child is not an error");
    assert_eq!(m.mdhd.header.start_offset, 44);
    assert_eq!(m.mdhd.header.size, 28);
}

#[test]
fn position_resynchronized_after_underfull_payload() {
    // The children stop short of the container's declared end only by
    // way of a padding box; whatever the last child reader did, the
    // position afterwards is the container's declared end.
    let mut data = Vec::new();
    push_prolog(&mut data, b"mdia", 64);
    push_box(&mut data, b"mdhd", 12);
    push_box(&mut data, b"hdlr", 12);
    push_box(&mut data, b"minf", 12);
    push_box(&mut data, b"free", 20);
    assert_eq!(data.len(), 64);
    let (r, pos) = parse_mdia(data);
    assert!(r.is_ok());
    assert_eq!(pos, 64);
}

#[test]
fn extended_size_prolog_parses() {
    let mut data = Vec::new();
    push_u32(&mut data, 1);
    data.extend_from_slice(b"wide");
    push_u64(&mut data, 24);
    for _ in 16..24 {
        data.push(0);
    }
    let mut stream = ByteStream::new(data);
    let h = BoxHeader::parse(&mut stream).expect("extended prolog must parse");
    assert_eq!(h.typ, fourcc(b"wide"));
    assert_eq!(h.size, 24);
    assert_eq!(h.start_offset, 0);
    assert_eq!(stream.position(), 16);
}

#[test]
fn extended_size_child_inside_container() {
    let mut data = Vec::new();
    push_prolog(&mut data, b"mdia", 68);
    push_box(&mut data, b"mdhd", 12);
    push_box(&mut data, b"hdlr", 12);
    push_box(&mut data, b"minf", 12);
    // A vendor child in the 16-byte extended form.
    push_u32(&mut data, 1);
    data.extend_from_slice(b"cccc");
    push_u64(&mut data, 24);
    for _ in 16..24 {
        data.push(0);
    }
    assert_eq!(data.len(), 68);
    let (r, pos) = parse_mdia(data);
    let m = r.expect("extended-size child must parse");
    assert_eq!(m.vendor.len(), 1);
    assert_eq!(m.vendor[0].header.size, 24);
    assert_eq!(m.vendor[0].header.start_offset, 44);
    assert_eq!(pos, 68);
}

#[test]
fn truncated_extended_size_reported() {
    let mut data = Vec::new();
    push_prolog(&mut data, b"mdia", 100);
    push_u32(&mut data, 1);
    data.extend_from_slice(b"mdhd");
    // The 8 extended-size bytes are missing.
    let (r, _) = parse_mdia(data);
    assert_eq!(r, Err(BmffError::Truncated));
}

/// Writes the structure of a parsed composite back to bytes: zeros up
/// to the payload start, then each child's prolog at its recorded
/// offset, padded with zeros to its declared size.
fn reserialize_structure(m: &MdiaBox, payload_start: u64) -> Vec<u8> {
    let end = m.header.start_offset + m.header.size;
    let mut out = vec![0u8; end as usize];
    let mut children: Vec<BoxHeader> =
        vec![m.mdhd.header, m.hdlr.header, m.minf.header];
    for v in &m.vendor {
        children.push(v.header);
    }
    children.sort_by_key(|h| h.start_offset);
    let mut at = payload_start;
    for h in children {
        assert_eq!(h.start_offset, at, "children tile the span contiguously");
        let mut bytes = Vec::new();
        push_u32(&mut bytes, h.size as u32);
        push_u32(&mut bytes, h.typ.value);
        out[h.start_offset as usize..h.start_offset as usize + 8].copy_from_slice(&bytes);
        at += h.size;
    }
    assert_eq!(at, end);
    out
}

#[test]
fn default_composite_is_empty() {
    let m = MdiaBox::default();
    assert_eq!(m.header, BoxHeader::default());
    assert_eq!(m.mdhd.header.size, 0);
    assert_eq!(m.vendor.len(), 0);
}

#[test]
fn structure_round_trip() {
    let mut data = Vec::new();
    push_prolog(&mut data, b"mdia", 100);
    push_box(&mut data, b"mdhd", 20);
    push_box(&mut data, b"cccc", 28);
    push_box(&mut data, b"hdlr", 20);
    push_box(&mut data, b"minf", 24);
    assert_eq!(data.len(), 100);
    let (r, _) = parse_mdia(data);
    let m = r.expect("original container must parse");

    // Reserialize the structure (vendor payloads are not retained and
    // come back as zeros) and parse the result again.
    let mut again = reserialize_structure(&m, 8);
    // The reserialized container needs its own prolog back to be
    // parsed the same way.
    let mut prolog = Vec::new();
    push_u32(&mut prolog, 100);
    prolog.extend_from_slice(b"mdia");
    again[0..8].copy_from_slice(&prolog);
    let (r2, pos2) = parse_mdia(again);
    let m2 = r2.expect("reserialized container must parse");
    assert_eq!(m2, m);
    assert_eq!(pos2, 100);
}
