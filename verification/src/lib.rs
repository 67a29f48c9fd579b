//! Decoder for the hierarchical box ("atom") containers found in
//! ISO-base-media-style camera raw files, together with the catalog of
//! TIFF/EXIF/DNG tag identifiers used by the metadata directories of the
//! same raw formats.
//!
//! The core is the composite box engine in [`mdia`]: it walks a byte
//! stream as a sequence of nested, self-describing records, validates
//! their structural invariants, dispatches each child to a typed reader
//! or to the vendor/opaque fallback, and reassembles a typed tree.

pub mod boxes;
pub mod error;
pub mod fourcc;
pub mod header;
pub mod mdia;
pub mod serial;
pub mod stream;
pub mod tags;
