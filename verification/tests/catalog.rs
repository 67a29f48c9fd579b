//! Lookups in the tag-identifier catalog: defined identifiers resolve
//! to their symbolic tags within their namespace, undefined ones
//! answer "not found" without failing, and identifiers may collide
//! across namespaces.

use rawler::tags::{DngTag, ExifGpsTag, ExifTag, TiffCommonTag, TiffTag};

#[test]
fn defined_identifiers_resolve() {
    assert_eq!(TiffCommonTag::n(0x0100), Some(TiffCommonTag::ImageWidth));
    assert_eq!(TiffCommonTag::n(0x010F), Some(TiffCommonTag::Make));
    assert_eq!(ExifTag::n(0x829A), Some(ExifTag::ExposureTime));
    assert_eq!(ExifTag::n(0xA434), Some(ExifTag::LensModel));
    assert_eq!(ExifGpsTag::n(0x0002), Some(ExifGpsTag::GPSLatitude));
    assert_eq!(ExifGpsTag::n(0x001D), Some(ExifGpsTag::GPSDateStamp));
    assert_eq!(DngTag::n(50714), Some(DngTag::BlackLevel));
    assert_eq!(DngTag::n(50706), Some(DngTag::DNGVersion));
}

#[test]
fn undefined_identifiers_answer_not_found() {
    assert_eq!(TiffCommonTag::n(0xFFFF), None);
    assert_eq!(ExifTag::n(0x0003), None);
    assert_eq!(ExifGpsTag::n(0x0100), None);
    assert_eq!(DngTag::n(1), None);
}

#[test]
fn numeric_value_round_trips_through_lookup() {
    assert_eq!(TiffCommonTag::ImageLength.to_u16(), 0x0101);
    assert_eq!(TiffCommonTag::n(TiffCommonTag::CFAPattern.to_u16()), Some(TiffCommonTag::CFAPattern));
    assert_eq!(ExifTag::n(ExifTag::FNumber.to_u16()), Some(ExifTag::FNumber));
    assert_eq!(ExifGpsTag::n(ExifGpsTag::GPSVersionID.to_u16()), Some(ExifGpsTag::GPSVersionID));
    assert_eq!(DngTag::n(DngTag::ColumnInterleaveFactor.to_u16()), Some(DngTag::ColumnInterleaveFactor));
}

#[test]
fn identifiers_collide_across_namespaces_but_not_within() {
    // 0x8290 means one thing among the common tags and another among
    // the EXIF tags; each namespace resolves it for itself.
    assert_eq!(TiffCommonTag::n(0x8290), Some(TiffCommonTag::KodakIFD));
    assert_eq!(ExifTag::n(0x8290), Some(ExifTag::KodakIFD));
    assert_eq!(TiffCommonTag::n(0x02BC), Some(TiffCommonTag::Xmp));
    assert_eq!(ExifTag::n(0x02BC), Some(ExifTag::ApplicationNotes));
}

#[test]
fn numeric_conversion_through_from() {
    assert_eq!(u16::from(TiffCommonTag::Make), 0x010F);
    assert_eq!(u16::from(ExifTag::Copyright), 0x8298);
    assert_eq!(u16::from(ExifGpsTag::GPSAltitude), 6);
    assert_eq!(u16::from(DngTag::WhiteLevel), 50717);
}

#[test]
fn raw_u16_namespace_is_the_identity() {
    assert_eq!(<u16 as TiffTag>::n(0x1234), Some(0x1234));
    assert_eq!(0x5678u16.to_u16(), 0x5678);
}
