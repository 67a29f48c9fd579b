//! The tag-identifier catalog: static enumerations mapping numeric tag
//! identifiers to symbolic names, one closed namespace per metadata
//! family (common TIFF, EXIF, GPS, DNG-private). The catalog is pure
//! data consumed by a separate metadata-decoding subsystem; numeric
//! identifiers need not be contiguous and may collide across
//! namespaces, and a lookup of an identifier a namespace does not
//! define answers `None` rather than failing the caller's decode.

use vstd::prelude::*;

verus! {

/// A TIFF-compatible tag identifier namespace. Within one namespace a
/// numeric identifier maps to at most one symbolic tag, and an
/// identifier the namespace does not define looks up as `None` — never
/// as a failure, since undefined, reserved and future tag numbers are
/// routine in the wild and must stay opaque numeric tags to the caller.
pub trait TiffTag: Sized + Copy {
    /// The numeric wire identifier of this tag.
    spec fn spec_u16(self) -> u16;

    /// The numeric wire identifier of this tag.
    fn to_u16(self) -> (r: u16)
        ensures
            r == self.spec_u16(),
    ;

    /// Looks up the numeric identifier `v` in this namespace.
    fn n(v: u16) -> (r: Option<Self>)
        ensures
            r matches Some(t) ==> t.spec_u16() == v,
            r is None ==> forall|t: Self| t.spec_u16() != v,
    ;
}

/// The trivial namespace in which every 16-bit identifier stands for
/// itself; used where tags flow through undecoded.
impl TiffTag for u16 {
    open spec fn spec_u16(self) -> u16 {
        self
    }

    fn to_u16(self) -> (r: u16) {
        self
    }

    fn n(v: u16) -> (r: Option<u16>) {
        Some(v)
    }
}

/// Common tags, generally used in the root image file directory or its sub-directories.
#[derive(Debug, Clone, Copy, PartialEq, Eq, Structural)]
pub enum TiffCommonTag {
    PanaWidth,
    PanaLength,
    NefWB0,
    NrwWB,
    NefSerial,
    Cr2PowerShotWB,
    NewSubFileType,
    Cr2OldOffset,
    NefMeta1,
    NefMeta2,
    NefWB1,
    Cr2OldWB,
    NefKey,
    ImageWidth,
    ImageLength,
    BitsPerSample,
    SampleFormat,
    RowsPerStrip,
    XResolution,
    YResolution,
    ResolutionUnit,
    Artist,
    Compression,
    PhotometricInt,
    Make,
    Model,
    StripOffsets,
    Orientation,
    SamplesPerPixel,
    StripByteCounts,
    PanaOffsets,
    GrayResponse,
    Software,
    Predictor,
    TileWidth,
    TileLength,
    TileOffsets,
    TileByteCounts,
    SubIFDs,
    PefBlackLevels,
    PefWB,
    PefHuffman,
    Xmp,
    DcrWB,
    DcrLinearization,
    EpsonWB,
    KodakWB,
    RafOldWB,
    Cr2ColorData,
    SonyCurve,
    SonyOffset,
    SonyLength,
    SonyKey,
    KodakIFD,
    LeafMetadata,
    ExifIFDPointer,
    Makernote,
    SrwSensorAreas,
    Cr2Id,
    DNGVersion,
    Linearization,
    BlackLevels,
    WhiteLevel,
    ColorMatrix1,
    ColorMatrix2,
    AsShotNeutral,
    DNGPrivateArea,
    Cr2StripeWidths,
    ActiveArea,
    MaskedAreas,
    TimeCodes,
    FrameFrate,
    TStop,
    RafRawSubIFD,
    RafImageWidth,
    RafImageLength,
    RafBitsPerSample,
    RafWBGRB,
    KdcWB,
    KdcWidth,
    KdcLength,
    KdcOffset,
    KdcIFD,
    CFAPattern,
    CFARepeatPatternDim,
}

impl TiffTag for TiffCommonTag {
    open spec fn spec_u16(self) -> u16 {
        match self {
            TiffCommonTag::PanaWidth => 0x0002,
            TiffCommonTag::PanaLength => 0x0003,
            TiffCommonTag::NefWB0 => 0x000C,
            TiffCommonTag::NrwWB => 0x0014,
            TiffCommonTag::NefSerial => 0x001d,
            TiffCommonTag::Cr2PowerShotWB => 0x0029,
            TiffCommonTag::NewSubFileType => 0x00FE,
            TiffCommonTag::Cr2OldOffset => 0x0081,
            TiffCommonTag::NefMeta1 => 0x008c,
            TiffCommonTag::NefMeta2 => 0x0096,
            TiffCommonTag::NefWB1 => 0x0097,
            TiffCommonTag::Cr2OldWB => 0x00A4,
            TiffCommonTag::NefKey => 0x00a7,
            TiffCommonTag::ImageWidth => 0x0100,
            TiffCommonTag::ImageLength => 0x0101,
            TiffCommonTag::BitsPerSample => 0x0102,
            TiffCommonTag::SampleFormat => 339,
            TiffCommonTag::RowsPerStrip => 278,
            TiffCommonTag::XResolution => 282,
            TiffCommonTag::YResolution => 283,
            TiffCommonTag::ResolutionUnit => 296,
            TiffCommonTag::Artist => 315,
            TiffCommonTag::Compression => 0x0103,
            TiffCommonTag::PhotometricInt => 0x0106,
            TiffCommonTag::Make => 0x010F,
            TiffCommonTag::Model => 0x0110,
            TiffCommonTag::StripOffsets => 0x0111,
            TiffCommonTag::Orientation => 0x0112,
            TiffCommonTag::SamplesPerPixel => 0x0115,
            TiffCommonTag::StripByteCounts => 0x0117,
            TiffCommonTag::PanaOffsets => 0x0118,
            TiffCommonTag::GrayResponse => 0x0123,
            TiffCommonTag::Software => 0x0131,
            TiffCommonTag::Predictor => 0x013D,
            TiffCommonTag::TileWidth => 0x0142,
            TiffCommonTag::TileLength => 0x0143,
            TiffCommonTag::TileOffsets => 0x0144,
            TiffCommonTag::TileByteCounts => 0x0145,
            TiffCommonTag::SubIFDs => 0x014A,
            TiffCommonTag::PefBlackLevels => 0x0200,
            TiffCommonTag::PefWB => 0x0201,
            TiffCommonTag::PefHuffman => 0x0220,
            TiffCommonTag::Xmp => 0x02BC,
            TiffCommonTag::DcrWB => 0x03FD,
            TiffCommonTag::DcrLinearization => 0x090D,
            TiffCommonTag::EpsonWB => 0x0E80,
            TiffCommonTag::KodakWB => 0x0F00,
            TiffCommonTag::RafOldWB => 0x2ff0,
            TiffCommonTag::Cr2ColorData => 0x4001,
            TiffCommonTag::SonyCurve => 0x7010,
            TiffCommonTag::SonyOffset => 0x7200,
            TiffCommonTag::SonyLength => 0x7201,
            TiffCommonTag::SonyKey => 0x7221,
            TiffCommonTag::KodakIFD => 0x8290,
            TiffCommonTag::LeafMetadata => 0x8606,
            TiffCommonTag::ExifIFDPointer => 0x8769,
            TiffCommonTag::Makernote => 0x927C,
            TiffCommonTag::SrwSensorAreas => 0xA010,
            TiffCommonTag::Cr2Id => 0xc5d8,
            TiffCommonTag::DNGVersion => 0xC612,
            TiffCommonTag::Linearization => 0xC618,
            TiffCommonTag::BlackLevels => 0xC61A,
            TiffCommonTag::WhiteLevel => 0xC61D,
            TiffCommonTag::ColorMatrix1 => 0xC621,
            TiffCommonTag::ColorMatrix2 => 0xC622,
            TiffCommonTag::AsShotNeutral => 0xC628,
            TiffCommonTag::DNGPrivateArea => 0xC634,
            TiffCommonTag::Cr2StripeWidths => 0xC640,
            TiffCommonTag::ActiveArea => 0xC68D,
            TiffCommonTag::MaskedAreas => 0xC68E,
            TiffCommonTag::TimeCodes => 0xC763,
            TiffCommonTag::FrameFrate => 0xC764,
            TiffCommonTag::TStop => 0xC772,
            TiffCommonTag::RafRawSubIFD => 0xF000,
            TiffCommonTag::RafImageWidth => 0xF001,
            TiffCommonTag::RafImageLength => 0xF002,
            TiffCommonTag::RafBitsPerSample => 0xF003,
            TiffCommonTag::RafWBGRB => 0xF00E,
            TiffCommonTag::KdcWB => 0xFA2A,
            TiffCommonTag::KdcWidth => 0xFD00,
            TiffCommonTag::KdcLength => 0xFD01,
            TiffCommonTag::KdcOffset => 0xFD04,
            TiffCommonTag::KdcIFD => 0xFE00,
            TiffCommonTag::CFAPattern => 0x828E,
            TiffCommonTag::CFARepeatPatternDim => 33421,
        }
    }

    fn to_u16(self) -> (r: u16) {
        match self {
            TiffCommonTag::PanaWidth => 0x0002,
            TiffCommonTag::PanaLength => 0x0003,
            TiffCommonTag::NefWB0 => 0x000C,
            TiffCommonTag::NrwWB => 0x0014,
            TiffCommonTag::NefSerial => 0x001d,
            TiffCommonTag::Cr2PowerShotWB => 0x0029,
            TiffCommonTag::NewSubFileType => 0x00FE,
            TiffCommonTag::Cr2OldOffset => 0x0081,
            TiffCommonTag::NefMeta1 => 0x008c,
            TiffCommonTag::NefMeta2 => 0x0096,
            TiffCommonTag::NefWB1 => 0x0097,
            TiffCommonTag::Cr2OldWB => 0x00A4,
            TiffCommonTag::NefKey => 0x00a7,
            TiffCommonTag::ImageWidth => 0x0100,
            TiffCommonTag::ImageLength => 0x0101,
            TiffCommonTag::BitsPerSample => 0x0102,
            TiffCommonTag::SampleFormat => 339,
            TiffCommonTag::RowsPerStrip => 278,
            TiffCommonTag::XResolution => 282,
            TiffCommonTag::YResolution => 283,
            TiffCommonTag::ResolutionUnit => 296,
            TiffCommonTag::Artist => 315,
            TiffCommonTag::Compression => 0x0103,
            TiffCommonTag::PhotometricInt => 0x0106,
            TiffCommonTag::Make => 0x010F,
            TiffCommonTag::Model => 0x0110,
            TiffCommonTag::StripOffsets => 0x0111,
            TiffCommonTag::Orientation => 0x0112,
            TiffCommonTag::SamplesPerPixel => 0x0115,
            TiffCommonTag::StripByteCounts => 0x0117,
            TiffCommonTag::PanaOffsets => 0x0118,
            TiffCommonTag::GrayResponse => 0x0123,
            TiffCommonTag::Software => 0x0131,
            TiffCommonTag::Predictor => 0x013D,
            TiffCommonTag::TileWidth => 0x0142,
            TiffCommonTag::TileLength => 0x0143,
            TiffCommonTag::TileOffsets => 0x0144,
            TiffCommonTag::TileByteCounts => 0x0145,
            TiffCommonTag::SubIFDs => 0x014A,
            TiffCommonTag::PefBlackLevels => 0x0200,
            TiffCommonTag::PefWB => 0x0201,
            TiffCommonTag::PefHuffman => 0x0220,
            TiffCommonTag::Xmp => 0x02BC,
            TiffCommonTag::DcrWB => 0x03FD,
            TiffCommonTag::DcrLinearization => 0x090D,
            TiffCommonTag::EpsonWB => 0x0E80,
            TiffCommonTag::KodakWB => 0x0F00,
            TiffCommonTag::RafOldWB => 0x2ff0,
            TiffCommonTag::Cr2ColorData => 0x4001,
            TiffCommonTag::SonyCurve => 0x7010,
            TiffCommonTag::SonyOffset => 0x7200,
            TiffCommonTag::SonyLength => 0x7201,
            TiffCommonTag::SonyKey => 0x7221,
            TiffCommonTag::KodakIFD => 0x8290,
            TiffCommonTag::LeafMetadata => 0x8606,
            TiffCommonTag::ExifIFDPointer => 0x8769,
            TiffCommonTag::Makernote => 0x927C,
            TiffCommonTag::SrwSensorAreas => 0xA010,
            TiffCommonTag::Cr2Id => 0xc5d8,
            TiffCommonTag::DNGVersion => 0xC612,
            TiffCommonTag::Linearization => 0xC618,
            TiffCommonTag::BlackLevels => 0xC61A,
            TiffCommonTag::WhiteLevel => 0xC61D,
            TiffCommonTag::ColorMatrix1 => 0xC621,
            TiffCommonTag::ColorMatrix2 => 0xC622,
            TiffCommonTag::AsShotNeutral => 0xC628,
            TiffCommonTag::DNGPrivateArea => 0xC634,
            TiffCommonTag::Cr2StripeWidths => 0xC640,
            TiffCommonTag::ActiveArea => 0xC68D,
            TiffCommonTag::MaskedAreas => 0xC68E,
            TiffCommonTag::TimeCodes => 0xC763,
            TiffCommonTag::FrameFrate => 0xC764,
            TiffCommonTag::TStop => 0xC772,
            TiffCommonTag::RafRawSubIFD => 0xF000,
            TiffCommonTag::RafImageWidth => 0xF001,
            TiffCommonTag::RafImageLength => 0xF002,
            TiffCommonTag::RafBitsPerSample => 0xF003,
            TiffCommonTag::RafWBGRB => 0xF00E,
            TiffCommonTag::KdcWB => 0xFA2A,
            TiffCommonTag::KdcWidth => 0xFD00,
            TiffCommonTag::KdcLength => 0xFD01,
            TiffCommonTag::KdcOffset => 0xFD04,
            TiffCommonTag::KdcIFD => 0xFE00,
            TiffCommonTag::CFAPattern => 0x828E,
            TiffCommonTag::CFARepeatPatternDim => 33421,
        }
    }

    #[verifier::rlimit(100)]
    fn n(v: u16) -> (r: Option<TiffCommonTag>) {
        match v {
            0x0002 => Some(TiffCommonTag::PanaWidth),
            0x0003 => Some(TiffCommonTag::PanaLength),
            0x000C => Some(TiffCommonTag::NefWB0),
            0x0014 => Some(TiffCommonTag::NrwWB),
            0x001d => Some(TiffCommonTag::NefSerial),
            0x0029 => Some(TiffCommonTag::Cr2PowerShotWB),
            0x00FE => Some(TiffCommonTag::NewSubFileType),
            0x0081 => Some(TiffCommonTag::Cr2OldOffset),
            0x008c => Some(TiffCommonTag::NefMeta1),
            0x0096 => Some(TiffCommonTag::NefMeta2),
            0x0097 => Some(TiffCommonTag::NefWB1),
            0x00A4 => Some(TiffCommonTag::Cr2OldWB),
            0x00a7 => Some(TiffCommonTag::NefKey),
            0x0100 => Some(TiffCommonTag::ImageWidth),
            0x0101 => Some(TiffCommonTag::ImageLength),
            0x0102 => Some(TiffCommonTag::BitsPerSample),
            339 => Some(TiffCommonTag::SampleFormat),
            278 => Some(TiffCommonTag::RowsPerStrip),
            282 => Some(TiffCommonTag::XResolution),
            283 => Some(TiffCommonTag::YResolution),
            296 => Some(TiffCommonTag::ResolutionUnit),
            315 => Some(TiffCommonTag::Artist),
            0x0103 => Some(TiffCommonTag::Compression),
            0x0106 => Some(TiffCommonTag::PhotometricInt),
            0x010F => Some(TiffCommonTag::Make),
            0x0110 => Some(TiffCommonTag::Model),
            0x0111 => Some(TiffCommonTag::StripOffsets),
            0x0112 => Some(TiffCommonTag::Orientation),
            0x0115 => Some(TiffCommonTag::SamplesPerPixel),
            0x0117 => Some(TiffCommonTag::StripByteCounts),
            0x0118 => Some(TiffCommonTag::PanaOffsets),
            0x0123 => Some(TiffCommonTag::GrayResponse),
            0x0131 => Some(TiffCommonTag::Software),
            0x013D => Some(TiffCommonTag::Predictor),
            0x0142 => Some(TiffCommonTag::TileWidth),
            0x0143 => Some(TiffCommonTag::TileLength),
            0x0144 => Some(TiffCommonTag::TileOffsets),
            0x0145 => Some(TiffCommonTag::TileByteCounts),
            0x014A => Some(TiffCommonTag::SubIFDs),
            0x0200 => Some(TiffCommonTag::PefBlackLevels),
            0x0201 => Some(TiffCommonTag::PefWB),
            0x0220 => Some(TiffCommonTag::PefHuffman),
            0x02BC => Some(TiffCommonTag::Xmp),
            0x03FD => Some(TiffCommonTag::DcrWB),
            0x090D => Some(TiffCommonTag::DcrLinearization),
            0x0E80 => Some(TiffCommonTag::EpsonWB),
            0x0F00 => Some(TiffCommonTag::KodakWB),
            0x2ff0 => Some(TiffCommonTag::RafOldWB),
            0x4001 => Some(TiffCommonTag::Cr2ColorData),
            0x7010 => Some(TiffCommonTag::SonyCurve),
            0x7200 => Some(TiffCommonTag::SonyOffset),
            0x7201 => Some(TiffCommonTag::SonyLength),
            0x7221 => Some(TiffCommonTag::SonyKey),
            0x8290 => Some(TiffCommonTag::KodakIFD),
            0x8606 => Some(TiffCommonTag::LeafMetadata),
            0x8769 => Some(TiffCommonTag::ExifIFDPointer),
            0x927C => Some(TiffCommonTag::Makernote),
            0xA010 => Some(TiffCommonTag::SrwSensorAreas),
            0xc5d8 => Some(TiffCommonTag::Cr2Id),
            0xC612 => Some(TiffCommonTag::DNGVersion),
            0xC618 => Some(TiffCommonTag::Linearization),
            0xC61A => Some(TiffCommonTag::BlackLevels),
            0xC61D => Some(TiffCommonTag::WhiteLevel),
            0xC621 => Some(TiffCommonTag::ColorMatrix1),
            0xC622 => Some(TiffCommonTag::ColorMatrix2),
            0xC628 => Some(TiffCommonTag::AsShotNeutral),
            0xC634 => Some(TiffCommonTag::DNGPrivateArea),
            0xC640 => Some(TiffCommonTag::Cr2StripeWidths),
            0xC68D => Some(TiffCommonTag::ActiveArea),
            0xC68E => Some(TiffCommonTag::MaskedAreas),
            0xC763 => Some(TiffCommonTag::TimeCodes),
            0xC764 => Some(TiffCommonTag::FrameFrate),
            0xC772 => Some(TiffCommonTag::TStop),
            0xF000 => Some(TiffCommonTag::RafRawSubIFD),
            0xF001 => Some(TiffCommonTag::RafImageWidth),
            0xF002 => Some(TiffCommonTag::RafImageLength),
            0xF003 => Some(TiffCommonTag::RafBitsPerSample),
            0xF00E => Some(TiffCommonTag::RafWBGRB),
            0xFA2A => Some(TiffCommonTag::KdcWB),
            0xFD00 => Some(TiffCommonTag::KdcWidth),
            0xFD01 => Some(TiffCommonTag::KdcLength),
            0xFD04 => Some(TiffCommonTag::KdcOffset),
            0xFE00 => Some(TiffCommonTag::KdcIFD),
            0x828E => Some(TiffCommonTag::CFAPattern),
            33421 => Some(TiffCommonTag::CFARepeatPatternDim),
            _ => None,
        }
    }
}

/// EXIF GPS tags.
#[derive(Debug, Clone, Copy, PartialEq, Eq, Structural)]
pub enum ExifGpsTag {
    GPSVersionID,
    GPSLatitudeRef,
    GPSLatitude,
    GPSLongitudeRef,
    GPSLongitude,
    GPSAltitudeRef,
    GPSAltitude,
    GPSTimeStamp,
    GPSSatellites,
    GPSStatus,
    GPSMeasureMode,
    GPSDOP,
    GPSSpeedRef,
    GPSSpeed,
    GPSTrackRef,
    GPSTrack,
    GPSImgDirectionRef,
    GPSImgDirection,
    GPSMapDatum,
    GPSDestLatitudeRef,
    GPSDestLatitude,
    GPSDestLongitudeRef,
    GPSDestLongitude,
    GPSDestBearingRef,
    GPSDestBearing,
    GPSDestDistanceRef,
    GPSDestDistance,
    GPSProcessingMethod,
    GPSAreaInformation,
    GPSDateStamp,
    GPSDifferential,
    GPSHPositioningError,
}

impl TiffTag for ExifGpsTag {
    open spec fn spec_u16(self) -> u16 {
        match self {
            ExifGpsTag::GPSVersionID => 0x0000,
            ExifGpsTag::GPSLatitudeRef => 0x0001,
            ExifGpsTag::GPSLatitude => 0x0002,
            ExifGpsTag::GPSLongitudeRef => 0x0003,
            ExifGpsTag::GPSLongitude => 0x0004,
            ExifGpsTag::GPSAltitudeRef => 0x0005,
            ExifGpsTag::GPSAltitude => 0x0006,
            ExifGpsTag::GPSTimeStamp => 0x0007,
            ExifGpsTag::GPSSatellites => 0x0008,
            ExifGpsTag::GPSStatus => 0x0009,
            ExifGpsTag::GPSMeasureMode => 0x000a,
            ExifGpsTag::GPSDOP => 0x000b,
            ExifGpsTag::GPSSpeedRef => 0x000c,
            ExifGpsTag::GPSSpeed => 0x000d,
            ExifGpsTag::GPSTrackRef => 0x000e,
            ExifGpsTag::GPSTrack => 0x000f,
            ExifGpsTag::GPSImgDirectionRef => 0x0010,
            ExifGpsTag::GPSImgDirection => 0x0011,
            ExifGpsTag::GPSMapDatum => 0x0012,
            ExifGpsTag::GPSDestLatitudeRef => 0x0013,
            ExifGpsTag::GPSDestLatitude => 0x0014,
            ExifGpsTag::GPSDestLongitudeRef => 0x0015,
            ExifGpsTag::GPSDestLongitude => 0x0016,
            ExifGpsTag::GPSDestBearingRef => 0x0017,
            ExifGpsTag::GPSDestBearing => 0x0018,
            ExifGpsTag::GPSDestDistanceRef => 0x0019,
            ExifGpsTag::GPSDestDistance => 0x001a,
            ExifGpsTag::GPSProcessingMethod => 0x001b,
            ExifGpsTag::GPSAreaInformation => 0x001c,
            ExifGpsTag::GPSDateStamp => 0x001d,
            ExifGpsTag::GPSDifferential => 0x001e,
            ExifGpsTag::GPSHPositioningError => 0x001f,
        }
    }

    fn to_u16(self) -> (r: u16) {
        match self {
            ExifGpsTag::GPSVersionID => 0x0000,
            ExifGpsTag::GPSLatitudeRef => 0x0001,
            ExifGpsTag::GPSLatitude => 0x0002,
            ExifGpsTag::GPSLongitudeRef => 0x0003,
            ExifGpsTag::GPSLongitude => 0x0004,
            ExifGpsTag::GPSAltitudeRef => 0x0005,
            ExifGpsTag::GPSAltitude => 0x0006,
            ExifGpsTag::GPSTimeStamp => 0x0007,
            ExifGpsTag::GPSSatellites => 0x0008,
            ExifGpsTag::GPSStatus => 0x0009,
            ExifGpsTag::GPSMeasureMode => 0x000a,
            ExifGpsTag::GPSDOP => 0x000b,
            ExifGpsTag::GPSSpeedRef => 0x000c,
            ExifGpsTag::GPSSpeed => 0x000d,
            ExifGpsTag::GPSTrackRef => 0x000e,
            ExifGpsTag::GPSTrack => 0x000f,
            ExifGpsTag::GPSImgDirectionRef => 0x0010,
            ExifGpsTag::GPSImgDirection => 0x0011,
            ExifGpsTag::GPSMapDatum => 0x0012,
            ExifGpsTag::GPSDestLatitudeRef => 0x0013,
            ExifGpsTag::GPSDestLatitude => 0x0014,
            ExifGpsTag::GPSDestLongitudeRef => 0x0015,
            ExifGpsTag::GPSDestLongitude => 0x0016,
            ExifGpsTag::GPSDestBearingRef => 0x0017,
            ExifGpsTag::GPSDestBearing => 0x0018,
            ExifGpsTag::GPSDestDistanceRef => 0x0019,
            ExifGpsTag::GPSDestDistance => 0x001a,
            ExifGpsTag::GPSProcessingMethod => 0x001b,
            ExifGpsTag::GPSAreaInformation => 0x001c,
            ExifGpsTag::GPSDateStamp => 0x001d,
            ExifGpsTag::GPSDifferential => 0x001e,
            ExifGpsTag::GPSHPositioningError => 0x001f,
        }
    }

    #[verifier::rlimit(100)]
    fn n(v: u16) -> (r: Option<ExifGpsTag>) {
        match v {
            0x0000 => Some(ExifGpsTag::GPSVersionID),
            0x0001 => Some(ExifGpsTag::GPSLatitudeRef),
            0x0002 => Some(ExifGpsTag::GPSLatitude),
            0x0003 => Some(ExifGpsTag::GPSLongitudeRef),
            0x0004 => Some(ExifGpsTag::GPSLongitude),
            0x0005 => Some(ExifGpsTag::GPSAltitudeRef),
            0x0006 => Some(ExifGpsTag::GPSAltitude),
            0x0007 => Some(ExifGpsTag::GPSTimeStamp),
            0x0008 => Some(ExifGpsTag::GPSSatellites),
            0x0009 => Some(ExifGpsTag::GPSStatus),
            0x000a => Some(ExifGpsTag::GPSMeasureMode),
            0x000b => Some(ExifGpsTag::GPSDOP),
            0x000c => Some(ExifGpsTag::GPSSpeedRef),
            0x000d => Some(ExifGpsTag::GPSSpeed),
            0x000e => Some(ExifGpsTag::GPSTrackRef),
            0x000f => Some(ExifGpsTag::GPSTrack),
            0x0010 => Some(ExifGpsTag::GPSImgDirectionRef),
            0x0011 => Some(ExifGpsTag::GPSImgDirection),
            0x0012 => Some(ExifGpsTag::GPSMapDatum),
            0x0013 => Some(ExifGpsTag::GPSDestLatitudeRef),
            0x0014 => Some(ExifGpsTag::GPSDestLatitude),
            0x0015 => Some(ExifGpsTag::GPSDestLongitudeRef),
            0x0016 => Some(ExifGpsTag::GPSDestLongitude),
            0x0017 => Some(ExifGpsTag::GPSDestBearingRef),
            0x0018 => Some(ExifGpsTag::GPSDestBearing),
            0x0019 => Some(ExifGpsTag::GPSDestDistanceRef),
            0x001a => Some(ExifGpsTag::GPSDestDistance),
            0x001b => Some(ExifGpsTag::GPSProcessingMethod),
            0x001c => Some(ExifGpsTag::GPSAreaInformation),
            0x001d => Some(ExifGpsTag::GPSDateStamp),
            0x001e => Some(ExifGpsTag::GPSDifferential),
            0x001f => Some(ExifGpsTag::GPSHPositioningError),
            _ => None,
        }
    }
}

/// EXIF tags.
#[derive(Debug, Clone, Copy, PartialEq, Eq, Structural)]
pub enum ExifTag {
    InteropIndex,
    InteropVersion,
    ProcessingSoftware,
    SubfileType,
    OldSubfileType,
    ImageWidth,
    ImageHeight,
    BitsPerSample,
    Compression,
    PhotometricInterpretation,
    Thresholding,
    CellWidth,
    CellLength,
    FillOrder,
    DocumentName,
    ImageDescription,
    Make,
    Model,
    StripOffsets,
    Orientation,
    SamplesPerPixel,
    RowsPerStrip,
    StripByteCounts,
    MinSampleValue,
    MaxSampleValue,
    XResolution,
    YResolution,
    PlanarConfiguration,
    PageName,
    XPosition,
    YPosition,
    FreeOffsets,
    FreeByteCounts,
    GrayResponseUnit,
    GrayResponseCurve,
    T4Options,
    T6Options,
    ResolutionUnit,
    PageNumber,
    ColorResponseUnit,
    TransferFunction,
    Software,
    ModifyDate,
    Artist,
    HostComputer,
    Predictor,
    WhitePoint,
    PrimaryChromaticities,
    ColorMap,
    HalftoneHints,
    TileWidth,
    TileLength,
    TileOffsets,
    TileByteCounts,
    BadFaxLines,
    CleanFaxData,
    ConsecutiveBadFaxLines,
    A100DataOffset,
    InkSet,
    InkNames,
    NumberofInks,
    DotRange,
    TargetPrinter,
    ExtraSamples,
    SampleFormat,
    SMinSampleValue,
    SMaxSampleValue,
    TransferRange,
    ClipPath,
    XClipPathUnits,
    YClipPathUnits,
    Indexed,
    JPEGTables,
    OPIProxy,
    GlobalParametersIFD,
    ProfileType,
    FaxProfile,
    CodingMethods,
    VersionYear,
    ModeNumber,
    Decode,
    DefaultImageColor,
    T82Options,
    JPEGTables2,
    JPEGProc,
    JPEGInterchangeFormat,
    JPEGInterchangeFormatLength,
    JPEGRestartInterval,
    JPEGLosslessPredictors,
    JPEGPointTransforms,
    JPEGQTables,
    JPEGDCTables,
    JPEGACTables,
    YCbCrCoefficients,
    YCbCrSubSampling,
    YCbCrPositioning,
    ReferenceBlackWhite,
    StripRowCounts,
    ApplicationNotes,
    USPTOMiscellaneous,
    RelatedImageFileFormat,
    RelatedImageWidth,
    RelatedImageHeight,
    Rating,
    XpDipXml,
    StitchInfo,
    RatingPercent,
    SonyRawFileType,
    SonyToneCurve,
    VignettingCorrection,
    VignettingCorrParams,
    ChromaticAberrationCorrection,
    ChromaticAberrationCorrParams,
    DistortionCorrection,
    DistortionCorrParams,
    SonyRawImageSize,
    SonyCropTopLeft,
    SonyCropSize,
    ImageID,
    WangTag1,
    WangAnnotation,
    WangTag3,
    WangTag4,
    ImageReferencePoints,
    RegionXformTackPoint,
    WarpQuadrilateral,
    AffineTransformMat,
    Matteing,
    DataType,
    ImageDepth,
    TileDepth,
    ImageFullWidth,
    ImageFullHeight,
    TextureFormat,
    WrapModes,
    FovCot,
    MatrixWorldToScreen,
    MatrixWorldToCamera,
    Model2,
    CFARepeatPatternDim,
    CFAPattern2,
    BatteryLevel,
    KodakIFD,
    Copyright,
    ExposureTime,
    FNumber,
    MDFileTag,
    MDScalePixel,
    MDColorTable,
    MDLabName,
    MDSampleInfo,
    MDPrepDate,
    MDPrepTime,
    MDFileUnits,
    PixelScale,
    AdventScale,
    AdventRevision,
    UIC1Tag,
    UIC2Tag,
    UIC3Tag,
    UIC4Tag,
    IptcNaa,
    IntergraphPacketData,
    IntergraphFlagRegisters,
    IntergraphMatrix,
    INGRReserved,
    ModelTiePoint,
    Site,
    ColorSequence,
    IT8Header,
    RasterPadding,
    BitsPerRunLength,
    BitsPerExtendedRunLength,
    ColorTable,
    ImageColorIndicator,
    BackgroundColorIndicator,
    ImageColorValue,
    BackgroundColorValue,
    PixelIntensityRange,
    TransparencyIndicator,
    ColorCharacterization,
    HCUsage,
    TrapIndicator,
    CMYKEquivalent,
    SEMInfo,
    AfcpIPTC,
    PixelMagicJBIGOptions,
    JPLCartoIFD,
    ModelTransform,
    WbGRGBLevels,
    LeafData,
    PhotoshopSettings,
    ExifOffset,
    IccProfile,
    TiffFXExtensions,
    MultiProfiles,
    SharedData,
    T88Options,
    ImageLayer,
    GeoTiffDirectory,
    GeoTiffDoubleParams,
    GeoTiffAsciiParams,
    JBIGOptions,
    ExposureProgram,
    SpectralSensitivity,
    GPSInfo,
    ISOSpeedRatings,
    ElectricConvFactor,
    Interlace,
    TimeZoneOffset,
    SelfTimerMode,
    SensitivityType,
    StandardOutputSensitivity,
    RecommendedExposureIndex,
    ISOSpeed,
    ISOSpeedLatitudeyyy,
    ISOSpeedLatitudezzz,
    LeafSubIFD,
    ExifVersion,
    DateTimeOriginal,
    CreateDate,
    GooglePlusUploadCode,
    OffsetTime,
    OffsetTimeOriginal,
    OffsetTimeDigitized,
    ComponentsConfiguration,
    CompressedBitsPerPixel,
    ShutterSpeedValue,
    ApertureValue,
    BrightnessValue,
    ExposureBiasValue,
    MaxApertureValue,
    SubjectDistance,
    MeteringMode,
    LightSource,
    Flash,
    FocalLength,
    FlashEnergy,
    SpatialFrequencyResponse,
    Noise2,
    FocalPlaneXResolution,
    FocalPlaneYResolution,
    FocalPlaneResolutionUnit,
    ImageNumber,
    SecurityClassification,
    ImageHistory,
    SubjectArea,
    ExposureIndex,
    TiffEPStandardID,
    SensingMethod,
    CIP3DataFile,
    CIP3Sheet,
    CIP3Side,
    StoNits,
    MakerNotes,
    UserComment,
    SubSecTime,
    SubSecTimeOriginal,
    SubSecTimeDigitized,
    MSDocumentText,
    MSPropertySetStorage,
    MSDocumentTextPosition,
    ImageSourceData,
    AmbientTemperature,
    Humidity,
    Pressure,
    WaterDepth,
    Acceleration,
    CameraElevationAngle,
    XPTitle,
    XPComment,
    XPAuthor,
    XPKeywords,
    XPSubject,
    FlashpixVersion,
    ColorSpace,
    ExifImageWidth,
    ExifImageHeight,
    RelatedSoundFile,
    InteropOffset,
    SamsungRawPointersOffset,
    SamsungRawPointersLength,
    SamsungRawByteOrder,
    SamsungRawUnknown,
    FlashEnergy2,
    SpatialFrequencyResponse2,
    Noise,
    FocalPlaneXResolution2,
    FocalPlaneYResolution2,
    FocalPlaneResolutionUnit2,
    ImageNumber2,
    SecurityClassification2,
    ImageHistory2,
    SubjectLocation,
    ExposureIndex2,
    TiffEPStandardID2,
    SensingMethod2,
    FileSource,
    SceneType,
    CFAPattern,
    CustomRendered,
    ExposureMode,
    WhiteBalance,
    DigitalZoomRatio,
    FocalLengthIn35mmFormat,
    SceneCaptureType,
    GainControl,
    Contrast,
    Saturation,
    Sharpness,
    DeviceSettingDescription,
    SubjectDistanceRange,
    ImageUniqueID,
    OwnerName,
    SerialNumber,
    LensSpecification,
    LensMake,
    LensModel,
    LensSerialNumber,
    CompositeImage,
    CompositeImageCount,
    CompositeImageExposureTimes,
    GDALMetadata,
    GDALNoData,
    Gamma,
    ExpandSoftware,
    ExpandLens,
    ExpandFilm,
    ExpandFilterLens,
    ExpandScanner,
    ExpandFlashLamp,
    HasselbladRawImage,
    PixelFormat,
    Transformation,
    Uncompressed,
    ImageType,
    Annotations,
    PrintIM,
    HasselbladExif,
    OriginalFileName,
}

impl TiffTag for ExifTag {
    open spec fn spec_u16(self) -> u16 {
        match self {
            ExifTag::InteropIndex => 0x0001,
            ExifTag::InteropVersion => 0x0002,
            ExifTag::ProcessingSoftware => 0x000b,
            ExifTag::SubfileType => 0x00fe,
            ExifTag::OldSubfileType => 0x00ff,
            ExifTag::ImageWidth => 0x100,
            ExifTag::ImageHeight => 0x101,
            ExifTag::BitsPerSample => 0x0102,
            ExifTag::Compression => 0x0103,
            ExifTag::PhotometricInterpretation => 0x0106,
            ExifTag::Thresholding => 0x0107,
            ExifTag::CellWidth => 0x0108,
            ExifTag::CellLength => 0x0109,
            ExifTag::FillOrder => 0x010a,
            ExifTag::DocumentName => 0x010d,
            ExifTag::ImageDescription => 0x010e,
            ExifTag::Make => 0x010f,
            ExifTag::Model => 0x0110,
            ExifTag::StripOffsets => 0x0111,
            ExifTag::Orientation => 0x0112,
            ExifTag::SamplesPerPixel => 0x0115,
            ExifTag::RowsPerStrip => 0x0116,
            ExifTag::StripByteCounts => 0x0117,
            ExifTag::MinSampleValue => 0x0118,
            ExifTag::MaxSampleValue => 0x0119,
            ExifTag::XResolution => 0x011a,
            ExifTag::YResolution => 0x011b,
            ExifTag::PlanarConfiguration => 0x011c,
            ExifTag::PageName => 0x011d,
            ExifTag::XPosition => 0x011e,
            ExifTag::YPosition => 0x011f,
            ExifTag::FreeOffsets => 0x0120,
            ExifTag::FreeByteCounts => 0x0121,
            ExifTag::GrayResponseUnit => 0x0122,
            ExifTag::GrayResponseCurve => 0x0123,
            ExifTag::T4Options => 0x0124,
            ExifTag::T6Options => 0x0125,
            ExifTag::ResolutionUnit => 0x0128,
            ExifTag::PageNumber => 0x0129,
            ExifTag::ColorResponseUnit => 0x012c,
            ExifTag::TransferFunction => 0x012d,
            ExifTag::Software => 0x0131,
            ExifTag::ModifyDate => 0x0132,
            ExifTag::Artist => 0x013b,
            ExifTag::HostComputer => 0x0103c,
            ExifTag::Predictor => 0x013d,
            ExifTag::WhitePoint => 0x013e,
            ExifTag::PrimaryChromaticities => 0x013f,
            ExifTag::ColorMap => 0x0140,
            ExifTag::HalftoneHints => 0x0141,
            ExifTag::TileWidth => 0x0142,
            ExifTag::TileLength => 0x0143,
            ExifTag::TileOffsets => 0x0144,
            ExifTag::TileByteCounts => 0x0145,
            ExifTag::BadFaxLines => 0x0146,
            ExifTag::CleanFaxData => 0x0147,
            ExifTag::ConsecutiveBadFaxLines => 0x0148,
            ExifTag::A100DataOffset => 0x014a,
            ExifTag::InkSet => 0x014c,
            ExifTag::InkNames => 0x014d,
            ExifTag::NumberofInks => 0x014e,
            ExifTag::DotRange => 0x0150,
            ExifTag::TargetPrinter => 0x0151,
            ExifTag::ExtraSamples => 0x0152,
            ExifTag::SampleFormat => 0x0153,
            ExifTag::SMinSampleValue => 0x0154,
            ExifTag::SMaxSampleValue => 0x0155,
            ExifTag::TransferRange => 0x0156,
            ExifTag::ClipPath => 0x0157,
            ExifTag::XClipPathUnits => 0x0158,
            ExifTag::YClipPathUnits => 0x0159,
            ExifTag::Indexed => 0x015a,
            ExifTag::JPEGTables => 0x015b,
            ExifTag::OPIProxy => 0x015f,
            ExifTag::GlobalParametersIFD => 0x0190,
            ExifTag::ProfileType => 0x0191,
            ExifTag::FaxProfile => 0x0192,
            ExifTag::CodingMethods => 0x0193,
            ExifTag::VersionYear => 0x0194,
            ExifTag::ModeNumber => 0x0195,
            ExifTag::Decode => 0x01b1,
            ExifTag::DefaultImageColor => 0x01b2,
            ExifTag::T82Options => 0x01b3,
            ExifTag::JPEGTables2 => 0x01b5,
            ExifTag::JPEGProc => 0x0200,
            ExifTag::JPEGInterchangeFormat => 0x0201,
            ExifTag::JPEGInterchangeFormatLength => 0x0202,
            ExifTag::JPEGRestartInterval => 0x0203,
            ExifTag::JPEGLosslessPredictors => 0x0205,
            ExifTag::JPEGPointTransforms => 0x0206,
            ExifTag::JPEGQTables => 0x0207,
            ExifTag::JPEGDCTables => 0x0208,
            ExifTag::JPEGACTables => 0x0209,
            ExifTag::YCbCrCoefficients => 0x0211,
            ExifTag::YCbCrSubSampling => 0x0212,
            ExifTag::YCbCrPositioning => 0x0213,
            ExifTag::ReferenceBlackWhite => 0x0214,
            ExifTag::StripRowCounts => 0x022f,
            ExifTag::ApplicationNotes => 0x02bc,
            ExifTag::USPTOMiscellaneous => 0x03e7,
            ExifTag::RelatedImageFileFormat => 0x1000,
            ExifTag::RelatedImageWidth => 0x1001,
            ExifTag::RelatedImageHeight => 0x1002,
            ExifTag::Rating => 0x4746,
            ExifTag::XpDipXml => 0x4747,
            ExifTag::StitchInfo => 0x4748,
            ExifTag::RatingPercent => 0x4749,
            ExifTag::SonyRawFileType => 0x7000,
            ExifTag::SonyToneCurve => 0x7010,
            ExifTag::VignettingCorrection => 0x7031,
            ExifTag::VignettingCorrParams => 0x7032,
            ExifTag::ChromaticAberrationCorrection => 0x7034,
            ExifTag::ChromaticAberrationCorrParams => 0x7035,
            ExifTag::DistortionCorrection => 0x7036,
            ExifTag::DistortionCorrParams => 0x7037,
            ExifTag::SonyRawImageSize => 0x7038,
            ExifTag::SonyCropTopLeft => 0x74c7,
            ExifTag::SonyCropSize => 0x74c8,
            ExifTag::ImageID => 0x800d,
            ExifTag::WangTag1 => 0x80a3,
            ExifTag::WangAnnotation => 0x80a4,
            ExifTag::WangTag3 => 0x80a5,
            ExifTag::WangTag4 => 0x80a6,
            ExifTag::ImageReferencePoints => 0x80b9,
            ExifTag::RegionXformTackPoint => 0x80ba,
            ExifTag::WarpQuadrilateral => 0x80bb,
            ExifTag::AffineTransformMat => 0x80bc,
            ExifTag::Matteing => 0x80e3,
            ExifTag::DataType => 0x80e4,
            ExifTag::ImageDepth => 0x80e5,
            ExifTag::TileDepth => 0x80e6,
            ExifTag::ImageFullWidth => 0x8214,
            ExifTag::ImageFullHeight => 0x8215,
            ExifTag::TextureFormat => 0x8216,
            ExifTag::WrapModes => 0x8217,
            ExifTag::FovCot => 0x8218,
            ExifTag::MatrixWorldToScreen => 0x8219,
            ExifTag::MatrixWorldToCamera => 0x821a,
            ExifTag::Model2 => 0x827d,
            ExifTag::CFARepeatPatternDim => 0x828d,
            ExifTag::CFAPattern2 => 0x828e,
            ExifTag::BatteryLevel => 0x828f,
            ExifTag::KodakIFD => 0x8290,
            ExifTag::Copyright => 0x8298,
            ExifTag::ExposureTime => 0x829a,
            ExifTag::FNumber => 0x829d,
            ExifTag::MDFileTag => 0x82a5,
            ExifTag::MDScalePixel => 0x82a6,
            ExifTag::MDColorTable => 0x82a7,
            ExifTag::MDLabName => 0x82a8,
            ExifTag::MDSampleInfo => 0x82a9,
            ExifTag::MDPrepDate => 0x82aa,
            ExifTag::MDPrepTime => 0x82ab,
            ExifTag::MDFileUnits => 0x82ac,
            ExifTag::PixelScale => 0x830e,
            ExifTag::AdventScale => 0x8335,
            ExifTag::AdventRevision => 0x8336,
            ExifTag::UIC1Tag => 0x835c,
            ExifTag::UIC2Tag => 0x835d,
            ExifTag::UIC3Tag => 0x835e,
            ExifTag::UIC4Tag => 0x835f,
            ExifTag::IptcNaa => 0x83bb,
            ExifTag::IntergraphPacketData => 0x847e,
            ExifTag::IntergraphFlagRegisters => 0x847f,
            ExifTag::IntergraphMatrix => 0x8480,
            ExifTag::INGRReserved => 0x8481,
            ExifTag::ModelTiePoint => 0x8482,
            ExifTag::Site => 0x84e0,
            ExifTag::ColorSequence => 0x84e1,
            ExifTag::IT8Header => 0x84e2,
            ExifTag::RasterPadding => 0x84e3,
            ExifTag::BitsPerRunLength => 0x84e4,
            ExifTag::BitsPerExtendedRunLength => 0x84e5,
            ExifTag::ColorTable => 0x84e6,
            ExifTag::ImageColorIndicator => 0x84e7,
            ExifTag::BackgroundColorIndicator => 0x84e8,
            ExifTag::ImageColorValue => 0x84e9,
            ExifTag::BackgroundColorValue => 0x84ea,
            ExifTag::PixelIntensityRange => 0x84eb,
            ExifTag::TransparencyIndicator => 0x84ec,
            ExifTag::ColorCharacterization => 0x84ed,
            ExifTag::HCUsage => 0x84ee,
            ExifTag::TrapIndicator => 0x84ef,
            ExifTag::CMYKEquivalent => 0x84f0,
            ExifTag::SEMInfo => 0x8546,
            ExifTag::AfcpIPTC => 0x8568,
            ExifTag::PixelMagicJBIGOptions => 0x85b8,
            ExifTag::JPLCartoIFD => 0x85d7,
            ExifTag::ModelTransform => 0x85d8,
            ExifTag::WbGRGBLevels => 0x8602,
            ExifTag::LeafData => 0x8606,
            ExifTag::PhotoshopSettings => 0x8649,
            ExifTag::ExifOffset => 0x8769,
            ExifTag::IccProfile => 0x8773,
            ExifTag::TiffFXExtensions => 0x877f,
            ExifTag::MultiProfiles => 0x8780,
            ExifTag::SharedData => 0x8781,
            ExifTag::T88Options => 0x8782,
            ExifTag::ImageLayer => 0x87ac,
            ExifTag::GeoTiffDirectory => 0x87af,
            ExifTag::GeoTiffDoubleParams => 0x87b0,
            ExifTag::GeoTiffAsciiParams => 0x87b1,
            ExifTag::JBIGOptions => 0x87be,
            ExifTag::ExposureProgram => 0x8822,
            ExifTag::SpectralSensitivity => 0x8824,
            ExifTag::GPSInfo => 0x8825,
            ExifTag::ISOSpeedRatings => 0x8827,
            ExifTag::ElectricConvFactor => 0x8828,
            ExifTag::Interlace => 0x8829,
            ExifTag::TimeZoneOffset => 0x882a,
            ExifTag::SelfTimerMode => 0x882b,
            ExifTag::SensitivityType => 0x8830,
            ExifTag::StandardOutputSensitivity => 0x8831,
            ExifTag::RecommendedExposureIndex => 0x8832,
            ExifTag::ISOSpeed => 0x8833,
            ExifTag::ISOSpeedLatitudeyyy => 0x8834,
            ExifTag::ISOSpeedLatitudezzz => 0x8835,
            ExifTag::LeafSubIFD => 0x888a,
            ExifTag::ExifVersion => 0x9000,
            ExifTag::DateTimeOriginal => 0x9003,
            ExifTag::CreateDate => 0x9004,
            ExifTag::GooglePlusUploadCode => 0x9009,
            ExifTag::OffsetTime => 0x9010,
            ExifTag::OffsetTimeOriginal => 0x9011,
            ExifTag::OffsetTimeDigitized => 0x9012,
            ExifTag::ComponentsConfiguration => 0x9101,
            ExifTag::CompressedBitsPerPixel => 0x9102,
            ExifTag::ShutterSpeedValue => 0x9201,
            ExifTag::ApertureValue => 0x9202,
            ExifTag::BrightnessValue => 0x9203,
            ExifTag::ExposureBiasValue => 0x9204,
            ExifTag::MaxApertureValue => 0x9205,
            ExifTag::SubjectDistance => 0x9206,
            ExifTag::MeteringMode => 0x9207,
            ExifTag::LightSource => 0x9208,
            ExifTag::Flash => 0x9209,
            ExifTag::FocalLength => 0x920a,
            ExifTag::FlashEnergy => 0x920b,
            ExifTag::SpatialFrequencyResponse => 0x920c,
            ExifTag::Noise2 => 0x920d,
            ExifTag::FocalPlaneXResolution => 0x920e,
            ExifTag::FocalPlaneYResolution => 0x920f,
            ExifTag::FocalPlaneResolutionUnit => 0x9210,
            ExifTag::ImageNumber => 0x9211,
            ExifTag::SecurityClassification => 0x9212,
            ExifTag::ImageHistory => 0x9213,
            ExifTag::SubjectArea => 0x9214,
            ExifTag::ExposureIndex => 0x9215,
            ExifTag::TiffEPStandardID => 0x9216,
            ExifTag::SensingMethod => 0x9217,
            ExifTag::CIP3DataFile => 0x923a,
            ExifTag::CIP3Sheet => 0x923b,
            ExifTag::CIP3Side => 0x923c,
            ExifTag::StoNits => 0x923f,
            ExifTag::MakerNotes => 0x927c,
            ExifTag::UserComment => 0x9286,
            ExifTag::SubSecTime => 0x9290,
            ExifTag::SubSecTimeOriginal => 0x9291,
            ExifTag::SubSecTimeDigitized => 0x9292,
            ExifTag::MSDocumentText => 0x932f,
            ExifTag::MSPropertySetStorage => 0x9330,
            ExifTag::MSDocumentTextPosition => 0x9331,
            ExifTag::ImageSourceData => 0x935c,
            ExifTag::AmbientTemperature => 0x9400,
            ExifTag::Humidity => 0x9401,
            ExifTag::Pressure => 0x9402,
            ExifTag::WaterDepth => 0x9403,
            ExifTag::Acceleration => 0x9404,
            ExifTag::CameraElevationAngle => 0x9405,
            ExifTag::XPTitle => 0x9c9b,
            ExifTag::XPComment => 0x9c9c,
            ExifTag::XPAuthor => 0x9c9d,
            ExifTag::XPKeywords => 0x9c9e,
            ExifTag::XPSubject => 0x9c9f,
            ExifTag::FlashpixVersion => 0xa000,
            ExifTag::ColorSpace => 0xa001,
            ExifTag::ExifImageWidth => 0xa002,
            ExifTag::ExifImageHeight => 0xa003,
            ExifTag::RelatedSoundFile => 0xa004,
            ExifTag::InteropOffset => 0xa005,
            ExifTag::SamsungRawPointersOffset => 0xa010,
            ExifTag::SamsungRawPointersLength => 0xa011,
            ExifTag::SamsungRawByteOrder => 0xa101,
            ExifTag::SamsungRawUnknown => 0xa102,
            ExifTag::FlashEnergy2 => 0xa20b,
            ExifTag::SpatialFrequencyResponse2 => 0xa20c,
            ExifTag::Noise => 0xa20d,
            ExifTag::FocalPlaneXResolution2 => 0xa20e,
            ExifTag::FocalPlaneYResolution2 => 0xa20f,
            ExifTag::FocalPlaneResolutionUnit2 => 0xa210,
            ExifTag::ImageNumber2 => 0xa211,
            ExifTag::SecurityClassification2 => 0xa212,
            ExifTag::ImageHistory2 => 0xa213,
            ExifTag::SubjectLocation => 0xa214,
            ExifTag::ExposureIndex2 => 0xa215,
            ExifTag::TiffEPStandardID2 => 0xa216,
            ExifTag::SensingMethod2 => 0xa217,
            ExifTag::FileSource => 0xa300,
            ExifTag::SceneType => 0xa301,
            ExifTag::CFAPattern => 0xa302,
            ExifTag::CustomRendered => 0xa401,
            ExifTag::ExposureMode => 0xa402,
            ExifTag::WhiteBalance => 0xa403,
            ExifTag::DigitalZoomRatio => 0xa404,
            ExifTag::FocalLengthIn35mmFormat => 0xa405,
            ExifTag::SceneCaptureType => 0xa406,
            ExifTag::GainControl => 0xa407,
            ExifTag::Contrast => 0xa408,
            ExifTag::Saturation => 0xa409,
            ExifTag::Sharpness => 0xa40a,
            ExifTag::DeviceSettingDescription => 0xa40b,
            ExifTag::SubjectDistanceRange => 0xa40c,
            ExifTag::ImageUniqueID => 0xa420,
            ExifTag::OwnerName => 0xa430,
            ExifTag::SerialNumber => 0xa431,
            ExifTag::LensSpecification => 0xa432,
            ExifTag::LensMake => 0xa433,
            ExifTag::LensModel => 0xa434,
            ExifTag::LensSerialNumber => 0xa435,
            ExifTag::CompositeImage => 0xa460,
            ExifTag::CompositeImageCount => 0xa461,
            ExifTag::CompositeImageExposureTimes => 0xa462,
            ExifTag::GDALMetadata => 0xa480,
            ExifTag::GDALNoData => 0xa481,
            ExifTag::Gamma => 0xa500,
            ExifTag::ExpandSoftware => 0xafc0,
            ExifTag::ExpandLens => 0xafc1,
            ExifTag::ExpandFilm => 0xafc2,
            ExifTag::ExpandFilterLens => 0xafc3,
            ExifTag::ExpandScanner => 0xafc4,
            ExifTag::ExpandFlashLamp => 0xafc5,
            ExifTag::HasselbladRawImage => 0xb4c3,
            ExifTag::PixelFormat => 0xbc01,
            ExifTag::Transformation => 0xbc02,
            ExifTag::Uncompressed => 0xbc03,
            ExifTag::ImageType => 0xbc04,
            ExifTag::Annotations => 0xc44f,
            ExifTag::PrintIM => 0xc4a5,
            ExifTag::HasselbladExif => 0xc51b,
            ExifTag::OriginalFileName => 0xc573,
        }
    }

    fn to_u16(self) -> (r: u16) {
        match self {
            ExifTag::InteropIndex => 0x0001,
            ExifTag::InteropVersion => 0x0002,
            ExifTag::ProcessingSoftware => 0x000b,
            ExifTag::SubfileType => 0x00fe,
            ExifTag::OldSubfileType => 0x00ff,
            ExifTag::ImageWidth => 0x100,
            ExifTag::ImageHeight => 0x101,
            ExifTag::BitsPerSample => 0x0102,
            ExifTag::Compression => 0x0103,
            ExifTag::PhotometricInterpretation => 0x0106,
            ExifTag::Thresholding => 0x0107,
            ExifTag::CellWidth => 0x0108,
            ExifTag::CellLength => 0x0109,
            ExifTag::FillOrder => 0x010a,
            ExifTag::DocumentName => 0x010d,
            ExifTag::ImageDescription => 0x010e,
            ExifTag::Make => 0x010f,
            ExifTag::Model => 0x0110,
            ExifTag::StripOffsets => 0x0111,
            ExifTag::Orientation => 0x0112,
            ExifTag::SamplesPerPixel => 0x0115,
            ExifTag::RowsPerStrip => 0x0116,
            ExifTag::StripByteCounts => 0x0117,
            ExifTag::MinSampleValue => 0x0118,
            ExifTag::MaxSampleValue => 0x0119,
            ExifTag::XResolution => 0x011a,
            ExifTag::YResolution => 0x011b,
            ExifTag::PlanarConfiguration => 0x011c,
            ExifTag::PageName => 0x011d,
            ExifTag::XPosition => 0x011e,
            ExifTag::YPosition => 0x011f,
            ExifTag::FreeOffsets => 0x0120,
            ExifTag::FreeByteCounts => 0x0121,
            ExifTag::GrayResponseUnit => 0x0122,
            ExifTag::GrayResponseCurve => 0x0123,
            ExifTag::T4Options => 0x0124,
            ExifTag::T6Options => 0x0125,
            ExifTag::ResolutionUnit => 0x0128,
            ExifTag::PageNumber => 0x0129,
            ExifTag::ColorResponseUnit => 0x012c,
            ExifTag::TransferFunction => 0x012d,
            ExifTag::Software => 0x0131,
            ExifTag::ModifyDate => 0x0132,
            ExifTag::Artist => 0x013b,
            ExifTag::HostComputer => 0x0103c,
            ExifTag::Predictor => 0x013d,
            ExifTag::WhitePoint => 0x013e,
            ExifTag::PrimaryChromaticities => 0x013f,
            ExifTag::ColorMap => 0x0140,
            ExifTag::HalftoneHints => 0x0141,
            ExifTag::TileWidth => 0x0142,
            ExifTag::TileLength => 0x0143,
            ExifTag::TileOffsets => 0x0144,
            ExifTag::TileByteCounts => 0x0145,
            ExifTag::BadFaxLines => 0x0146,
            ExifTag::CleanFaxData => 0x0147,
            ExifTag::ConsecutiveBadFaxLines => 0x0148,
            ExifTag::A100DataOffset => 0x014a,
            ExifTag::InkSet => 0x014c,
            ExifTag::InkNames => 0x014d,
            ExifTag::NumberofInks => 0x014e,
            ExifTag::DotRange => 0x0150,
            ExifTag::TargetPrinter => 0x0151,
            ExifTag::ExtraSamples => 0x0152,
            ExifTag::SampleFormat => 0x0153,
            ExifTag::SMinSampleValue => 0x0154,
            ExifTag::SMaxSampleValue => 0x0155,
            ExifTag::TransferRange => 0x0156,
            ExifTag::ClipPath => 0x0157,
            ExifTag::XClipPathUnits => 0x0158,
            ExifTag::YClipPathUnits => 0x0159,
            ExifTag::Indexed => 0x015a,
            ExifTag::JPEGTables => 0x015b,
            ExifTag::OPIProxy => 0x015f,
            ExifTag::GlobalParametersIFD => 0x0190,
            ExifTag::ProfileType => 0x0191,
            ExifTag::FaxProfile => 0x0192,
            ExifTag::CodingMethods => 0x0193,
            ExifTag::VersionYear => 0x0194,
            ExifTag::ModeNumber => 0x0195,
            ExifTag::Decode => 0x01b1,
            ExifTag::DefaultImageColor => 0x01b2,
            ExifTag::T82Options => 0x01b3,
            ExifTag::JPEGTables2 => 0x01b5,
            ExifTag::JPEGProc => 0x0200,
            ExifTag::JPEGInterchangeFormat => 0x0201,
            ExifTag::JPEGInterchangeFormatLength => 0x0202,
            ExifTag::JPEGRestartInterval => 0x0203,
            ExifTag::JPEGLosslessPredictors => 0x0205,
            ExifTag::JPEGPointTransforms => 0x0206,
            ExifTag::JPEGQTables => 0x0207,
            ExifTag::JPEGDCTables => 0x0208,
            ExifTag::JPEGACTables => 0x0209,
            ExifTag::YCbCrCoefficients => 0x0211,
            ExifTag::YCbCrSubSampling => 0x0212,
            ExifTag::YCbCrPositioning => 0x0213,
            ExifTag::ReferenceBlackWhite => 0x0214,
            ExifTag::StripRowCounts => 0x022f,
            ExifTag::ApplicationNotes => 0x02bc,
            ExifTag::USPTOMiscellaneous => 0x03e7,
            ExifTag::RelatedImageFileFormat => 0x1000,
            ExifTag::RelatedImageWidth => 0x1001,
            ExifTag::RelatedImageHeight => 0x1002,
            ExifTag::Rating => 0x4746,
            ExifTag::XpDipXml => 0x4747,
            ExifTag::StitchInfo => 0x4748,
            ExifTag::RatingPercent => 0x4749,
            ExifTag::SonyRawFileType => 0x7000,
            ExifTag::SonyToneCurve => 0x7010,
            ExifTag::VignettingCorrection => 0x7031,
            ExifTag::VignettingCorrParams => 0x7032,
            ExifTag::ChromaticAberrationCorrection => 0x7034,
            ExifTag::ChromaticAberrationCorrParams => 0x7035,
            ExifTag::DistortionCorrection => 0x7036,
            ExifTag::DistortionCorrParams => 0x7037,
            ExifTag::SonyRawImageSize => 0x7038,
            ExifTag::SonyCropTopLeft => 0x74c7,
            ExifTag::SonyCropSize => 0x74c8,
            ExifTag::ImageID => 0x800d,
            ExifTag::WangTag1 => 0x80a3,
            ExifTag::WangAnnotation => 0x80a4,
            ExifTag::WangTag3 => 0x80a5,
            ExifTag::WangTag4 => 0x80a6,
            ExifTag::ImageReferencePoints => 0x80b9,
            ExifTag::RegionXformTackPoint => 0x80ba,
            ExifTag::WarpQuadrilateral => 0x80bb,
            ExifTag::AffineTransformMat => 0x80bc,
            ExifTag::Matteing => 0x80e3,
            ExifTag::DataType => 0x80e4,
            ExifTag::ImageDepth => 0x80e5,
            ExifTag::TileDepth => 0x80e6,
            ExifTag::ImageFullWidth => 0x8214,
            ExifTag::ImageFullHeight => 0x8215,
            ExifTag::TextureFormat => 0x8216,
            ExifTag::WrapModes => 0x8217,
            ExifTag::FovCot => 0x8218,
            ExifTag::MatrixWorldToScreen => 0x8219,
            ExifTag::MatrixWorldToCamera => 0x821a,
            ExifTag::Model2 => 0x827d,
            ExifTag::CFARepeatPatternDim => 0x828d,
            ExifTag::CFAPattern2 => 0x828e,
            ExifTag::BatteryLevel => 0x828f,
            ExifTag::KodakIFD => 0x8290,
            ExifTag::Copyright => 0x8298,
            ExifTag::ExposureTime => 0x829a,
            ExifTag::FNumber => 0x829d,
            ExifTag::MDFileTag => 0x82a5,
            ExifTag::MDScalePixel => 0x82a6,
            ExifTag::MDColorTable => 0x82a7,
            ExifTag::MDLabName => 0x82a8,
            ExifTag::MDSampleInfo => 0x82a9,
            ExifTag::MDPrepDate => 0x82aa,
            ExifTag::MDPrepTime => 0x82ab,
            ExifTag::MDFileUnits => 0x82ac,
            ExifTag::PixelScale => 0x830e,
            ExifTag::AdventScale => 0x8335,
            ExifTag::AdventRevision => 0x8336,
            ExifTag::UIC1Tag => 0x835c,
            ExifTag::UIC2Tag => 0x835d,
            ExifTag::UIC3Tag => 0x835e,
            ExifTag::UIC4Tag => 0x835f,
            ExifTag::IptcNaa => 0x83bb,
            ExifTag::IntergraphPacketData => 0x847e,
            ExifTag::IntergraphFlagRegisters => 0x847f,
            ExifTag::IntergraphMatrix => 0x8480,
            ExifTag::INGRReserved => 0x8481,
            ExifTag::ModelTiePoint => 0x8482,
            ExifTag::Site => 0x84e0,
            ExifTag::ColorSequence => 0x84e1,
            ExifTag::IT8Header => 0x84e2,
            ExifTag::RasterPadding => 0x84e3,
            ExifTag::BitsPerRunLength => 0x84e4,
            ExifTag::BitsPerExtendedRunLength => 0x84e5,
            ExifTag::ColorTable => 0x84e6,
            ExifTag::ImageColorIndicator => 0x84e7,
            ExifTag::BackgroundColorIndicator => 0x84e8,
            ExifTag::ImageColorValue => 0x84e9,
            ExifTag::BackgroundColorValue => 0x84ea,
            ExifTag::PixelIntensityRange => 0x84eb,
            ExifTag::TransparencyIndicator => 0x84ec,
            ExifTag::ColorCharacterization => 0x84ed,
            ExifTag::HCUsage => 0x84ee,
            ExifTag::TrapIndicator => 0x84ef,
            ExifTag::CMYKEquivalent => 0x84f0,
            ExifTag::SEMInfo => 0x8546,
            ExifTag::AfcpIPTC => 0x8568,
            ExifTag::PixelMagicJBIGOptions => 0x85b8,
            ExifTag::JPLCartoIFD => 0x85d7,
            ExifTag::ModelTransform => 0x85d8,
            ExifTag::WbGRGBLevels => 0x8602,
            ExifTag::LeafData => 0x8606,
            ExifTag::PhotoshopSettings => 0x8649,
            ExifTag::ExifOffset => 0x8769,
            ExifTag::IccProfile => 0x8773,
            ExifTag::TiffFXExtensions => 0x877f,
            ExifTag::MultiProfiles => 0x8780,
            ExifTag::SharedData => 0x8781,
            ExifTag::T88Options => 0x8782,
            ExifTag::ImageLayer => 0x87ac,
            ExifTag::GeoTiffDirectory => 0x87af,
            ExifTag::GeoTiffDoubleParams => 0x87b0,
            ExifTag::GeoTiffAsciiParams => 0x87b1,
            ExifTag::JBIGOptions => 0x87be,
            ExifTag::ExposureProgram => 0x8822,
            ExifTag::SpectralSensitivity => 0x8824,
            ExifTag::GPSInfo => 0x8825,
            ExifTag::ISOSpeedRatings => 0x8827,
            ExifTag::ElectricConvFactor => 0x8828,
            ExifTag::Interlace => 0x8829,
            ExifTag::TimeZoneOffset => 0x882a,
            ExifTag::SelfTimerMode => 0x882b,
            ExifTag::SensitivityType => 0x8830,
            ExifTag::StandardOutputSensitivity => 0x8831,
            ExifTag::RecommendedExposureIndex => 0x8832,
            ExifTag::ISOSpeed => 0x8833,
            ExifTag::ISOSpeedLatitudeyyy => 0x8834,
            ExifTag::ISOSpeedLatitudezzz => 0x8835,
            ExifTag::LeafSubIFD => 0x888a,
            ExifTag::ExifVersion => 0x9000,
            ExifTag::DateTimeOriginal => 0x9003,
            ExifTag::CreateDate => 0x9004,
            ExifTag::GooglePlusUploadCode => 0x9009,
            ExifTag::OffsetTime => 0x9010,
            ExifTag::OffsetTimeOriginal => 0x9011,
            ExifTag::OffsetTimeDigitized => 0x9012,
            ExifTag::ComponentsConfiguration => 0x9101,
            ExifTag::CompressedBitsPerPixel => 0x9102,
            ExifTag::ShutterSpeedValue => 0x9201,
            ExifTag::ApertureValue => 0x9202,
            ExifTag::BrightnessValue => 0x9203,
            ExifTag::ExposureBiasValue => 0x9204,
            ExifTag::MaxApertureValue => 0x9205,
            ExifTag::SubjectDistance => 0x9206,
            ExifTag::MeteringMode => 0x9207,
            ExifTag::LightSource => 0x9208,
            ExifTag::Flash => 0x9209,
            ExifTag::FocalLength => 0x920a,
            ExifTag::FlashEnergy => 0x920b,
            ExifTag::SpatialFrequencyResponse => 0x920c,
            ExifTag::Noise2 => 0x920d,
            ExifTag::FocalPlaneXResolution => 0x920e,
            ExifTag::FocalPlaneYResolution => 0x920f,
            ExifTag::FocalPlaneResolutionUnit => 0x9210,
            ExifTag::ImageNumber => 0x9211,
            ExifTag::SecurityClassification => 0x9212,
            ExifTag::ImageHistory => 0x9213,
            ExifTag::SubjectArea => 0x9214,
            ExifTag::ExposureIndex => 0x9215,
            ExifTag::TiffEPStandardID => 0x9216,
            ExifTag::SensingMethod => 0x9217,
            ExifTag::CIP3DataFile => 0x923a,
            ExifTag::CIP3Sheet => 0x923b,
            ExifTag::CIP3Side => 0x923c,
            ExifTag::StoNits => 0x923f,
            ExifTag::MakerNotes => 0x927c,
            ExifTag::UserComment => 0x9286,
            ExifTag::SubSecTime => 0x9290,
            ExifTag::SubSecTimeOriginal => 0x9291,
            ExifTag::SubSecTimeDigitized => 0x9292,
            ExifTag::MSDocumentText => 0x932f,
            ExifTag::MSPropertySetStorage => 0x9330,
            ExifTag::MSDocumentTextPosition => 0x9331,
            ExifTag::ImageSourceData => 0x935c,
            ExifTag::AmbientTemperature => 0x9400,
            ExifTag::Humidity => 0x9401,
            ExifTag::Pressure => 0x9402,
            ExifTag::WaterDepth => 0x9403,
            ExifTag::Acceleration => 0x9404,
            ExifTag::CameraElevationAngle => 0x9405,
            ExifTag::XPTitle => 0x9c9b,
            ExifTag::XPComment => 0x9c9c,
            ExifTag::XPAuthor => 0x9c9d,
            ExifTag::XPKeywords => 0x9c9e,
            ExifTag::XPSubject => 0x9c9f,
            ExifTag::FlashpixVersion => 0xa000,
            ExifTag::ColorSpace => 0xa001,
            ExifTag::ExifImageWidth => 0xa002,
            ExifTag::ExifImageHeight => 0xa003,
            ExifTag::RelatedSoundFile => 0xa004,
            ExifTag::InteropOffset => 0xa005,
            ExifTag::SamsungRawPointersOffset => 0xa010,
            ExifTag::SamsungRawPointersLength => 0xa011,
            ExifTag::SamsungRawByteOrder => 0xa101,
            ExifTag::SamsungRawUnknown => 0xa102,
            ExifTag::FlashEnergy2 => 0xa20b,
            ExifTag::SpatialFrequencyResponse2 => 0xa20c,
            ExifTag::Noise => 0xa20d,
            ExifTag::FocalPlaneXResolution2 => 0xa20e,
            ExifTag::FocalPlaneYResolution2 => 0xa20f,
            ExifTag::FocalPlaneResolutionUnit2 => 0xa210,
            ExifTag::ImageNumber2 => 0xa211,
            ExifTag::SecurityClassification2 => 0xa212,
            ExifTag::ImageHistory2 => 0xa213,
            ExifTag::SubjectLocation => 0xa214,
            ExifTag::ExposureIndex2 => 0xa215,
            ExifTag::TiffEPStandardID2 => 0xa216,
            ExifTag::SensingMethod2 => 0xa217,
            ExifTag::FileSource => 0xa300,
            ExifTag::SceneType => 0xa301,
            ExifTag::CFAPattern => 0xa302,
            ExifTag::CustomRendered => 0xa401,
            ExifTag::ExposureMode => 0xa402,
            ExifTag::WhiteBalance => 0xa403,
            ExifTag::DigitalZoomRatio => 0xa404,
            ExifTag::FocalLengthIn35mmFormat => 0xa405,
            ExifTag::SceneCaptureType => 0xa406,
            ExifTag::GainControl => 0xa407,
            ExifTag::Contrast => 0xa408,
            ExifTag::Saturation => 0xa409,
            ExifTag::Sharpness => 0xa40a,
            ExifTag::DeviceSettingDescription => 0xa40b,
            ExifTag::SubjectDistanceRange => 0xa40c,
            ExifTag::ImageUniqueID => 0xa420,
            ExifTag::OwnerName => 0xa430,
            ExifTag::SerialNumber => 0xa431,
            ExifTag::LensSpecification => 0xa432,
            ExifTag::LensMake => 0xa433,
            ExifTag::LensModel => 0xa434,
            ExifTag::LensSerialNumber => 0xa435,
            ExifTag::CompositeImage => 0xa460,
            ExifTag::CompositeImageCount => 0xa461,
            ExifTag::CompositeImageExposureTimes => 0xa462,
            ExifTag::GDALMetadata => 0xa480,
            ExifTag::GDALNoData => 0xa481,
            ExifTag::Gamma => 0xa500,
            ExifTag::ExpandSoftware => 0xafc0,
            ExifTag::ExpandLens => 0xafc1,
            ExifTag::ExpandFilm => 0xafc2,
            ExifTag::ExpandFilterLens => 0xafc3,
            ExifTag::ExpandScanner => 0xafc4,
            ExifTag::ExpandFlashLamp => 0xafc5,
            ExifTag::HasselbladRawImage => 0xb4c3,
            ExifTag::PixelFormat => 0xbc01,
            ExifTag::Transformation => 0xbc02,
            ExifTag::Uncompressed => 0xbc03,
            ExifTag::ImageType => 0xbc04,
            ExifTag::Annotations => 0xc44f,
            ExifTag::PrintIM => 0xc4a5,
            ExifTag::HasselbladExif => 0xc51b,
            ExifTag::OriginalFileName => 0xc573,
        }
    }

    #[verifier::rlimit(100)]
    fn n(v: u16) -> (r: Option<ExifTag>) {
        match v {
            0x0001 => Some(ExifTag::InteropIndex),
            0x0002 => Some(ExifTag::InteropVersion),
            0x000b => Some(ExifTag::ProcessingSoftware),
            0x00fe => Some(ExifTag::SubfileType),
            0x00ff => Some(ExifTag::OldSubfileType),
            0x100 => Some(ExifTag::ImageWidth),
            0x101 => Some(ExifTag::ImageHeight),
            0x0102 => Some(ExifTag::BitsPerSample),
            0x0103 => Some(ExifTag::Compression),
            0x0106 => Some(ExifTag::PhotometricInterpretation),
            0x0107 => Some(ExifTag::Thresholding),
            0x0108 => Some(ExifTag::CellWidth),
            0x0109 => Some(ExifTag::CellLength),
            0x010a => Some(ExifTag::FillOrder),
            0x010d => Some(ExifTag::DocumentName),
            0x010e => Some(ExifTag::ImageDescription),
            0x010f => Some(ExifTag::Make),
            0x0110 => Some(ExifTag::Model),
            0x0111 => Some(ExifTag::StripOffsets),
            0x0112 => Some(ExifTag::Orientation),
            0x0115 => Some(ExifTag::SamplesPerPixel),
            0x0116 => Some(ExifTag::RowsPerStrip),
            0x0117 => Some(ExifTag::StripByteCounts),
            0x0118 => Some(ExifTag::MinSampleValue),
            0x0119 => Some(ExifTag::MaxSampleValue),
            0x011a => Some(ExifTag::XResolution),
            0x011b => Some(ExifTag::YResolution),
            0x011c => Some(ExifTag::PlanarConfiguration),
            0x011d => Some(ExifTag::PageName),
            0x011e => Some(ExifTag::XPosition),
            0x011f => Some(ExifTag::YPosition),
            0x0120 => Some(ExifTag::FreeOffsets),
            0x0121 => Some(ExifTag::FreeByteCounts),
            0x0122 => Some(ExifTag::GrayResponseUnit),
            0x0123 => Some(ExifTag::GrayResponseCurve),
            0x0124 => Some(ExifTag::T4Options),
            0x0125 => Some(ExifTag::T6Options),
            0x0128 => Some(ExifTag::ResolutionUnit),
            0x0129 => Some(ExifTag::PageNumber),
            0x012c => Some(ExifTag::ColorResponseUnit),
            0x012d => Some(ExifTag::TransferFunction),
            0x0131 => Some(ExifTag::Software),
            0x0132 => Some(ExifTag::ModifyDate),
            0x013b => Some(ExifTag::Artist),
            0x0103c => Some(ExifTag::HostComputer),
            0x013d => Some(ExifTag::Predictor),
            0x013e => Some(ExifTag::WhitePoint),
            0x013f => Some(ExifTag::PrimaryChromaticities),
            0x0140 => Some(ExifTag::ColorMap),
            0x0141 => Some(ExifTag::HalftoneHints),
            0x0142 => Some(ExifTag::TileWidth),
            0x0143 => Some(ExifTag::TileLength),
            0x0144 => Some(ExifTag::TileOffsets),
            0x0145 => Some(ExifTag::TileByteCounts),
            0x0146 => Some(ExifTag::BadFaxLines),
            0x0147 => Some(ExifTag::CleanFaxData),
            0x0148 => Some(ExifTag::ConsecutiveBadFaxLines),
            0x014a => Some(ExifTag::A100DataOffset),
            0x014c => Some(ExifTag::InkSet),
            0x014d => Some(ExifTag::InkNames),
            0x014e => Some(ExifTag::NumberofInks),
            0x0150 => Some(ExifTag::DotRange),
            0x0151 => Some(ExifTag::TargetPrinter),
            0x0152 => Some(ExifTag::ExtraSamples),
            0x0153 => Some(ExifTag::SampleFormat),
            0x0154 => Some(ExifTag::SMinSampleValue),
            0x0155 => Some(ExifTag::SMaxSampleValue),
            0x0156 => Some(ExifTag::TransferRange),
            0x0157 => Some(ExifTag::ClipPath),
            0x0158 => Some(ExifTag::XClipPathUnits),
            0x0159 => Some(ExifTag::YClipPathUnits),
            0x015a => Some(ExifTag::Indexed),
            0x015b => Some(ExifTag::JPEGTables),
            0x015f => Some(ExifTag::OPIProxy),
            0x0190 => Some(ExifTag::GlobalParametersIFD),
            0x0191 => Some(ExifTag::ProfileType),
            0x0192 => Some(ExifTag::FaxProfile),
            0x0193 => Some(ExifTag::CodingMethods),
            0x0194 => Some(ExifTag::VersionYear),
            0x0195 => Some(ExifTag::ModeNumber),
            0x01b1 => Some(ExifTag::Decode),
            0x01b2 => Some(ExifTag::DefaultImageColor),
            0x01b3 => Some(ExifTag::T82Options),
            0x01b5 => Some(ExifTag::JPEGTables2),
            0x0200 => Some(ExifTag::JPEGProc),
            0x0201 => Some(ExifTag::JPEGInterchangeFormat),
            0x0202 => Some(ExifTag::JPEGInterchangeFormatLength),
            0x0203 => Some(ExifTag::JPEGRestartInterval),
            0x0205 => Some(ExifTag::JPEGLosslessPredictors),
            0x0206 => Some(ExifTag::JPEGPointTransforms),
            0x0207 => Some(ExifTag::JPEGQTables),
            0x0208 => Some(ExifTag::JPEGDCTables),
            0x0209 => Some(ExifTag::JPEGACTables),
            0x0211 => Some(ExifTag::YCbCrCoefficients),
            0x0212 => Some(ExifTag::YCbCrSubSampling),
            0x0213 => Some(ExifTag::YCbCrPositioning),
            0x0214 => Some(ExifTag::ReferenceBlackWhite),
            0x022f => Some(ExifTag::StripRowCounts),
            0x02bc => Some(ExifTag::ApplicationNotes),
            0x03e7 => Some(ExifTag::USPTOMiscellaneous),
            0x1000 => Some(ExifTag::RelatedImageFileFormat),
            0x1001 => Some(ExifTag::RelatedImageWidth),
            0x1002 => Some(ExifTag::RelatedImageHeight),
            0x4746 => Some(ExifTag::Rating),
            0x4747 => Some(ExifTag::XpDipXml),
            0x4748 => Some(ExifTag::StitchInfo),
            0x4749 => Some(ExifTag::RatingPercent),
            0x7000 => Some(ExifTag::SonyRawFileType),
            0x7010 => Some(ExifTag::SonyToneCurve),
            0x7031 => Some(ExifTag::VignettingCorrection),
            0x7032 => Some(ExifTag::VignettingCorrParams),
            0x7034 => Some(ExifTag::ChromaticAberrationCorrection),
            0x7035 => Some(ExifTag::ChromaticAberrationCorrParams),
            0x7036 => Some(ExifTag::DistortionCorrection),
            0x7037 => Some(ExifTag::DistortionCorrParams),
            0x7038 => Some(ExifTag::SonyRawImageSize),
            0x74c7 => Some(ExifTag::SonyCropTopLeft),
            0x74c8 => Some(ExifTag::SonyCropSize),
            0x800d => Some(ExifTag::ImageID),
            0x80a3 => Some(ExifTag::WangTag1),
            0x80a4 => Some(ExifTag::WangAnnotation),
            0x80a5 => Some(ExifTag::WangTag3),
            0x80a6 => Some(ExifTag::WangTag4),
            0x80b9 => Some(ExifTag::ImageReferencePoints),
            0x80ba => Some(ExifTag::RegionXformTackPoint),
            0x80bb => Some(ExifTag::WarpQuadrilateral),
            0x80bc => Some(ExifTag::AffineTransformMat),
            0x80e3 => Some(ExifTag::Matteing),
            0x80e4 => Some(ExifTag::DataType),
            0x80e5 => Some(ExifTag::ImageDepth),
            0x80e6 => Some(ExifTag::TileDepth),
            0x8214 => Some(ExifTag::ImageFullWidth),
            0x8215 => Some(ExifTag::ImageFullHeight),
            0x8216 => Some(ExifTag::TextureFormat),
            0x8217 => Some(ExifTag::WrapModes),
            0x8218 => Some(ExifTag::FovCot),
            0x8219 => Some(ExifTag::MatrixWorldToScreen),
            0x821a => Some(ExifTag::MatrixWorldToCamera),
            0x827d => Some(ExifTag::Model2),
            0x828d => Some(ExifTag::CFARepeatPatternDim),
            0x828e => Some(ExifTag::CFAPattern2),
            0x828f => Some(ExifTag::BatteryLevel),
            0x8290 => Some(ExifTag::KodakIFD),
            0x8298 => Some(ExifTag::Copyright),
            0x829a => Some(ExifTag::ExposureTime),
            0x829d => Some(ExifTag::FNumber),
            0x82a5 => Some(ExifTag::MDFileTag),
            0x82a6 => Some(ExifTag::MDScalePixel),
            0x82a7 => Some(ExifTag::MDColorTable),
            0x82a8 => Some(ExifTag::MDLabName),
            0x82a9 => Some(ExifTag::MDSampleInfo),
            0x82aa => Some(ExifTag::MDPrepDate),
            0x82ab => Some(ExifTag::MDPrepTime),
            0x82ac => Some(ExifTag::MDFileUnits),
            0x830e => Some(ExifTag::PixelScale),
            0x8335 => Some(ExifTag::AdventScale),
            0x8336 => Some(ExifTag::AdventRevision),
            0x835c => Some(ExifTag::UIC1Tag),
            0x835d => Some(ExifTag::UIC2Tag),
            0x835e => Some(ExifTag::UIC3Tag),
            0x835f => Some(ExifTag::UIC4Tag),
            0x83bb => Some(ExifTag::IptcNaa),
            0x847e => Some(ExifTag::IntergraphPacketData),
            0x847f => Some(ExifTag::IntergraphFlagRegisters),
            0x8480 => Some(ExifTag::IntergraphMatrix),
            0x8481 => Some(ExifTag::INGRReserved),
            0x8482 => Some(ExifTag::ModelTiePoint),
            0x84e0 => Some(ExifTag::Site),
            0x84e1 => Some(ExifTag::ColorSequence),
            0x84e2 => Some(ExifTag::IT8Header),
            0x84e3 => Some(ExifTag::RasterPadding),
            0x84e4 => Some(ExifTag::BitsPerRunLength),
            0x84e5 => Some(ExifTag::BitsPerExtendedRunLength),
            0x84e6 => Some(ExifTag::ColorTable),
            0x84e7 => Some(ExifTag::ImageColorIndicator),
            0x84e8 => Some(ExifTag::BackgroundColorIndicator),
            0x84e9 => Some(ExifTag::ImageColorValue),
            0x84ea => Some(ExifTag::BackgroundColorValue),
            0x84eb => Some(ExifTag::PixelIntensityRange),
            0x84ec => Some(ExifTag::TransparencyIndicator),
            0x84ed => Some(ExifTag::ColorCharacterization),
            0x84ee => Some(ExifTag::HCUsage),
            0x84ef => Some(ExifTag::TrapIndicator),
            0x84f0 => Some(ExifTag::CMYKEquivalent),
            0x8546 => Some(ExifTag::SEMInfo),
            0x8568 => Some(ExifTag::AfcpIPTC),
            0x85b8 => Some(ExifTag::PixelMagicJBIGOptions),
            0x85d7 => Some(ExifTag::JPLCartoIFD),
            0x85d8 => Some(ExifTag::ModelTransform),
            0x8602 => Some(ExifTag::WbGRGBLevels),
            0x8606 => Some(ExifTag::LeafData),
            0x8649 => Some(ExifTag::PhotoshopSettings),
            0x8769 => Some(ExifTag::ExifOffset),
            0x8773 => Some(ExifTag::IccProfile),
            0x877f => Some(ExifTag::TiffFXExtensions),
            0x8780 => Some(ExifTag::MultiProfiles),
            0x8781 => Some(ExifTag::SharedData),
            0x8782 => Some(ExifTag::T88Options),
            0x87ac => Some(ExifTag::ImageLayer),
            0x87af => Some(ExifTag::GeoTiffDirectory),
            0x87b0 => Some(ExifTag::GeoTiffDoubleParams),
            0x87b1 => Some(ExifTag::GeoTiffAsciiParams),
            0x87be => Some(ExifTag::JBIGOptions),
            0x8822 => Some(ExifTag::ExposureProgram),
            0x8824 => Some(ExifTag::SpectralSensitivity),
            0x8825 => Some(ExifTag::GPSInfo),
            0x8827 => Some(ExifTag::ISOSpeedRatings),
            0x8828 => Some(ExifTag::ElectricConvFactor),
            0x8829 => Some(ExifTag::Interlace),
            0x882a => Some(ExifTag::TimeZoneOffset),
            0x882b => Some(ExifTag::SelfTimerMode),
            0x8830 => Some(ExifTag::SensitivityType),
            0x8831 => Some(ExifTag::StandardOutputSensitivity),
            0x8832 => Some(ExifTag::RecommendedExposureIndex),
            0x8833 => Some(ExifTag::ISOSpeed),
            0x8834 => Some(ExifTag::ISOSpeedLatitudeyyy),
            0x8835 => Some(ExifTag::ISOSpeedLatitudezzz),
            0x888a => Some(ExifTag::LeafSubIFD),
            0x9000 => Some(ExifTag::ExifVersion),
            0x9003 => Some(ExifTag::DateTimeOriginal),
            0x9004 => Some(ExifTag::CreateDate),
            0x9009 => Some(ExifTag::GooglePlusUploadCode),
            0x9010 => Some(ExifTag::OffsetTime),
            0x9011 => Some(ExifTag::OffsetTimeOriginal),
            0x9012 => Some(ExifTag::OffsetTimeDigitized),
            0x9101 => Some(ExifTag::ComponentsConfiguration),
            0x9102 => Some(ExifTag::CompressedBitsPerPixel),
            0x9201 => Some(ExifTag::ShutterSpeedValue),
            0x9202 => Some(ExifTag::ApertureValue),
            0x9203 => Some(ExifTag::BrightnessValue),
            0x9204 => Some(ExifTag::ExposureBiasValue),
            0x9205 => Some(ExifTag::MaxApertureValue),
            0x9206 => Some(ExifTag::SubjectDistance),
            0x9207 => Some(ExifTag::MeteringMode),
            0x9208 => Some(ExifTag::LightSource),
            0x9209 => Some(ExifTag::Flash),
            0x920a => Some(ExifTag::FocalLength),
            0x920b => Some(ExifTag::FlashEnergy),
            0x920c => Some(ExifTag::SpatialFrequencyResponse),
            0x920d => Some(ExifTag::Noise2),
            0x920e => Some(ExifTag::FocalPlaneXResolution),
            0x920f => Some(ExifTag::FocalPlaneYResolution),
            0x9210 => Some(ExifTag::FocalPlaneResolutionUnit),
            0x9211 => Some(ExifTag::ImageNumber),
            0x9212 => Some(ExifTag::SecurityClassification),
            0x9213 => Some(ExifTag::ImageHistory),
            0x9214 => Some(ExifTag::SubjectArea),
            0x9215 => Some(ExifTag::ExposureIndex),
            0x9216 => Some(ExifTag::TiffEPStandardID),
            0x9217 => Some(ExifTag::SensingMethod),
            0x923a => Some(ExifTag::CIP3DataFile),
            0x923b => Some(ExifTag::CIP3Sheet),
            0x923c => Some(ExifTag::CIP3Side),
            0x923f => Some(ExifTag::StoNits),
            0x927c => Some(ExifTag::MakerNotes),
            0x9286 => Some(ExifTag::UserComment),
            0x9290 => Some(ExifTag::SubSecTime),
            0x9291 => Some(ExifTag::SubSecTimeOriginal),
            0x9292 => Some(ExifTag::SubSecTimeDigitized),
            0x932f => Some(ExifTag::MSDocumentText),
            0x9330 => Some(ExifTag::MSPropertySetStorage),
            0x9331 => Some(ExifTag::MSDocumentTextPosition),
            0x935c => Some(ExifTag::ImageSourceData),
            0x9400 => Some(ExifTag::AmbientTemperature),
            0x9401 => Some(ExifTag::Humidity),
            0x9402 => Some(ExifTag::Pressure),
            0x9403 => Some(ExifTag::WaterDepth),
            0x9404 => Some(ExifTag::Acceleration),
            0x9405 => Some(ExifTag::CameraElevationAngle),
            0x9c9b => Some(ExifTag::XPTitle),
            0x9c9c => Some(ExifTag::XPComment),
            0x9c9d => Some(ExifTag::XPAuthor),
            0x9c9e => Some(ExifTag::XPKeywords),
            0x9c9f => Some(ExifTag::XPSubject),
            0xa000 => Some(ExifTag::FlashpixVersion),
            0xa001 => Some(ExifTag::ColorSpace),
            0xa002 => Some(ExifTag::ExifImageWidth),
            0xa003 => Some(ExifTag::ExifImageHeight),
            0xa004 => Some(ExifTag::RelatedSoundFile),
            0xa005 => Some(ExifTag::InteropOffset),
            0xa010 => Some(ExifTag::SamsungRawPointersOffset),
            0xa011 => Some(ExifTag::SamsungRawPointersLength),
            0xa101 => Some(ExifTag::SamsungRawByteOrder),
            0xa102 => Some(ExifTag::SamsungRawUnknown),
            0xa20b => Some(ExifTag::FlashEnergy2),
            0xa20c => Some(ExifTag::SpatialFrequencyResponse2),
            0xa20d => Some(ExifTag::Noise),
            0xa20e => Some(ExifTag::FocalPlaneXResolution2),
            0xa20f => Some(ExifTag::FocalPlaneYResolution2),
            0xa210 => Some(ExifTag::FocalPlaneResolutionUnit2),
            0xa211 => Some(ExifTag::ImageNumber2),
            0xa212 => Some(ExifTag::SecurityClassification2),
            0xa213 => Some(ExifTag::ImageHistory2),
            0xa214 => Some(ExifTag::SubjectLocation),
            0xa215 => Some(ExifTag::ExposureIndex2),
            0xa216 => Some(ExifTag::TiffEPStandardID2),
            0xa217 => Some(ExifTag::SensingMethod2),
            0xa300 => Some(ExifTag::FileSource),
            0xa301 => Some(ExifTag::SceneType),
            0xa302 => Some(ExifTag::CFAPattern),
            0xa401 => Some(ExifTag::CustomRendered),
            0xa402 => Some(ExifTag::ExposureMode),
            0xa403 => Some(ExifTag::WhiteBalance),
            0xa404 => Some(ExifTag::DigitalZoomRatio),
            0xa405 => Some(ExifTag::FocalLengthIn35mmFormat),
            0xa406 => Some(ExifTag::SceneCaptureType),
            0xa407 => Some(ExifTag::GainControl),
            0xa408 => Some(ExifTag::Contrast),
            0xa409 => Some(ExifTag::Saturation),
            0xa40a => Some(ExifTag::Sharpness),
            0xa40b => Some(ExifTag::DeviceSettingDescription),
            0xa40c => Some(ExifTag::SubjectDistanceRange),
            0xa420 => Some(ExifTag::ImageUniqueID),
            0xa430 => Some(ExifTag::OwnerName),
            0xa431 => Some(ExifTag::SerialNumber),
            0xa432 => Some(ExifTag::LensSpecification),
            0xa433 => Some(ExifTag::LensMake),
            0xa434 => Some(ExifTag::LensModel),
            0xa435 => Some(ExifTag::LensSerialNumber),
            0xa460 => Some(ExifTag::CompositeImage),
            0xa461 => Some(ExifTag::CompositeImageCount),
            0xa462 => Some(ExifTag::CompositeImageExposureTimes),
            0xa480 => Some(ExifTag::GDALMetadata),
            0xa481 => Some(ExifTag::GDALNoData),
            0xa500 => Some(ExifTag::Gamma),
            0xafc0 => Some(ExifTag::ExpandSoftware),
            0xafc1 => Some(ExifTag::ExpandLens),
            0xafc2 => Some(ExifTag::ExpandFilm),
            0xafc3 => Some(ExifTag::ExpandFilterLens),
            0xafc4 => Some(ExifTag::ExpandScanner),
            0xafc5 => Some(ExifTag::ExpandFlashLamp),
            0xb4c3 => Some(ExifTag::HasselbladRawImage),
            0xbc01 => Some(ExifTag::PixelFormat),
            0xbc02 => Some(ExifTag::Transformation),
            0xbc03 => Some(ExifTag::Uncompressed),
            0xbc04 => Some(ExifTag::ImageType),
            0xc44f => Some(ExifTag::Annotations),
            0xc4a5 => Some(ExifTag::PrintIM),
            0xc51b => Some(ExifTag::HasselbladExif),
            0xc573 => Some(ExifTag::OriginalFileName),
            _ => None,
        }
    }
}

/// DNG specific tags.
#[derive(Debug, Clone, Copy, PartialEq, Eq, Structural)]
pub enum DngTag {
    DNGVersion,
    DNGBackwardVersion,
    UniqueCameraModel,
    LocalizedCameraModel,
    CFAPlaneColor,
    CFALayout,
    LinearizationTable,
    BlackLevelRepeatDim,
    BlackLevel,
    BlackLevelDeltaH,
    BlackLevelDeltaV,
    WhiteLevel,
    DefaultScale,
    BestQualityScale,
    DefaultCropOrigin,
    DefaultCropSize,
    CalibrationIlluminant1,
    CalibrationIlluminant2,
    ColorMatrix1,
    ColorMatrix2,
    CameraCalibration1,
    CameraCalibration2,
    ReductionMatrix1,
    ReductionMatrix2,
    AnalogBalance,
    AsShotNeutral,
    AsShotWhiteXY,
    BaselineExposure,
    BaselineNoise,
    BaselineSharpness,
    BayerGreenSplit,
    LinearResponseLimit,
    CameraSerialNumber,
    LensInfo,
    ChromaBlurRadius,
    AntiAliasStrength,
    ShadowScale,
    DNGPrivateData,
    MakerNoteSafety,
    RawDataUniqueID,
    OriginalRawFileName,
    OriginalRawFileData,
    ActiveArea,
    MaskedAreas,
    AsShotICCProfile,
    AsShotPreProfileMatrix,
    CurrentICCProfile,
    CurrentPreProfileMatrix,
    ColorimetricReference,
    CameraCalibrationSignature,
    ProfileCalibrationSignature,
    ExtraCameraProfiles,
    AsShotProfileName,
    NoiseReductionApplied,
    ProfileName,
    ProfileHueSatMapDims,
    ProfileHueSatMapData1,
    ProfileHueSatMapData2,
    ProfileToneCurve,
    ProfileEmbedPolicy,
    ProfileCopyright,
    ForwardMatrix1,
    ForwardMatrix2,
    PreviewApplicationName,
    PreviewApplicationVersion,
    PreviewSettingsName,
    PreviewSettingsDigest,
    PreviewColorSpace,
    PreviewDateTime,
    RawImageDigest,
    OriginalRawFileDigest,
    SubTileBlockSize,
    RowInterleaveFactor,
    ProfileLookTableDims,
    ProfileLookTableData,
    OpcodeList1,
    OpcodeList2,
    OpcodeList3,
    NoiseProfile,
    DefaultUserCrop,
    DefaultBlackRender,
    BaselineExposureOffset,
    ProfileLookTableEncoding,
    ProfileHueSatMapEncoding,
    OriginalDefaultFinalSize,
    OriginalBestQualityFinalSize,
    OriginalDefaultCropSize,
    NewRawImageDigest,
    RawToPreviewGain,
    DepthFormat,
    DepthNear,
    DepthFar,
    DepthUnits,
    DepthMeasureType,
    EnhanceParams,
    ProfileGainTableMap,
    SemanticName,
    SemanticInstanceID,
    MaskSubArea,
    RGBTables,
    CalibrationIlluminant3,
    ColorMatrix3,
    CameraCalibration3,
    ReductionMatrix3,
    ProfileHueSatMapData3,
    ForwardMatrix3,
    IlluminantData1,
    IlluminantData2,
    IlluminantData3,
    ColumnInterleaveFactor,
}

impl TiffTag for DngTag {
    open spec fn spec_u16(self) -> u16 {
        match self {
            DngTag::DNGVersion => 50706,
            DngTag::DNGBackwardVersion => 50707,
            DngTag::UniqueCameraModel => 50708,
            DngTag::LocalizedCameraModel => 50709,
            DngTag::CFAPlaneColor => 50710,
            DngTag::CFALayout => 50711,
            DngTag::LinearizationTable => 50712,
            DngTag::BlackLevelRepeatDim => 50713,
            DngTag::BlackLevel => 50714,
            DngTag::BlackLevelDeltaH => 50715,
            DngTag::BlackLevelDeltaV => 50716,
            DngTag::WhiteLevel => 50717,
            DngTag::DefaultScale => 50718,
            DngTag::BestQualityScale => 50780,
            DngTag::DefaultCropOrigin => 50719,
            DngTag::DefaultCropSize => 50720,
            DngTag::CalibrationIlluminant1 => 50778,
            DngTag::CalibrationIlluminant2 => 50779,
            DngTag::ColorMatrix1 => 50721,
            DngTag::ColorMatrix2 => 50722,
            DngTag::CameraCalibration1 => 50723,
            DngTag::CameraCalibration2 => 50724,
            DngTag::ReductionMatrix1 => 50725,
            DngTag::ReductionMatrix2 => 50726,
            DngTag::AnalogBalance => 50727,
            DngTag::AsShotNeutral => 50728,
            DngTag::AsShotWhiteXY => 50729,
            DngTag::BaselineExposure => 50730,
            DngTag::BaselineNoise => 50731,
            DngTag::BaselineSharpness => 50732,
            DngTag::BayerGreenSplit => 50733,
            DngTag::LinearResponseLimit => 50734,
            DngTag::CameraSerialNumber => 50735,
            DngTag::LensInfo => 50736,
            DngTag::ChromaBlurRadius => 50737,
            DngTag::AntiAliasStrength => 50738,
            DngTag::ShadowScale => 50739,
            DngTag::DNGPrivateData => 50740,
            DngTag::MakerNoteSafety => 50741,
            DngTag::RawDataUniqueID => 50781,
            DngTag::OriginalRawFileName => 50827,
            DngTag::OriginalRawFileData => 50828,
            DngTag::ActiveArea => 50829,
            DngTag::MaskedAreas => 50830,
            DngTag::AsShotICCProfile => 50831,
            DngTag::AsShotPreProfileMatrix => 50832,
            DngTag::CurrentICCProfile => 50833,
            DngTag::CurrentPreProfileMatrix => 50834,
            DngTag::ColorimetricReference => 50879,
            DngTag::CameraCalibrationSignature => 50931,
            DngTag::ProfileCalibrationSignature => 50932,
            DngTag::ExtraCameraProfiles => 50933,
            DngTag::AsShotProfileName => 50934,
            DngTag::NoiseReductionApplied => 50935,
            DngTag::ProfileName => 50936,
            DngTag::ProfileHueSatMapDims => 50937,
            DngTag::ProfileHueSatMapData1 => 50938,
            DngTag::ProfileHueSatMapData2 => 50939,
            DngTag::ProfileToneCurve => 50940,
            DngTag::ProfileEmbedPolicy => 50941,
            DngTag::ProfileCopyright => 50942,
            DngTag::ForwardMatrix1 => 50964,
            DngTag::ForwardMatrix2 => 50965,
            DngTag::PreviewApplicationName => 50966,
            DngTag::PreviewApplicationVersion => 50967,
            DngTag::PreviewSettingsName => 50968,
            DngTag::PreviewSettingsDigest => 50969,
            DngTag::PreviewColorSpace => 50970,
            DngTag::PreviewDateTime => 50971,
            DngTag::RawImageDigest => 50972,
            DngTag::OriginalRawFileDigest => 50973,
            DngTag::SubTileBlockSize => 50974,
            DngTag::RowInterleaveFactor => 50975,
            DngTag::ProfileLookTableDims => 50981,
            DngTag::ProfileLookTableData => 50982,
            DngTag::OpcodeList1 => 51008,
            DngTag::OpcodeList2 => 51009,
            DngTag::OpcodeList3 => 51022,
            DngTag::NoiseProfile => 51041,
            DngTag::DefaultUserCrop => 51125,
            DngTag::DefaultBlackRender => 51110,
            DngTag::BaselineExposureOffset => 51109,
            DngTag::ProfileLookTableEncoding => 51108,
            DngTag::ProfileHueSatMapEncoding => 51107,
            DngTag::OriginalDefaultFinalSize => 51089,
            DngTag::OriginalBestQualityFinalSize => 51090,
            DngTag::OriginalDefaultCropSize => 51091,
            DngTag::NewRawImageDigest => 51111,
            DngTag::RawToPreviewGain => 51112,
            DngTag::DepthFormat => 51177,
            DngTag::DepthNear => 51178,
            DngTag::DepthFar => 51179,
            DngTag::DepthUnits => 51180,
            DngTag::DepthMeasureType => 51181,
            DngTag::EnhanceParams => 51182,
            DngTag::ProfileGainTableMap => 52525,
            DngTag::SemanticName => 52526,
            DngTag::SemanticInstanceID => 52528,
            DngTag::MaskSubArea => 52536,
            DngTag::RGBTables => 52543,
            DngTag::CalibrationIlluminant3 => 52529,
            DngTag::ColorMatrix3 => 52531,
            DngTag::CameraCalibration3 => 52530,
            DngTag::ReductionMatrix3 => 52538,
            DngTag::ProfileHueSatMapData3 => 52537,
            DngTag::ForwardMatrix3 => 52532,
            DngTag::IlluminantData1 => 52533,
            DngTag::IlluminantData2 => 52534,
            DngTag::IlluminantData3 => 52535,
            DngTag::ColumnInterleaveFactor => 52547,
        }
    }

    fn to_u16(self) -> (r: u16) {
        match self {
            DngTag::DNGVersion => 50706,
            DngTag::DNGBackwardVersion => 50707,
            DngTag::UniqueCameraModel => 50708,
            DngTag::LocalizedCameraModel => 50709,
            DngTag::CFAPlaneColor => 50710,
            DngTag::CFALayout => 50711,
            DngTag::LinearizationTable => 50712,
            DngTag::BlackLevelRepeatDim => 50713,
            DngTag::BlackLevel => 50714,
            DngTag::BlackLevelDeltaH => 50715,
            DngTag::BlackLevelDeltaV => 50716,
            DngTag::WhiteLevel => 50717,
            DngTag::DefaultScale => 50718,
            DngTag::BestQualityScale => 50780,
            DngTag::DefaultCropOrigin => 50719,
            DngTag::DefaultCropSize => 50720,
            DngTag::CalibrationIlluminant1 => 50778,
            DngTag::CalibrationIlluminant2 => 50779,
            DngTag::ColorMatrix1 => 50721,
            DngTag::ColorMatrix2 => 50722,
            DngTag::CameraCalibration1 => 50723,
            DngTag::CameraCalibration2 => 50724,
            DngTag::ReductionMatrix1 => 50725,
            DngTag::ReductionMatrix2 => 50726,
            DngTag::AnalogBalance => 50727,
            DngTag::AsShotNeutral => 50728,
            DngTag::AsShotWhiteXY => 50729,
            DngTag::BaselineExposure => 50730,
            DngTag::BaselineNoise => 50731,
            DngTag::BaselineSharpness => 50732,
            DngTag::BayerGreenSplit => 50733,
            DngTag::LinearResponseLimit => 50734,
            DngTag::CameraSerialNumber => 50735,
            DngTag::LensInfo => 50736,
            DngTag::ChromaBlurRadius => 50737,
            DngTag::AntiAliasStrength => 50738,
            DngTag::ShadowScale => 50739,
            DngTag::DNGPrivateData => 50740,
            DngTag::MakerNoteSafety => 50741,
            DngTag::RawDataUniqueID => 50781,
            DngTag::OriginalRawFileName => 50827,
            DngTag::OriginalRawFileData => 50828,
            DngTag::ActiveArea => 50829,
            DngTag::MaskedAreas => 50830,
            DngTag::AsShotICCProfile => 50831,
            DngTag::AsShotPreProfileMatrix => 50832,
            DngTag::CurrentICCProfile => 50833,
            DngTag::CurrentPreProfileMatrix => 50834,
            DngTag::ColorimetricReference => 50879,
            DngTag::CameraCalibrationSignature => 50931,
            DngTag::ProfileCalibrationSignature => 50932,
            DngTag::ExtraCameraProfiles => 50933,
            DngTag::AsShotProfileName => 50934,
            DngTag::NoiseReductionApplied => 50935,
            DngTag::ProfileName => 50936,
            DngTag::ProfileHueSatMapDims => 50937,
            DngTag::ProfileHueSatMapData1 => 50938,
            DngTag::ProfileHueSatMapData2 => 50939,
            DngTag::ProfileToneCurve => 50940,
            DngTag::ProfileEmbedPolicy => 50941,
            DngTag::ProfileCopyright => 50942,
            DngTag::ForwardMatrix1 => 50964,
            DngTag::ForwardMatrix2 => 50965,
            DngTag::PreviewApplicationName => 50966,
            DngTag::PreviewApplicationVersion => 50967,
            DngTag::PreviewSettingsName => 50968,
            DngTag::PreviewSettingsDigest => 50969,
            DngTag::PreviewColorSpace => 50970,
            DngTag::PreviewDateTime => 50971,
            DngTag::RawImageDigest => 50972,
            DngTag::OriginalRawFileDigest => 50973,
            DngTag::SubTileBlockSize => 50974,
            DngTag::RowInterleaveFactor => 50975,
            DngTag::ProfileLookTableDims => 50981,
            DngTag::ProfileLookTableData => 50982,
            DngTag::OpcodeList1 => 51008,
            DngTag::OpcodeList2 => 51009,
            DngTag::OpcodeList3 => 51022,
            DngTag::NoiseProfile => 51041,
            DngTag::DefaultUserCrop => 51125,
            DngTag::DefaultBlackRender => 51110,
            DngTag::BaselineExposureOffset => 51109,
            DngTag::ProfileLookTableEncoding => 51108,
            DngTag::ProfileHueSatMapEncoding => 51107,
            DngTag::OriginalDefaultFinalSize => 51089,
            DngTag::OriginalBestQualityFinalSize => 51090,
            DngTag::OriginalDefaultCropSize => 51091,
            DngTag::NewRawImageDigest => 51111,
            DngTag::RawToPreviewGain => 51112,
            DngTag::DepthFormat => 51177,
            DngTag::DepthNear => 51178,
            DngTag::DepthFar => 51179,
            DngTag::DepthUnits => 51180,
            DngTag::DepthMeasureType => 51181,
            DngTag::EnhanceParams => 51182,
            DngTag::ProfileGainTableMap => 52525,
            DngTag::SemanticName => 52526,
            DngTag::SemanticInstanceID => 52528,
            DngTag::MaskSubArea => 52536,
            DngTag::RGBTables => 52543,
            DngTag::CalibrationIlluminant3 => 52529,
            DngTag::ColorMatrix3 => 52531,
            DngTag::CameraCalibration3 => 52530,
            DngTag::ReductionMatrix3 => 52538,
            DngTag::ProfileHueSatMapData3 => 52537,
            DngTag::ForwardMatrix3 => 52532,
            DngTag::IlluminantData1 => 52533,
            DngTag::IlluminantData2 => 52534,
            DngTag::IlluminantData3 => 52535,
            DngTag::ColumnInterleaveFactor => 52547,
        }
    }

    #[verifier::rlimit(100)]
    fn n(v: u16) -> (r: Option<DngTag>) {
        match v {
            50706 => Some(DngTag::DNGVersion),
            50707 => Some(DngTag::DNGBackwardVersion),
            50708 => Some(DngTag::UniqueCameraModel),
            50709 => Some(DngTag::LocalizedCameraModel),
            50710 => Some(DngTag::CFAPlaneColor),
            50711 => Some(DngTag::CFALayout),
            50712 => Some(DngTag::LinearizationTable),
            50713 => Some(DngTag::BlackLevelRepeatDim),
            50714 => Some(DngTag::BlackLevel),
            50715 => Some(DngTag::BlackLevelDeltaH),
            50716 => Some(DngTag::BlackLevelDeltaV),
            50717 => Some(DngTag::WhiteLevel),
            50718 => Some(DngTag::DefaultScale),
            50780 => Some(DngTag::BestQualityScale),
            50719 => Some(DngTag::DefaultCropOrigin),
            50720 => Some(DngTag::DefaultCropSize),
            50778 => Some(DngTag::CalibrationIlluminant1),
            50779 => Some(DngTag::CalibrationIlluminant2),
            50721 => Some(DngTag::ColorMatrix1),
            50722 => Some(DngTag::ColorMatrix2),
            50723 => Some(DngTag::CameraCalibration1),
            50724 => Some(DngTag::CameraCalibration2),
            50725 => Some(DngTag::ReductionMatrix1),
            50726 => Some(DngTag::ReductionMatrix2),
            50727 => Some(DngTag::AnalogBalance),
            50728 => Some(DngTag::AsShotNeutral),
            50729 => Some(DngTag::AsShotWhiteXY),
            50730 => Some(DngTag::BaselineExposure),
            50731 => Some(DngTag::BaselineNoise),
            50732 => Some(DngTag::BaselineSharpness),
            50733 => Some(DngTag::BayerGreenSplit),
            50734 => Some(DngTag::LinearResponseLimit),
            50735 => Some(DngTag::CameraSerialNumber),
            50736 => Some(DngTag::LensInfo),
            50737 => Some(DngTag::ChromaBlurRadius),
            50738 => Some(DngTag::AntiAliasStrength),
            50739 => Some(DngTag::ShadowScale),
            50740 => Some(DngTag::DNGPrivateData),
            50741 => Some(DngTag::MakerNoteSafety),
            50781 => Some(DngTag::RawDataUniqueID),
            50827 => Some(DngTag::OriginalRawFileName),
            50828 => Some(DngTag::OriginalRawFileData),
            50829 => Some(DngTag::ActiveArea),
            50830 => Some(DngTag::MaskedAreas),
            50831 => Some(DngTag::AsShotICCProfile),
            50832 => Some(DngTag::AsShotPreProfileMatrix),
            50833 => Some(DngTag::CurrentICCProfile),
            50834 => Some(DngTag::CurrentPreProfileMatrix),
            50879 => Some(DngTag::ColorimetricReference),
            50931 => Some(DngTag::CameraCalibrationSignature),
            50932 => Some(DngTag::ProfileCalibrationSignature),
            50933 => Some(DngTag::ExtraCameraProfiles),
            50934 => Some(DngTag::AsShotProfileName),
            50935 => Some(DngTag::NoiseReductionApplied),
            50936 => Some(DngTag::ProfileName),
            50937 => Some(DngTag::ProfileHueSatMapDims),
            50938 => Some(DngTag::ProfileHueSatMapData1),
            50939 => Some(DngTag::ProfileHueSatMapData2),
            50940 => Some(DngTag::ProfileToneCurve),
            50941 => Some(DngTag::ProfileEmbedPolicy),
            50942 => Some(DngTag::ProfileCopyright),
            50964 => Some(DngTag::ForwardMatrix1),
            50965 => Some(DngTag::ForwardMatrix2),
            50966 => Some(DngTag::PreviewApplicationName),
            50967 => Some(DngTag::PreviewApplicationVersion),
            50968 => Some(DngTag::PreviewSettingsName),
            50969 => Some(DngTag::PreviewSettingsDigest),
            50970 => Some(DngTag::PreviewColorSpace),
            50971 => Some(DngTag::PreviewDateTime),
            50972 => Some(DngTag::RawImageDigest),
            50973 => Some(DngTag::OriginalRawFileDigest),
            50974 => Some(DngTag::SubTileBlockSize),
            50975 => Some(DngTag::RowInterleaveFactor),
            50981 => Some(DngTag::ProfileLookTableDims),
            50982 => Some(DngTag::ProfileLookTableData),
            51008 => Some(DngTag::OpcodeList1),
            51009 => Some(DngTag::OpcodeList2),
            51022 => Some(DngTag::OpcodeList3),
            51041 => Some(DngTag::NoiseProfile),
            51125 => Some(DngTag::DefaultUserCrop),
            51110 => Some(DngTag::DefaultBlackRender),
            51109 => Some(DngTag::BaselineExposureOffset),
            51108 => Some(DngTag::ProfileLookTableEncoding),
            51107 => Some(DngTag::ProfileHueSatMapEncoding),
            51089 => Some(DngTag::OriginalDefaultFinalSize),
            51090 => Some(DngTag::OriginalBestQualityFinalSize),
            51091 => Some(DngTag::OriginalDefaultCropSize),
            51111 => Some(DngTag::NewRawImageDigest),
            51112 => Some(DngTag::RawToPreviewGain),
            51177 => Some(DngTag::DepthFormat),
            51178 => Some(DngTag::DepthNear),
            51179 => Some(DngTag::DepthFar),
            51180 => Some(DngTag::DepthUnits),
            51181 => Some(DngTag::DepthMeasureType),
            51182 => Some(DngTag::EnhanceParams),
            52525 => Some(DngTag::ProfileGainTableMap),
            52526 => Some(DngTag::SemanticName),
            52528 => Some(DngTag::SemanticInstanceID),
            52536 => Some(DngTag::MaskSubArea),
            52543 => Some(DngTag::RGBTables),
            52529 => Some(DngTag::CalibrationIlluminant3),
            52531 => Some(DngTag::ColorMatrix3),
            52530 => Some(DngTag::CameraCalibration3),
            52538 => Some(DngTag::ReductionMatrix3),
            52537 => Some(DngTag::ProfileHueSatMapData3),
            52532 => Some(DngTag::ForwardMatrix3),
            52533 => Some(DngTag::IlluminantData1),
            52534 => Some(DngTag::IlluminantData2),
            52535 => Some(DngTag::IlluminantData3),
            52547 => Some(DngTag::ColumnInterleaveFactor),
            _ => None,
        }
    }
}

impl From<TiffCommonTag> for u16 {
    fn from(t: TiffCommonTag) -> (r: u16)
        ensures
            r == t.spec_u16(),
    {
        t.to_u16()
    }
}

impl vstd::std_specs::convert::FromSpecImpl<TiffCommonTag> for u16 {
    open spec fn obeys_from_spec() -> bool {
        true
    }

    open spec fn from_spec(t: TiffCommonTag) -> u16 {
        t.spec_u16()
    }
}

impl From<ExifGpsTag> for u16 {
    fn from(t: ExifGpsTag) -> (r: u16)
        ensures
            r == t.spec_u16(),
    {
        t.to_u16()
    }
}

impl vstd::std_specs::convert::FromSpecImpl<ExifGpsTag> for u16 {
    open spec fn obeys_from_spec() -> bool {
        true
    }

    open spec fn from_spec(t: ExifGpsTag) -> u16 {
        t.spec_u16()
    }
}

impl From<ExifTag> for u16 {
    fn from(t: ExifTag) -> (r: u16)
        ensures
            r == t.spec_u16(),
    {
        t.to_u16()
    }
}

impl vstd::std_specs::convert::FromSpecImpl<ExifTag> for u16 {
    open spec fn obeys_from_spec() -> bool {
        true
    }

    open spec fn from_spec(t: ExifTag) -> u16 {
        t.spec_u16()
    }
}

impl From<DngTag> for u16 {
    fn from(t: DngTag) -> (r: u16)
        ensures
            r == t.spec_u16(),
    {
        t.to_u16()
    }
}

impl vstd::std_specs::convert::FromSpecImpl<DngTag> for u16 {
    open spec fn obeys_from_spec() -> bool {
        true
    }

    open spec fn from_spec(t: DngTag) -> u16 {
        t.spec_u16()
    }
}

} // verus!
