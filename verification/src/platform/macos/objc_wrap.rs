use vstd::prelude::*;

verus! {

/// The output kinds of a screen capture stream
#[derive(Copy, Clone, Debug, PartialEq, Eq, Structural)]
pub enum SCStreamOutputType {
    Screen,
    Audio,
}

impl SCStreamOutputType {
    pub open spec fn spec_encoded(self) -> isize {
        match self {
            SCStreamOutputType::Screen => 0,
            SCStreamOutputType::Audio => 1,
        }
    }

    /// The number the stream API uses for the output kind
    pub fn to_encoded(&self) -> (r: isize)
        ensures
            r == self.spec_encoded(),
    {
        match *self {
            SCStreamOutputType::Screen => 0,
            SCStreamOutputType::Audio => 1,
        }
    }

    /// The output kind with the given number, if any
    pub fn from_encoded(x: isize) -> (r: Option<Self>)
        ensures
            x == 0 ==> r == Some(SCStreamOutputType::Screen),
            x == 1 ==> r == Some(SCStreamOutputType::Audio),
            x != 0 && x != 1 ==> r is None,
    {
        match x {
            0 => Some(SCStreamOutputType::Screen),
            1 => Some(SCStreamOutputType::Audio),
            _ => None,
        }
    }
}

/// The status of a frame delivered by a display stream
#[derive(Copy, Clone, Debug, PartialEq, Eq, Structural)]
pub enum CGDisplayStreamFrameStatus {
    Complete,
    Idle,
    Blank,
    Stopped,
}

impl CGDisplayStreamFrameStatus {
    /// The status with the given number: 0 complete, 1 idle, 2 blank, 3 stopped
    pub fn from_i32(x: i32) -> (r: Option<Self>)
        ensures
            r == (if x == 0 {
                Some(CGDisplayStreamFrameStatus::Complete)
            } else if x == 1 {
                Some(CGDisplayStreamFrameStatus::Idle)
            } else if x == 2 {
                Some(CGDisplayStreamFrameStatus::Blank)
            } else if x == 3 {
                Some(CGDisplayStreamFrameStatus::Stopped)
            } else {
                None
            }),
    {
        match x {
            0 => Some(CGDisplayStreamFrameStatus::Complete),
            1 => Some(CGDisplayStreamFrameStatus::Idle),
            2 => Some(CGDisplayStreamFrameStatus::Blank),
            3 => Some(CGDisplayStreamFrameStatus::Stopped),
            _ => None,
        }
    }
}

/// The status of a frame delivered by a screen capture stream
#[derive(Copy, Clone, Debug, PartialEq, Eq, Structural)]
pub enum SCFrameStatus {
    Complete,
    Idle,
    Blank,
    Started,
    Suspended,
    Stopped,
}

impl SCFrameStatus {
    /// The status with the given number: 0 complete, 1 idle, 2 blank,
    /// 3 suspended, 4 started, 5 stopped
    pub fn from_i32(x: i32) -> (r: Option<Self>)
        ensures
            r == (if x == 0 {
                Some(SCFrameStatus::Complete)
            } else if x == 1 {
                Some(SCFrameStatus::Idle)
            } else if x == 2 {
                Some(SCFrameStatus::Blank)
            } else if x == 3 {
                Some(SCFrameStatus::Suspended)
            } else if x == 4 {
                Some(SCFrameStatus::Started)
            } else if x == 5 {
                Some(SCFrameStatus::Stopped)
            } else {
                None
            }),
    {
        match x {
            0 => Some(SCFrameStatus::Complete),
            1 => Some(SCFrameStatus::Idle),
            2 => Some(SCFrameStatus::Blank),
            3 => Some(SCFrameStatus::Suspended),
            4 => Some(SCFrameStatus::Started),
            5 => Some(SCFrameStatus::Stopped),
            _ => None,
        }
    }
}

/// A four-character code, in memory order
#[derive(Copy, Clone, Debug)]
pub struct OSType(pub [u8; 4]);

/// The 32-bit value whose bytes, least significant first, are `b`
/// (the byte order of the Mac OS targets).
pub open spec fn spec_ostype_u32(b: [u8; 4]) -> u32 {
    (b[0] + 256 * b[1] + 65536 * b[2] + 16777216 * b[3]) as u32
}

impl OSType {
    /// The code as a 32-bit number, its first byte least significant
    pub fn as_u32(&self) -> (r: u32)
        ensures
            r == spec_ostype_u32(self.0),
    {
        self.0[0] as u32 + 256 * self.0[1] as u32 + 65536 * self.0[2] as u32 + 16777216 * self.0[3] as u32
    }

    /// The code as a signed 32-bit number with the same bits as [`OSType::as_u32`]
    pub fn as_i32(&self) -> (r: i32)
        ensures
            r == spec_ostype_u32(self.0) as i32,
    {
        self.as_u32() as i32
    }
}

/// The pixel formats a screen capture stream can produce
#[derive(Copy, Clone, Debug, PartialEq, Eq, Structural)]
pub enum SCStreamPixelFormat {
    BGRA8888,
    L10R,
    V420,
    F420,
}

impl SCStreamPixelFormat {
    pub open spec fn spec_ostype(self) -> [u8; 4] {
        match self {
            SCStreamPixelFormat::BGRA8888 => [65u8, 82u8, 71u8, 66u8],
            SCStreamPixelFormat::L10R => [114u8, 48u8, 49u8, 108u8],
            SCStreamPixelFormat::V420 => [118u8, 48u8, 50u8, 52u8],
            SCStreamPixelFormat::F420 => [102u8, 48u8, 50u8, 52u8],
        }
    }

    /// The four-character code of the format, in memory order:
    /// `ARGB`, `r01l`, `v024`, `f024`
    pub fn to_ostype(&self) -> (r: OSType)
        ensures
            r.0 == self.spec_ostype(),
    {
        match self {
            SCStreamPixelFormat::BGRA8888 => OSType([65u8, 82u8, 71u8, 66u8]),
            SCStreamPixelFormat::L10R => OSType([114u8, 48u8, 49u8, 108u8]),
            SCStreamPixelFormat::V420 => OSType([118u8, 48u8, 50u8, 52u8]),
            SCStreamPixelFormat::F420 => OSType([102u8, 48u8, 50u8, 52u8]),
        }
    }
}

/// Pixel formats of Core Video buffers
#[derive(Copy, Clone, Debug, PartialEq, Eq, Structural)]
pub enum CVPixelFormat {
    RGB888,
    BGR888,
    ARGB8888,
    BGRA8888,
    ABGR8888,
    RGBA8888,
    V420,
    F420,
    Other,
}

/// The Core Video format with the given 32-bit code, if it is one the
/// library knows.
pub open spec fn spec_cv_pixel_format(value: u32) -> Option<CVPixelFormat> {
    if value == 0x00000018 {
        Some(CVPixelFormat::RGB888)
    } else if value == 0x32344247 {
        Some(CVPixelFormat::BGR888)
    } else if value == 0x00000020 {
        Some(CVPixelFormat::ARGB8888)
    } else if value == 0x42475241 {
        Some(CVPixelFormat::BGRA8888)
    } else if value == 0x41424752 {
        Some(CVPixelFormat::ABGR8888)
    } else if value == 0x52474241 {
        Some(CVPixelFormat::RGBA8888)
    } else if value == 0x34323076 {
        Some(CVPixelFormat::V420)
    } else if value == 0x34323066 {
        Some(CVPixelFormat::F420)
    } else {
        None
    }
}

impl CVPixelFormat {
    /// Reads a four-character code as a Core Video pixel format
    pub fn from_ostype(ostype: &OSType) -> (r: Option<Self>)
        ensures
            r == spec_cv_pixel_format(spec_ostype_u32(ostype.0)),
    {
        let value = ostype.as_u32();
        if value == 0x00000018 {
            Some(CVPixelFormat::RGB888)
        } else if value == 0x32344247 {
            Some(CVPixelFormat::BGR888)
        } else if value == 0x00000020 {
            Some(CVPixelFormat::ARGB8888)
        } else if value == 0x42475241 {
            Some(CVPixelFormat::BGRA8888)
        } else if value == 0x41424752 {
            Some(CVPixelFormat::ABGR8888)
        } else if value == 0x52474241 {
            Some(CVPixelFormat::RGBA8888)
        } else if value == 0x34323076 {
            Some(CVPixelFormat::V420)
        } else if value == 0x34323066 {
            Some(CVPixelFormat::F420)
        } else {
            None
        }
    }
}

/// Media types of Core Media samples
#[derive(Copy, Clone, Debug, PartialEq, Eq, Structural)]
pub enum CMMediaType {
    Audio,
    Video,
}

impl CMMediaType {
    /// `vide` is video and `soun` is audio
    pub fn from_ostype(ostype: OSType) -> (r: Option<Self>)
        ensures
            r == (if ostype.0 == [118u8, 105u8, 100u8, 101u8] {
                Some(CMMediaType::Video)
            } else if ostype.0 == [115u8, 111u8, 117u8, 110u8] {
                Some(CMMediaType::Audio)
            } else {
                None
            }),
    {
        let b = ostype.0;
        if b[0] == 118 && b[1] == 105 && b[2] == 100 && b[3] == 101 {
            assert(ostype.0 =~= [118u8, 105u8, 100u8, 101u8]);
            Some(CMMediaType::Video)
        } else if b[0] == 115 && b[1] == 111 && b[2] == 117 && b[3] == 110 {
            assert(ostype.0 =~= [115u8, 111u8, 117u8, 110u8]);
            Some(CMMediaType::Audio)
        } else {
            None
        }
    }
}

} // verus!

verus! {

/// Whether the CMTime is valid
pub const K_CMTIME_FLAGS_VALID: u32 = 1;
/// The flag the library reads for a rounded CMTime (bit 0, as for validity)
pub const K_CMTIME_FLAGS_HAS_BEEN_ROUNDED: u32 = 1;
/// The flag the library reads for positive infinity (bit 0, as for validity)
pub const K_CMTIME_FLAGS_POSITIVE_INFINITY: u32 = 1;
/// The flag the library reads for negative infinity (bit 0, as for validity)
pub const K_CMTIME_FLAGS_NEGATIVE_INFINITY: u32 = 1;
/// The flag the library reads for an indefinite time (bit 0, as for validity)
pub const K_CMTIME_FLAGS_INDEFINITE: u32 = 1;

/// A Core Media time: `value / scale` seconds, with flags and an epoch
#[derive(Copy, Clone, Debug)]
pub struct CMTime {
    pub value: i64,
    pub scale: i32,
    pub flags: u32,
    pub epoch: i64,
}

impl CMTime {
    pub open spec fn flag_set(self, flag: u32) -> bool {
        self.flags & flag != 0
    }

    pub fn is_valid(&self) -> (r: bool)
        ensures
            r == self.flag_set(K_CMTIME_FLAGS_VALID),
    {
        self.flags & K_CMTIME_FLAGS_VALID != 0
    }

    pub fn is_invalid(&self) -> (r: bool)
        ensures
            r == !self.flag_set(K_CMTIME_FLAGS_VALID),
    {
        !self.is_valid()
    }

    pub fn is_indefinite(&self) -> (r: bool)
        ensures
            r == (self.flag_set(K_CMTIME_FLAGS_VALID) && self.flag_set(K_CMTIME_FLAGS_INDEFINITE)),
    {
        self.is_valid() && (self.flags & K_CMTIME_FLAGS_INDEFINITE != 0)
    }

    pub fn is_positive_infinity(&self) -> (r: bool)
        ensures
            r == (self.flag_set(K_CMTIME_FLAGS_VALID) && self.flag_set(K_CMTIME_FLAGS_POSITIVE_INFINITY)),
    {
        self.is_valid() && (self.flags & K_CMTIME_FLAGS_POSITIVE_INFINITY != 0)
    }

    pub fn is_negative_infinity(&self) -> (r: bool)
        ensures
            r == (self.flag_set(K_CMTIME_FLAGS_VALID) && self.flag_set(K_CMTIME_FLAGS_NEGATIVE_INFINITY)),
    {
        self.is_valid() && (self.flags & K_CMTIME_FLAGS_NEGATIVE_INFINITY != 0)
    }

    /// A valid time that is neither indefinite nor infinite
    pub fn is_numeric(&self) -> (r: bool)
        ensures
            r == (self.flag_set(K_CMTIME_FLAGS_VALID)
                && !(self.flag_set(K_CMTIME_FLAGS_VALID) && self.flag_set(K_CMTIME_FLAGS_INDEFINITE))
                && !(self.flag_set(K_CMTIME_FLAGS_VALID) && self.flag_set(K_CMTIME_FLAGS_POSITIVE_INFINITY))
                && !(self.flag_set(K_CMTIME_FLAGS_VALID) && self.flag_set(K_CMTIME_FLAGS_NEGATIVE_INFINITY))),
    {
        self.is_valid() && !self.is_indefinite() && !self.is_positive_infinity() && !self.is_negative_infinity()
    }

    pub fn has_been_rounded(&self) -> (r: bool)
        ensures
            r == self.flag_set(K_CMTIME_FLAGS_HAS_BEEN_ROUNDED),
    {
        self.flags & K_CMTIME_FLAGS_HAS_BEEN_ROUNDED != 0
    }
}

/// Rounding methods for Core Media time scale conversion
#[derive(Copy, Clone, Debug, PartialEq, Eq, Structural)]
pub enum CMTimeRoundingMethod {
    HalfAwayFromZero,
    TowardZero,
    AwayFromZero,
    QuickTime,
    TowardPositiveInfinity,
    TowardNegativeInfinity,
}

impl CMTimeRoundingMethod {
    pub open spec fn spec_u32(self) -> u32 {
        match self {
            CMTimeRoundingMethod::HalfAwayFromZero => 1,
            CMTimeRoundingMethod::TowardZero => 2,
            CMTimeRoundingMethod::AwayFromZero => 3,
            CMTimeRoundingMethod::QuickTime => 4,
            CMTimeRoundingMethod::TowardPositiveInfinity => 5,
            CMTimeRoundingMethod::TowardNegativeInfinity => 6,
        }
    }

    /// The Core Media number of the rounding method, from 1 to 6
    pub fn to_u32(&self) -> (r: u32)
        ensures
            r == self.spec_u32(),
    {
        match self {
            CMTimeRoundingMethod::HalfAwayFromZero => 1,
            CMTimeRoundingMethod::TowardZero => 2,
            CMTimeRoundingMethod::AwayFromZero => 3,
            CMTimeRoundingMethod::QuickTime => 4,
            CMTimeRoundingMethod::TowardPositiveInfinity => 5,
            CMTimeRoundingMethod::TowardNegativeInfinity => 6,
        }
    }
}

impl Default for CMTimeRoundingMethod {
    fn default() -> (r: Self)
        ensures
            r == CMTimeRoundingMethod::HalfAwayFromZero,
    {
        CMTimeRoundingMethod::HalfAwayFromZero
    }
}

/// Audio sample rates of a screen capture stream
#[derive(Copy, Clone, Debug, PartialEq, Eq, Structural)]
pub enum SCStreamSampleRate {
    R8000,
    R16000,
    R24000,
    R48000,
}

impl SCStreamSampleRate {
    pub open spec fn spec_isize(self) -> isize {
        match self {
            SCStreamSampleRate::R8000 => 8000,
            SCStreamSampleRate::R16000 => 16000,
            SCStreamSampleRate::R24000 => 24000,
            SCStreamSampleRate::R48000 => 48000,
        }
    }

    /// Samples per second
    pub fn to_isize(&self) -> (r: isize)
        ensures
            r == self.spec_isize(),
    {
        match self {
            SCStreamSampleRate::R8000 => 8000,
            SCStreamSampleRate::R16000 => 16000,
            SCStreamSampleRate::R24000 => 24000,
            SCStreamSampleRate::R48000 => 48000,
        }
    }
}

/// Color matrices for YCbCr capture
#[derive(Copy, Clone, Debug, PartialEq, Eq, Structural)]
pub enum SCStreamColorMatrix {
    ItuR709_2,
    ItuR601_4,
    Smpte240M1995,
}

/// Background colors of a screen capture stream
#[derive(Copy, Clone, Debug, PartialEq, Eq, Structural)]
pub enum SCStreamBackgroundColor {
    Black,
    White,
    Clear,
}

/// Number types of Core Foundation numbers
#[derive(Copy, Clone, Debug, PartialEq, Eq, Structural)]
pub enum CFNumberType {
    I8,
    I16,
    I32,
    I64,
    F32,
    F64,
    Char,
    Short,
    Int,
    Long,
    LongLong,
    Float,
    Double,
    CFIndex,
    NSInteger,
    CGFloat,
}

impl CFNumberType {
    pub open spec fn spec_isize(self) -> isize {
        match self {
            CFNumberType::I8 => 1,
            CFNumberType::I16 => 2,
            CFNumberType::I32 => 3,
            CFNumberType::I64 => 4,
            CFNumberType::F32 => 5,
            CFNumberType::F64 => 6,
            CFNumberType::Char => 7,
            CFNumberType::Short => 8,
            CFNumberType::Int => 9,
            CFNumberType::Long => 10,
            CFNumberType::LongLong => 11,
            CFNumberType::Float => 12,
            CFNumberType::Double => 13,
            CFNumberType::CFIndex => 14,
            CFNumberType::NSInteger => 15,
            CFNumberType::CGFloat => 16,
        }
    }

    /// The Core Foundation number of the type, from 1 to 16
    pub fn to_isize(self) -> (r: isize)
        ensures
            r == self.spec_isize(),
    {
        match self {
            CFNumberType::I8 => 1,
            CFNumberType::I16 => 2,
            CFNumberType::I32 => 3,
            CFNumberType::I64 => 4,
            CFNumberType::F32 => 5,
            CFNumberType::F64 => 6,
            CFNumberType::Char => 7,
            CFNumberType::Short => 8,
            CFNumberType::Int => 9,
            CFNumberType::Long => 10,
            CFNumberType::LongLong => 11,
            CFNumberType::Float => 12,
            CFNumberType::Double => 13,
            CFNumberType::CFIndex => 14,
            CFNumberType::NSInteger => 15,
            CFNumberType::CGFloat => 16,
        }
    }

    /// The type with the given Core Foundation number, if any
    pub open spec fn spec_from_i32(x: i32) -> Option<Self> {
        if x == 1 { Some(CFNumberType::I8) }
        else if x == 2 { Some(CFNumberType::I16) }
        else if x == 3 { Some(CFNumberType::I32) }
        else if x == 4 { Some(CFNumberType::I64) }
        else if x == 5 { Some(CFNumberType::F32) }
        else if x == 6 { Some(CFNumberType::F64) }
        else if x == 7 { Some(CFNumberType::Char) }
        else if x == 8 { Some(CFNumberType::Short) }
        else if x == 9 { Some(CFNumberType::Int) }
        else if x == 10 { Some(CFNumberType::Long) }
        else if x == 11 { Some(CFNumberType::LongLong) }
        else if x == 12 { Some(CFNumberType::Float) }
        else if x == 13 { Some(CFNumberType::Double) }
        else if x == 14 { Some(CFNumberType::CFIndex) }
        else if x == 15 { Some(CFNumberType::NSInteger) }
        else if x == 16 { Some(CFNumberType::CGFloat) }
        else { None }
    }

    /// The type with the given Core Foundation number, if any
    pub fn from_i32(x: i32) -> (r: Option<Self>)
        ensures
            r == Self::spec_from_i32(x),
    {
        let t = match x {
            1 => CFNumberType::I8,
            2 => CFNumberType::I16,
            3 => CFNumberType::I32,
            4 => CFNumberType::I64,
            5 => CFNumberType::F32,
            6 => CFNumberType::F64,
            7 => CFNumberType::Char,
            8 => CFNumberType::Short,
            9 => CFNumberType::Int,
            10 => CFNumberType::Long,
            11 => CFNumberType::LongLong,
            12 => CFNumberType::Float,
            13 => CFNumberType::Double,
            14 => CFNumberType::CFIndex,
            15 => CFNumberType::NSInteger,
            16 => CFNumberType::CGFloat,
            _ => return None,
        };
        Some(t)
    }
}

/// Decoding a number type's own number gives the type back.
pub proof fn law_cf_number_type_round_trip(t: CFNumberType)
    ensures
        CFNumberType::spec_from_i32(t.spec_isize() as i32) == Some(t),
{
}

/// Decoding an output kind's own number gives the kind back.
pub proof fn law_output_type_round_trip(t: SCStreamOutputType)
    ensures
        t.spec_encoded() == 0 || t.spec_encoded() == 1,
        (t.spec_encoded() == 0) == (t == SCStreamOutputType::Screen),
{
}

/// A pixel format's code reads back as the same format for the BGRA and
/// the two 4:2:0 formats; the packed 10-bit code has no Core Video format
/// of its own in the library.
pub proof fn law_pixel_format_code_round_trip()
    ensures
        spec_cv_pixel_format(spec_ostype_u32(SCStreamPixelFormat::BGRA8888.spec_ostype())) == Some(CVPixelFormat::BGRA8888),
        spec_cv_pixel_format(spec_ostype_u32(SCStreamPixelFormat::V420.spec_ostype())) == Some(CVPixelFormat::V420),
        spec_cv_pixel_format(spec_ostype_u32(SCStreamPixelFormat::F420.spec_ostype())) == Some(CVPixelFormat::F420),
        spec_cv_pixel_format(spec_ostype_u32(SCStreamPixelFormat::L10R.spec_ostype())) is None,
{
}

} // verus!

verus! {

/// Alpha layouts of a Core Graphics bitmap
#[derive(Copy, Clone, Debug, PartialEq, Eq, Structural)]
pub enum CGBitmapAlphaInfo {
    PremultipliedLast,
    PremultipliedFirst,
    Last,
    First,
    NoneSkipLast,
    NoneSkipFirst,
    AlphaOnly,
}

/// Byte orders of a Core Graphics bitmap
#[derive(Copy, Clone, Debug, PartialEq, Eq, Structural)]
pub enum CGBitmapByteOrder {
    B8,
    B16Little,
    B16Big,
    B32Little,
    B32Big,
}

/// Pixel packings of a Core Graphics image
#[derive(Copy, Clone, Debug, PartialEq, Eq, Structural)]
pub enum CGImagePixelFormat {
    Packed,
    Rgb555,
    Rgb565,
    Rgb101010,
    RgbCif10,
}

/// The layout of a Core Graphics bitmap
#[derive(Copy, Clone, Debug, PartialEq, Eq, Structural)]
pub struct CGBitmapInfo {
    pub alpha: Option<CGBitmapAlphaInfo>,
    pub byte_order: CGBitmapByteOrder,
    pub float: bool,
}

pub const K_CG_BITMAP_INFO_ALPHA_MASK: u32 = 0x1F;
pub const K_CG_BITMAP_INFO_BYTE_ORDER_MASK: u32 = 0x7000;
pub const K_CG_BITMAP_FLOAT_INFO_MASK: u32 = 0xF00;
pub const K_CG_IMAGE_PIXEL_FORMAT_MASK: u32 = 0xF0000;

/// The alpha layout in the low five bits of the bitmap info: 1 premultiplied
/// last, 2 premultiplied first, 3 last, 4 first, 5 none-skip-last,
/// 6 none-skip-first; any other value (no alpha, alpha only) gives none.
pub open spec fn spec_alpha_info(bits: u32) -> Option<CGBitmapAlphaInfo> {
    if bits == 4 {
        Some(CGBitmapAlphaInfo::First)
    } else if bits == 3 {
        Some(CGBitmapAlphaInfo::Last)
    } else if bits == 6 {
        Some(CGBitmapAlphaInfo::NoneSkipFirst)
    } else if bits == 5 {
        Some(CGBitmapAlphaInfo::NoneSkipLast)
    } else if bits == 2 {
        Some(CGBitmapAlphaInfo::PremultipliedFirst)
    } else if bits == 1 {
        Some(CGBitmapAlphaInfo::PremultipliedLast)
    } else {
        None
    }
}

/// The byte order in bits 12 to 14 of the bitmap info: 1 16-bit little,
/// 3 16-bit big, 2 32-bit little, 4 32-bit big; anything else bytewise.
pub open spec fn spec_byte_order(bits: u32) -> CGBitmapByteOrder {
    if bits == 0x1000 {
        CGBitmapByteOrder::B16Little
    } else if bits == 0x3000 {
        CGBitmapByteOrder::B16Big
    } else if bits == 0x2000 {
        CGBitmapByteOrder::B32Little
    } else if bits == 0x4000 {
        CGBitmapByteOrder::B32Big
    } else {
        CGBitmapByteOrder::B8
    }
}

impl CGBitmapInfo {
    /// Decodes the bitmap info word of a Core Graphics image
    pub fn from_raw(bitmap_info_raw: u32) -> (r: Self)
        ensures
            r.alpha == spec_alpha_info(bitmap_info_raw & K_CG_BITMAP_INFO_ALPHA_MASK),
            r.byte_order == spec_byte_order(bitmap_info_raw & K_CG_BITMAP_INFO_BYTE_ORDER_MASK),
            r.float == (bitmap_info_raw & K_CG_BITMAP_FLOAT_INFO_MASK != 0),
    {
        let alpha_bits = bitmap_info_raw & K_CG_BITMAP_INFO_ALPHA_MASK;
        let order_bits = bitmap_info_raw & K_CG_BITMAP_INFO_BYTE_ORDER_MASK;
        CGBitmapInfo {
            alpha: if alpha_bits == 4 {
                Some(CGBitmapAlphaInfo::First)
            } else if alpha_bits == 3 {
                Some(CGBitmapAlphaInfo::Last)
            } else if alpha_bits == 6 {
                Some(CGBitmapAlphaInfo::NoneSkipFirst)
            } else if alpha_bits == 5 {
                Some(CGBitmapAlphaInfo::NoneSkipLast)
            } else if alpha_bits == 2 {
                Some(CGBitmapAlphaInfo::PremultipliedFirst)
            } else if alpha_bits == 1 {
                Some(CGBitmapAlphaInfo::PremultipliedLast)
            } else {
                None
            },
            byte_order: if order_bits == 0x1000 {
                CGBitmapByteOrder::B16Little
            } else if order_bits == 0x3000 {
                CGBitmapByteOrder::B16Big
            } else if order_bits == 0x2000 {
                CGBitmapByteOrder::B32Little
            } else if order_bits == 0x4000 {
                CGBitmapByteOrder::B32Big
            } else {
                CGBitmapByteOrder::B8
            },
            float: (bitmap_info_raw & K_CG_BITMAP_FLOAT_INFO_MASK) != 0,
        }
    }
}

/// The pixel packing in bits 16 to 19 of the pixel format info: 1 RGB555,
/// 2 RGB565, 3 RGB101010; anything else (the CIF10 packing, 4, included)
/// reads as packed.
pub open spec fn spec_image_pixel_format(bits: u32) -> CGImagePixelFormat {
    if bits == 0x10000 {
        CGImagePixelFormat::Rgb555
    } else if bits == 0x20000 {
        CGImagePixelFormat::Rgb565
    } else if bits == 0x30000 {
        CGImagePixelFormat::Rgb101010
    } else {
        CGImagePixelFormat::Packed
    }
}

impl CGImagePixelFormat {
    /// Decodes the pixel format info word of a Core Graphics image
    pub fn from_raw(pixel_format_raw: u32) -> (r: Self)
        ensures
            r == spec_image_pixel_format(pixel_format_raw & K_CG_IMAGE_PIXEL_FORMAT_MASK),
    {
        let bits = pixel_format_raw & K_CG_IMAGE_PIXEL_FORMAT_MASK;
        if bits == 0x10000 {
            CGImagePixelFormat::Rgb555
        } else if bits == 0x20000 {
            CGImagePixelFormat::Rgb565
        } else if bits == 0x30000 {
            CGImagePixelFormat::Rgb101010
        } else {
            CGImagePixelFormat::Packed
        }
    }
}

/// No pixel format info word decodes as the CIF10 packing, and no bitmap
/// info word decodes as alpha-only.
pub proof fn law_unreachable_layouts(raw: u32)
    ensures
        spec_image_pixel_format(raw & K_CG_IMAGE_PIXEL_FORMAT_MASK) != CGImagePixelFormat::RgbCif10,
        spec_alpha_info(raw & K_CG_BITMAP_INFO_ALPHA_MASK) != Some(CGBitmapAlphaInfo::AlphaOnly),
{
}

/// Styles of content the system content picker offers
#[derive(Copy, Clone, Debug, PartialEq, Eq, Structural)]
pub enum SCShareableContentStyle {
    Application,
    Display,
    Window,
    NoStyle,
}

impl SCShareableContentStyle {
    pub open spec fn spec_value(self) -> usize {
        match self {
            SCShareableContentStyle::Application => 3,
            SCShareableContentStyle::Window => 1,
            SCShareableContentStyle::Display => 2,
            SCShareableContentStyle::NoStyle => 0,
        }
    }

    /// The number the picker API uses for the style
    pub fn value(&self) -> (r: usize)
        ensures
            r == self.spec_value(),
    {
        match self {
            SCShareableContentStyle::Application => 3,
            SCShareableContentStyle::Window => 1,
            SCShareableContentStyle::Display => 2,
            SCShareableContentStyle::NoStyle => 0,
        }
    }
}

pub const SC_CONTENT_SHARING_PICKER_MODE_SINGLE_WINDOW: usize = 1;
pub const SC_CONTENT_SHARING_PICKER_MODE_MULTIPLE_WINDOWS: usize = 2;
pub const SC_CONTENT_SHARING_PICKER_MODE_SINGLE_APPLICATION: usize = 4;
pub const SC_CONTENT_SHARING_PICKER_MODE_MULTIPLE_APPLICATIONS: usize = 8;
pub const SC_CONTENT_SHARING_PICKER_MODE_SINGLE_DISPLAY: usize = 16;

/// A failure reported by a screen capture stream's callbacks
#[derive(Debug)]
pub enum SCStreamCallbackError {
    /// The sample buffer could not be copied
    SampleBufferCopyFailed,
    /// The stream stopped
    StreamStopped,
    /// Another failure, with the fields of its error object
    Other { description: String, reason: String, code: isize, domain: String },
}

} // verus!

verus! {

/// The order of two Core Media times, from the system's three-way
/// comparison of them: -1, 0 and 1 order them; any other answer leaves them
/// unordered.
pub fn cmtime_order(comparison: i32) -> (r: Option<std::cmp::Ordering>)
    ensures
        comparison == -1 ==> r == Some(std::cmp::Ordering::Less),
        comparison == 0 ==> r == Some(std::cmp::Ordering::Equal),
        comparison == 1 ==> r == Some(std::cmp::Ordering::Greater),
        comparison != -1 && comparison != 0 && comparison != 1 ==> r is None,
{
    if comparison == -1 {
        Some(std::cmp::Ordering::Less)
    } else if comparison == 0 {
        Some(std::cmp::Ordering::Equal)
    } else if comparison == 1 {
        Some(std::cmp::Ordering::Greater)
    } else {
        None
    }
}

} // verus!

verus! {

/// The id of a window on Mac OS
#[derive(Copy, Clone, Debug, PartialEq, Eq, Structural)]
pub struct CGWindowID(pub u32);

impl CGWindowID {
    /// The id as a number
    pub fn raw(&self) -> (r: u32)
        ensures
            r == self.0,
    {
        self.0
    }
}

} // verus!
