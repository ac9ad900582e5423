//! Pixel formats and conversion routines.
use vstd::prelude::*;

use crate::error::BridgeError;

verus! {

/// A colour with 8-bit red, green, blue and alpha channels.
#[derive(Debug, Clone, Copy, PartialEq, Eq, Structural)]
pub struct Color {
    pub r: u8,
    pub g: u8,
    pub b: u8,
    pub a: u8,
}

/// The packed form of a colour: red in the high byte, alpha in the low byte.
pub open spec fn pack_rgba(r: u8, g: u8, b: u8, a: u8) -> u32 {
    ((r as u32) << 24u32) | ((g as u32) << 16u32) | ((b as u32) << 8u32) | (a as u32)
}

/// The eight bits of `v` that start at bit `shift`.
pub open spec fn channel(v: u32, shift: u32) -> u8 {
    ((v >> shift) & 0xffu32) as u8
}

impl Color {
    pub fn new(r: u8, g: u8, b: u8, a: u8) -> (c: Color)
        ensures
            c == (Color { r, g, b, a }),
    {
        Color { r: r, g: g, b: b, a: a }
    }

    /// Unpacks `val`, whose high byte is red and whose low byte is alpha.
    pub fn from_u32(val: u32) -> (c: Color)
        ensures
            c.r == channel(val, 24),
            c.g == channel(val, 16),
            c.b == channel(val, 8),
            c.a == channel(val, 0),
    {
        Color {
            r: ((val >> 24u32) & 0xffu32) as u8,
            g: ((val >> 16u32) & 0xffu32) as u8,
            b: ((val >> 8u32) & 0xffu32) as u8,
            a: ((val >> 0u32) & 0xffu32) as u8,
        }
    }

    /// Packs the colour as `0xRRGGBBAA`.
    pub fn to_u32(&self) -> (v: u32)
        ensures
            v == pack_rgba(self.r, self.g, self.b, self.a),
    {
        (self.r as u32) << 24u32 | (self.g as u32) << 16u32 | (self.b as u32) << 8u32
            | self.a as u32
    }

    pub fn to_tuple(&self) -> (t: (u8, u8, u8, u8))
        ensures
            t == (self.r, self.g, self.b, self.a),
    {
        (self.r, self.g, self.b, self.a)
    }
}

/// Unpacking a packed colour gives its channels back.
pub proof fn lemma_unpack_pack(r: u8, g: u8, b: u8, a: u8)
    ensures
        channel(pack_rgba(r, g, b, a), 24) == r,
        channel(pack_rgba(r, g, b, a), 16) == g,
        channel(pack_rgba(r, g, b, a), 8) == b,
        channel(pack_rgba(r, g, b, a), 0) == a,
{
    assert(channel(pack_rgba(r, g, b, a), 24) == r) by (bit_vector);
    assert(channel(pack_rgba(r, g, b, a), 16) == g) by (bit_vector);
    assert(channel(pack_rgba(r, g, b, a), 8) == b) by (bit_vector);
    assert(channel(pack_rgba(r, g, b, a), 0) == a) by (bit_vector);
}

/// Packing the channels of a value gives the value back.
pub proof fn lemma_pack_unpack(v: u32)
    ensures
        pack_rgba(channel(v, 24), channel(v, 16), channel(v, 8), channel(v, 0)) == v,
{
    assert(pack_rgba(channel(v, 24), channel(v, 16), channel(v, 8), channel(v, 0)) == v)
        by (bit_vector);
}

/// Relies on rand's `OsRng::try_fill_bytes` (from rand_core): fills four
/// bytes from the operating system's random source, or returns an error where
/// that source fails; it does not panic. Nothing is promised of the value.
#[verifier::external_body]
fn random_u32() -> Option<u32> {
    let mut bytes = [0u8; 4];
    match rand::RngCore::try_fill_bytes(&mut rand::rngs::OsRng, &mut bytes) {
        Ok(()) => Some(u32::from_ne_bytes(bytes)),
        Err(_) => None,
    }
}

impl Color {
    /// A colour drawn from the operating system's random source, where that
    /// source works; every colour can come out.
    pub fn random() -> Option<Color> {
        match random_u32() {
            Some(v) => Some(Color::from_u32(v)),
            None => None,
        }
    }
}

/// A value that stands for a colour.
pub trait ToColor {
    spec fn spec_color(&self) -> Color;

    fn to_color(&self) -> (c: Color)
        ensures
            c == self.spec_color(),
    ;

    /// The colour packed as `0xRRGGBBAA`.
    fn to_u32(&self) -> (v: u32)
        ensures
            v == pack_rgba(
                self.spec_color().r,
                self.spec_color().g,
                self.spec_color().b,
                self.spec_color().a,
            ),
    {
        self.to_color().to_u32()
    }
}

impl ToColor for Color {
    open spec fn spec_color(&self) -> Color {
        *self
    }

    fn to_color(&self) -> (c: Color) {
        *self
    }
}

/// An opaque colour given by its red, green and blue channels.
#[derive(Debug, Clone, Copy, PartialEq, Eq, Structural)]
pub struct RGB(pub u8, pub u8, pub u8);

impl ToColor for RGB {
    open spec fn spec_color(&self) -> Color {
        Color { r: self.0, g: self.1, b: self.2, a: 255 }
    }

    fn to_color(&self) -> (c: Color) {
        Color::new(self.0, self.1, self.2, 255u8)
    }
}

/// A colour given by its red, green, blue and alpha channels.
#[derive(Debug, Clone, Copy, PartialEq, Eq, Structural)]
pub struct RGBA(pub u8, pub u8, pub u8, pub u8);

impl ToColor for RGBA {
    open spec fn spec_color(&self) -> Color {
        Color { r: self.0, g: self.1, b: self.2, a: self.3 }
    }

    fn to_color(&self) -> (c: Color) {
        Color::new(self.0, self.1, self.2, self.3)
    }
}

impl ToColor for u32 {
    open spec fn spec_color(&self) -> Color {
        Color {
            r: channel(*self, 24),
            g: channel(*self, 16),
            b: channel(*self, 8),
            a: channel(*self, 0),
        }
    }

    fn to_color(&self) -> (c: Color) {
        Color::from_u32(*self)
    }
}

impl ToColor for (u8, u8, u8, u8) {
    open spec fn spec_color(&self) -> Color {
        Color { r: self.0, g: self.1, b: self.2, a: self.3 }
    }

    fn to_color(&self) -> (c: Color) {
        Color::new(self.0, self.1, self.2, self.3)
    }
}

/// The pixel formats, each standing for its 32-bit native format code.
#[derive(Debug, Clone, Copy, PartialEq, Eq, Structural)]
pub enum PixelFormatFlag {
    Unknown,
    Index1LSB,
    Index1MSB,
    Index4LSB,
    Index4MSB,
    Index8,
    RGB332,
    RGB444,
    RGB555,
    BGR555,
    ARGB4444,
    RGBA4444,
    ABGR4444,
    BGRA4444,
    ARGB1555,
    RGBA5551,
    ABGR1555,
    BGRA5551,
    RGB565,
    BGR565,
    RGB24,
    BGR24,
    RGB888,
    RGBX8888,
    BGR888,
    BGRX8888,
    ARGB8888,
    RGBA8888,
    ABGR8888,
    BGRA8888,
    ARGB2101010,
    YV12,
    IYUV,
    YUY2,
    UYVY,
    YVYU,
}

impl PixelFormatFlag {
    pub open spec fn spec_value(self) -> u32 {
        match self {
            PixelFormatFlag::Unknown => 0x00000000,
            PixelFormatFlag::Index1LSB => 0x11100100,
            PixelFormatFlag::Index1MSB => 0x11200100,
            PixelFormatFlag::Index4LSB => 0x12100400,
            PixelFormatFlag::Index4MSB => 0x12200400,
            PixelFormatFlag::Index8 => 0x13000801,
            PixelFormatFlag::RGB332 => 0x14110801,
            PixelFormatFlag::RGB444 => 0x15120c02,
            PixelFormatFlag::RGB555 => 0x15130f02,
            PixelFormatFlag::BGR555 => 0x15530f02,
            PixelFormatFlag::ARGB4444 => 0x15321002,
            PixelFormatFlag::RGBA4444 => 0x15421002,
            PixelFormatFlag::ABGR4444 => 0x15721002,
            PixelFormatFlag::BGRA4444 => 0x15821002,
            PixelFormatFlag::ARGB1555 => 0x15331002,
            PixelFormatFlag::RGBA5551 => 0x15441002,
            PixelFormatFlag::ABGR1555 => 0x15731002,
            PixelFormatFlag::BGRA5551 => 0x15841002,
            PixelFormatFlag::RGB565 => 0x15151002,
            PixelFormatFlag::BGR565 => 0x15551002,
            PixelFormatFlag::RGB24 => 0x17101803,
            PixelFormatFlag::BGR24 => 0x17401803,
            PixelFormatFlag::RGB888 => 0x16161804,
            PixelFormatFlag::RGBX8888 => 0x16261804,
            PixelFormatFlag::BGR888 => 0x16561804,
            PixelFormatFlag::BGRX8888 => 0x16661804,
            PixelFormatFlag::ARGB8888 => 0x16362004,
            PixelFormatFlag::RGBA8888 => 0x16462004,
            PixelFormatFlag::ABGR8888 => 0x16762004,
            PixelFormatFlag::BGRA8888 => 0x16862004,
            PixelFormatFlag::ARGB2101010 => 0x16372004,
            PixelFormatFlag::YV12 => 0x32315659,
            PixelFormatFlag::IYUV => 0x56555949,
            PixelFormatFlag::YUY2 => 0x32595559,
            PixelFormatFlag::UYVY => 0x59565955,
            PixelFormatFlag::YVYU => 0x55595659,
        }
    }

    /// Formats whose pixels have no fixed byte size here: the unknown
    /// format and the indexed ones.
    pub open spec fn is_indexed_or_unknown(self) -> bool {
        self == PixelFormatFlag::Unknown
        || self == PixelFormatFlag::Index1LSB
        || self == PixelFormatFlag::Index1MSB
        || self == PixelFormatFlag::Index4LSB
        || self == PixelFormatFlag::Index4MSB
        || self == PixelFormatFlag::Index8
    }

    /// Bytes per pixel of a format that has a fixed size.
    pub open spec fn spec_bytes_per_pixel(self) -> nat {
        match self {
            PixelFormatFlag::RGB332 => 1,
            PixelFormatFlag::RGB24 | PixelFormatFlag::BGR24 => 3,
            PixelFormatFlag::RGB888
            | PixelFormatFlag::RGBX8888
            | PixelFormatFlag::BGR888
            | PixelFormatFlag::BGRX8888
            | PixelFormatFlag::ARGB8888
            | PixelFormatFlag::RGBA8888
            | PixelFormatFlag::ABGR8888
            | PixelFormatFlag::BGRA8888
            | PixelFormatFlag::ARGB2101010 => 4,
            _ => 2,
        }
    }

    /// Bytes taken by `n` pixels of a format that has a fixed size; the
    /// planar formats YV12 and IYUV take three bytes for each pair of pixels.
    pub open spec fn spec_byte_size_of_pixels(self, n: nat) -> nat {
        match self {
            PixelFormatFlag::YV12 | PixelFormatFlag::IYUV => n / 2 * 3,
            _ => n * self.spec_bytes_per_pixel(),
        }
    }

    /// The native format code.
    pub fn value(&self) -> (v: u32)
        ensures
            v == self.spec_value(),
    {
        match self {
            PixelFormatFlag::Unknown => 0x00000000,
            PixelFormatFlag::Index1LSB => 0x11100100,
            PixelFormatFlag::Index1MSB => 0x11200100,
            PixelFormatFlag::Index4LSB => 0x12100400,
            PixelFormatFlag::Index4MSB => 0x12200400,
            PixelFormatFlag::Index8 => 0x13000801,
            PixelFormatFlag::RGB332 => 0x14110801,
            PixelFormatFlag::RGB444 => 0x15120c02,
            PixelFormatFlag::RGB555 => 0x15130f02,
            PixelFormatFlag::BGR555 => 0x15530f02,
            PixelFormatFlag::ARGB4444 => 0x15321002,
            PixelFormatFlag::RGBA4444 => 0x15421002,
            PixelFormatFlag::ABGR4444 => 0x15721002,
            PixelFormatFlag::BGRA4444 => 0x15821002,
            PixelFormatFlag::ARGB1555 => 0x15331002,
            PixelFormatFlag::RGBA5551 => 0x15441002,
            PixelFormatFlag::ABGR1555 => 0x15731002,
            PixelFormatFlag::BGRA5551 => 0x15841002,
            PixelFormatFlag::RGB565 => 0x15151002,
            PixelFormatFlag::BGR565 => 0x15551002,
            PixelFormatFlag::RGB24 => 0x17101803,
            PixelFormatFlag::BGR24 => 0x17401803,
            PixelFormatFlag::RGB888 => 0x16161804,
            PixelFormatFlag::RGBX8888 => 0x16261804,
            PixelFormatFlag::BGR888 => 0x16561804,
            PixelFormatFlag::BGRX8888 => 0x16661804,
            PixelFormatFlag::ARGB8888 => 0x16362004,
            PixelFormatFlag::RGBA8888 => 0x16462004,
            PixelFormatFlag::ABGR8888 => 0x16762004,
            PixelFormatFlag::BGRA8888 => 0x16862004,
            PixelFormatFlag::ARGB2101010 => 0x16372004,
            PixelFormatFlag::YV12 => 0x32315659,
            PixelFormatFlag::IYUV => 0x56555949,
            PixelFormatFlag::YUY2 => 0x32595559,
            PixelFormatFlag::UYVY => 0x59565955,
            PixelFormatFlag::YVYU => 0x55595659,
        }
    }

    /// The format with native code `v`, if there is one.
    pub fn from_value(v: u32) -> (r: Option<PixelFormatFlag>)
        ensures
            r matches Some(f) ==> f.spec_value() == v,
            r is None ==> forall|f: PixelFormatFlag| f.spec_value() != v,
    {
        match v {
            0x00000000 => Some(PixelFormatFlag::Unknown),
            0x11100100 => Some(PixelFormatFlag::Index1LSB),
            0x11200100 => Some(PixelFormatFlag::Index1MSB),
            0x12100400 => Some(PixelFormatFlag::Index4LSB),
            0x12200400 => Some(PixelFormatFlag::Index4MSB),
            0x13000801 => Some(PixelFormatFlag::Index8),
            0x14110801 => Some(PixelFormatFlag::RGB332),
            0x15120c02 => Some(PixelFormatFlag::RGB444),
            0x15130f02 => Some(PixelFormatFlag::RGB555),
            0x15530f02 => Some(PixelFormatFlag::BGR555),
            0x15321002 => Some(PixelFormatFlag::ARGB4444),
            0x15421002 => Some(PixelFormatFlag::RGBA4444),
            0x15721002 => Some(PixelFormatFlag::ABGR4444),
            0x15821002 => Some(PixelFormatFlag::BGRA4444),
            0x15331002 => Some(PixelFormatFlag::ARGB1555),
            0x15441002 => Some(PixelFormatFlag::RGBA5551),
            0x15731002 => Some(PixelFormatFlag::ABGR1555),
            0x15841002 => Some(PixelFormatFlag::BGRA5551),
            0x15151002 => Some(PixelFormatFlag::RGB565),
            0x15551002 => Some(PixelFormatFlag::BGR565),
            0x17101803 => Some(PixelFormatFlag::RGB24),
            0x17401803 => Some(PixelFormatFlag::BGR24),
            0x16161804 => Some(PixelFormatFlag::RGB888),
            0x16261804 => Some(PixelFormatFlag::RGBX8888),
            0x16561804 => Some(PixelFormatFlag::BGR888),
            0x16661804 => Some(PixelFormatFlag::BGRX8888),
            0x16362004 => Some(PixelFormatFlag::ARGB8888),
            0x16462004 => Some(PixelFormatFlag::RGBA8888),
            0x16762004 => Some(PixelFormatFlag::ABGR8888),
            0x16862004 => Some(PixelFormatFlag::BGRA8888),
            0x16372004 => Some(PixelFormatFlag::ARGB2101010),
            0x32315659 => Some(PixelFormatFlag::YV12),
            0x56555949 => Some(PixelFormatFlag::IYUV),
            0x32595559 => Some(PixelFormatFlag::YUY2),
            0x59565955 => Some(PixelFormatFlag::UYVY),
            0x55595659 => Some(PixelFormatFlag::YVYU),
            _ => None,
        }
    }


    /// Bytes per pixel; indexed and unknown formats have none.
    pub fn byte_size_per_pixel(&self) -> (r: Result<usize, BridgeError>)
        ensures
            r is Err <==> self.is_indexed_or_unknown(),
            r is Err ==> r == Err::<usize, BridgeError>(BridgeError::UnsupportedPixelFormat),
            r matches Ok(n) ==> n == self.spec_bytes_per_pixel(),
    {
        match self {
            PixelFormatFlag::Unknown
            | PixelFormatFlag::Index1LSB
            | PixelFormatFlag::Index1MSB
            | PixelFormatFlag::Index4LSB
            | PixelFormatFlag::Index4MSB
            | PixelFormatFlag::Index8 => Err(BridgeError::UnsupportedPixelFormat),
            PixelFormatFlag::RGB332 => Ok(1),
            PixelFormatFlag::RGB24 | PixelFormatFlag::BGR24 => Ok(3),
            PixelFormatFlag::RGB888
            | PixelFormatFlag::RGBX8888
            | PixelFormatFlag::BGR888
            | PixelFormatFlag::BGRX8888
            | PixelFormatFlag::ARGB8888
            | PixelFormatFlag::RGBA8888
            | PixelFormatFlag::ABGR8888
            | PixelFormatFlag::BGRA8888
            | PixelFormatFlag::ARGB2101010 => Ok(4),
            // the packed 16-bit formats and the YUV formats
            _ => Ok(2),
        }
    }

    /// Bytes taken by `num_of_pixels` pixels; indexed and unknown formats
    /// have no fixed size.
    pub fn byte_size_of_pixels(&self, num_of_pixels: usize) -> (r: Result<usize, BridgeError>)
        requires
            !self.is_indexed_or_unknown() ==> self.spec_byte_size_of_pixels(num_of_pixels as nat)
                <= usize::MAX,
        ensures
            r is Err <==> self.is_indexed_or_unknown(),
            r is Err ==> r == Err::<usize, BridgeError>(BridgeError::UnsupportedPixelFormat),
            r matches Ok(n) ==> n == self.spec_byte_size_of_pixels(num_of_pixels as nat),
    {
        match self {
            PixelFormatFlag::YV12 | PixelFormatFlag::IYUV => Ok(num_of_pixels / 2 * 3),
            _ => match self.byte_size_per_pixel() {
                Ok(bpp) => Ok(num_of_pixels * bpp),
                Err(e) => Err(e),
            },
        }
    }
}

/// A type laid out as one pixel of a format.
pub trait RawPixel {
    spec fn spec_pixel_format() -> PixelFormatFlag;

    fn pixel_format() -> (f: PixelFormatFlag)
        ensures
            f == Self::spec_pixel_format(),
    ;
}

/// One pixel of the RGB24 format, its bytes in memory order.
pub struct PixelRGB24 {
    pub r: u8,
    pub g: u8,
    pub b: u8,
}

impl RawPixel for PixelRGB24 {
    open spec fn spec_pixel_format() -> PixelFormatFlag {
        PixelFormatFlag::RGB24
    }

    fn pixel_format() -> (f: PixelFormatFlag) {
        PixelFormatFlag::RGB24
    }
}

/// One pixel of the BGR24 format, its bytes in memory order.
pub struct PixelBGR24 {
    pub b: u8,
    pub g: u8,
    pub r: u8,
}

impl RawPixel for PixelBGR24 {
    open spec fn spec_pixel_format() -> PixelFormatFlag {
        PixelFormatFlag::BGR24
    }

    fn pixel_format() -> (f: PixelFormatFlag) {
        PixelFormatFlag::BGR24
    }
}

/// One pixel of the RGB888 format, its bytes in memory order.
pub struct PixelRGB888 {
    padding: u8,
    pub r: u8,
    pub g: u8,
    pub b: u8,
}

impl RawPixel for PixelRGB888 {
    open spec fn spec_pixel_format() -> PixelFormatFlag {
        PixelFormatFlag::RGB888
    }

    fn pixel_format() -> (f: PixelFormatFlag) {
        PixelFormatFlag::RGB888
    }
}

/// One pixel of the RGBX8888 format, its bytes in memory order.
pub struct PixelRGBX8888 {
    pub r: u8,
    pub g: u8,
    pub b: u8,
    padding: u8,
}

impl RawPixel for PixelRGBX8888 {
    open spec fn spec_pixel_format() -> PixelFormatFlag {
        PixelFormatFlag::RGBX8888
    }

    fn pixel_format() -> (f: PixelFormatFlag) {
        PixelFormatFlag::RGBX8888
    }
}

/// One pixel of the BGR888 format, its bytes in memory order.
pub struct PixelBGR888 {
    padding: u8,
    pub b: u8,
    pub g: u8,
    pub r: u8,
}

impl RawPixel for PixelBGR888 {
    open spec fn spec_pixel_format() -> PixelFormatFlag {
        PixelFormatFlag::BGR888
    }

    fn pixel_format() -> (f: PixelFormatFlag) {
        PixelFormatFlag::BGR888
    }
}

/// One pixel of the BGRX8888 format, its bytes in memory order.
pub struct PixelBGRX8888 {
    pub b: u8,
    pub g: u8,
    pub r: u8,
    padding: u8,
}

impl RawPixel for PixelBGRX8888 {
    open spec fn spec_pixel_format() -> PixelFormatFlag {
        PixelFormatFlag::BGRX8888
    }

    fn pixel_format() -> (f: PixelFormatFlag) {
        PixelFormatFlag::BGRX8888
    }
}

/// One pixel of the ARGB8888 format, its bytes in memory order.
pub struct PixelARGB8888 {
    pub a: u8,
    pub r: u8,
    pub g: u8,
    pub b: u8,
}

impl RawPixel for PixelARGB8888 {
    open spec fn spec_pixel_format() -> PixelFormatFlag {
        PixelFormatFlag::ARGB8888
    }

    fn pixel_format() -> (f: PixelFormatFlag) {
        PixelFormatFlag::ARGB8888
    }
}

/// One pixel of the RGBA8888 format, its bytes in memory order.
pub struct PixelRGBA8888 {
    pub r: u8,
    pub g: u8,
    pub b: u8,
    pub a: u8,
}

impl RawPixel for PixelRGBA8888 {
    open spec fn spec_pixel_format() -> PixelFormatFlag {
        PixelFormatFlag::RGBA8888
    }

    fn pixel_format() -> (f: PixelFormatFlag) {
        PixelFormatFlag::RGBA8888
    }
}

/// One pixel of the ABGR8888 format, its bytes in memory order.
pub struct PixelABGR8888 {
    pub a: u8,
    pub b: u8,
    pub g: u8,
    pub r: u8,
}

impl RawPixel for PixelABGR8888 {
    open spec fn spec_pixel_format() -> PixelFormatFlag {
        PixelFormatFlag::ABGR8888
    }

    fn pixel_format() -> (f: PixelFormatFlag) {
        PixelFormatFlag::ABGR8888
    }
}

/// One pixel of the BGRA8888 format, its bytes in memory order.
pub struct PixelBGRA8888 {
    pub b: u8,
    pub g: u8,
    pub r: u8,
    pub a: u8,
}

impl RawPixel for PixelBGRA8888 {
    open spec fn spec_pixel_format() -> PixelFormatFlag {
        PixelFormatFlag::BGRA8888
    }

    fn pixel_format() -> (f: PixelFormatFlag) {
        PixelFormatFlag::BGRA8888
    }
}

/// One pixel of the ARGB2101010 format: two bits of alpha, then ten bits
/// each of red, green and blue, from the high end of the word.
pub struct PixelARGB2101010 {
    raw: u32,
}

impl PixelARGB2101010 {
    pub closed spec fn spec_raw(&self) -> u32 {
        self.raw
    }

    pub fn new(raw: u32) -> (p: PixelARGB2101010)
        ensures
            p.spec_raw() == raw,
    {
        PixelARGB2101010 { raw }
    }

    /// Alpha scaled to eight bits: the two alpha bits become the top two.
    pub fn get_a(&self) -> (a: u8)
        ensures
            a == (self.spec_raw() >> 30u32) * 64,
    {
        let raw = self.raw;
        let top = raw >> 30u32;
        assert(top < 4 && top << 6u32 == top * 64) by (bit_vector)
            requires
                top == raw >> 30u32,
        ;
        (top << 6u32) as u8
    }

    /// The high eight bits of red.
    pub fn get_r(&self) -> (r: u8)
        ensures
            r == channel(self.spec_raw(), 22),
    {
        ((self.raw >> 22u32) & 0xffu32) as u8
    }

    /// The high eight bits of green.
    pub fn get_g(&self) -> (g: u8)
        ensures
            g == channel(self.spec_raw(), 12),
    {
        ((self.raw >> 12u32) & 0xffu32) as u8
    }

    /// The high eight bits of blue.
    pub fn get_b(&self) -> (b: u8)
        ensures
            b == channel(self.spec_raw(), 2),
    {
        ((self.raw >> 2u32) & 0xffu32) as u8
    }
}

} // verus!
