use sdl2_bridge::error::BridgeError;
use sdl2_bridge::pixels::{
    Color, PixelARGB2101010, PixelBGR24, PixelFormatFlag, PixelRGB24, PixelRGBA8888, RawPixel,
    ToColor, RGB, RGBA,
};

#[test]
fn color_new_keeps_channels() {
    let c = Color::new(1, 2, 3, 4);
    assert_eq!((c.r, c.g, c.b, c.a), (1, 2, 3, 4));
    assert_eq!(c.to_tuple(), (1, 2, 3, 4));
}

#[test]
fn color_packs_red_high_alpha_low() {
    assert_eq!(Color::new(0x12, 0x34, 0x56, 0x78).to_u32(), 0x12345678);
    assert_eq!(Color::new(255, 0, 0, 0).to_u32(), 0xff000000);
    assert_eq!(Color::new(0, 0, 0, 255).to_u32(), 0x000000ff);
}

#[test]
fn color_unpacks_red_high_alpha_low() {
    assert_eq!(Color::from_u32(0xdeadbeef), Color::new(0xde, 0xad, 0xbe, 0xef));
    assert_eq!(Color::from_u32(0), Color::new(0, 0, 0, 0));
}

#[test]
fn color_pack_round_trips() {
    for v in [0u32, 1, 0x80808080, 0xffffffff, 0x01020304] {
        assert_eq!(Color::from_u32(v).to_u32(), v);
    }
    let c = Color::new(9, 200, 17, 128);
    assert_eq!(Color::from_u32(c.to_u32()), c);
}

#[test]
fn color_random_round_trips() {
    let c = Color::random().expect("the operating system's random source works here");
    assert_eq!(Color::from_u32(c.to_u32()), c);
}

#[test]
fn to_color_of_each_kind() {
    assert_eq!(RGB(1, 2, 3).to_color(), Color::new(1, 2, 3, 255));
    assert_eq!(RGBA(1, 2, 3, 4).to_color(), Color::new(1, 2, 3, 4));
    assert_eq!(0x0a0b0c0du32.to_color(), Color::new(10, 11, 12, 13));
    assert_eq!((5u8, 6u8, 7u8, 8u8).to_color(), Color::new(5, 6, 7, 8));
    assert_eq!(ToColor::to_color(&Color::new(1, 1, 1, 1)), Color::new(1, 1, 1, 1));
}

#[test]
fn to_color_packed_form() {
    assert_eq!(ToColor::to_u32(&RGB(0x11, 0x22, 0x33)), 0x112233ff);
    assert_eq!(ToColor::to_u32(&RGBA(0x11, 0x22, 0x33, 0x44)), 0x11223344);
    assert_eq!(ToColor::to_u32(&0x55667788u32), 0x55667788);
}

#[test]
fn bytes_per_pixel_by_format() {
    assert_eq!(PixelFormatFlag::RGB332.byte_size_per_pixel(), Ok(1));
    assert_eq!(PixelFormatFlag::RGB565.byte_size_per_pixel(), Ok(2));
    assert_eq!(PixelFormatFlag::ARGB4444.byte_size_per_pixel(), Ok(2));
    assert_eq!(PixelFormatFlag::BGR24.byte_size_per_pixel(), Ok(3));
    assert_eq!(PixelFormatFlag::ARGB8888.byte_size_per_pixel(), Ok(4));
    assert_eq!(PixelFormatFlag::ARGB2101010.byte_size_per_pixel(), Ok(4));
    assert_eq!(PixelFormatFlag::YV12.byte_size_per_pixel(), Ok(2));
    assert_eq!(PixelFormatFlag::YUY2.byte_size_per_pixel(), Ok(2));
}

#[test]
fn bytes_per_pixel_refuses_indexed_and_unknown() {
    for f in [
        PixelFormatFlag::Unknown,
        PixelFormatFlag::Index1LSB,
        PixelFormatFlag::Index1MSB,
        PixelFormatFlag::Index4LSB,
        PixelFormatFlag::Index4MSB,
        PixelFormatFlag::Index8,
    ] {
        assert_eq!(f.byte_size_per_pixel(), Err(BridgeError::UnsupportedPixelFormat));
        assert_eq!(f.byte_size_of_pixels(10), Err(BridgeError::UnsupportedPixelFormat));
    }
}

#[test]
fn bytes_of_pixels_by_format() {
    assert_eq!(PixelFormatFlag::RGB332.byte_size_of_pixels(7), Ok(7));
    assert_eq!(PixelFormatFlag::BGR555.byte_size_of_pixels(7), Ok(14));
    assert_eq!(PixelFormatFlag::RGB24.byte_size_of_pixels(7), Ok(21));
    assert_eq!(PixelFormatFlag::RGBA8888.byte_size_of_pixels(7), Ok(28));
    assert_eq!(PixelFormatFlag::UYVY.byte_size_of_pixels(7), Ok(14));
    assert_eq!(PixelFormatFlag::IYUV.byte_size_of_pixels(8), Ok(12));
    // three bytes for each whole pair of pixels
    assert_eq!(PixelFormatFlag::YV12.byte_size_of_pixels(7), Ok(9));
    assert_eq!(PixelFormatFlag::RGB888.byte_size_of_pixels(0), Ok(0));
}

#[test]
fn format_codes_round_trip() {
    assert_eq!(PixelFormatFlag::ARGB8888.value(), 0x16362004);
    assert_eq!(PixelFormatFlag::Unknown.value(), 0);
    assert_eq!(PixelFormatFlag::from_value(0x32315659), Some(PixelFormatFlag::YV12));
    assert_eq!(PixelFormatFlag::from_value(0x12345678), None);
    for f in [PixelFormatFlag::RGB24, PixelFormatFlag::BGRA8888, PixelFormatFlag::YVYU] {
        assert_eq!(PixelFormatFlag::from_value(f.value()), Some(f));
    }
}

#[test]
fn raw_pixel_formats() {
    assert_eq!(PixelRGB24::pixel_format(), PixelFormatFlag::RGB24);
    assert_eq!(PixelBGR24::pixel_format(), PixelFormatFlag::BGR24);
    assert_eq!(PixelRGBA8888::pixel_format(), PixelFormatFlag::RGBA8888);
}

#[test]
fn argb2101010_channels() {
    // alpha 0b11, red 0x3ff, green 0, blue 0x155
    let p = PixelARGB2101010::new((3u32 << 30) | (0x3ff << 20) | 0x155);
    assert_eq!(p.get_a(), 192);
    assert_eq!(p.get_r(), 0xff);
    assert_eq!(p.get_g(), 0);
    assert_eq!(p.get_b(), 0x55);
    let q = PixelARGB2101010::new(1u32 << 30);
    assert_eq!(q.get_a(), 64);
    assert_eq!(q.get_r(), 0);
}
