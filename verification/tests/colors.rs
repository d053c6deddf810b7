//! Tests for the two pixel formats and their round-trip and serialization
//! behaviour.

use ssd1331_async::BitDepth;
use ssd1331_async::PixelBytes;
use ssd1331_async::Rgb332;
use ssd1331_async::Rgb565;

#[test]
fn bit_depth_bytes() {
    assert_eq!(BitDepth::Eight.bytes(), 1);
    assert_eq!(BitDepth::Sixteen.bytes(), 2);
}

#[test]
fn rgb332_round_trip_all_channels() {
    for r in 0..8u8 {
        for g in 0..8u8 {
            for b in 0..4u8 {
                let c = Rgb332::new(r, g, b);
                assert_eq!(c.r(), r);
                assert_eq!(c.g(), g);
                assert_eq!(c.b(), b);
            }
        }
    }
}

#[test]
fn rgb332_masks_out_of_range_channels() {
    assert_eq!(Rgb332::new(0xFF, 0xFF, 0xFF), Rgb332::new(7, 7, 3));
    assert_eq!(Rgb332::new(7, 7, 3).raw(), 0xFF);
    assert_eq!(Rgb332::new(0, 0, 0).raw(), 0x00);
    assert_eq!(Rgb332::new(1, 1, 1).raw(), 0b0010_0101);
}

#[test]
fn rgb332_from_raw_round_trip() {
    let c = Rgb332::from_raw(0b1010_1101);
    assert_eq!(c.raw(), 0b1010_1101);
    assert_eq!(c.r(), 0b101);
    assert_eq!(c.g(), 0b011);
    assert_eq!(c.b(), 0b01);
}

#[test]
fn rgb332_from_luma() {
    assert_eq!(Rgb332::from_luma(0xFF), Rgb332::new(7, 7, 3));
    assert_eq!(Rgb332::from_luma(0x00), Rgb332::new(0, 0, 0));
    assert_eq!(Rgb332::from_luma(0x40), Rgb332::new(2, 2, 1));
}

#[test]
fn rgb332_from_rgb888() {
    assert_eq!(Rgb332::from_rgb888(0xFF, 0x00, 0xFF), Rgb332::new(7, 0, 3));
    assert_eq!(Rgb332::from_rgb888(0x20, 0x40, 0x80), Rgb332::new(1, 2, 2));
}

#[test]
fn rgb332_serializes_to_one_byte() {
    let mut out = Vec::new();
    Rgb332::new(7, 0, 3).append_be_bytes(&mut out);
    assert_eq!(out, vec![0b1110_0011]);
    assert_eq!(<Rgb332 as PixelBytes>::width(), 1);
}

#[test]
fn rgb565_round_trip_all_channels() {
    for r in 0..32u8 {
        for g in 0..64u8 {
            for b in 0..32u8 {
                let c = Rgb565::new(r, g, b);
                assert_eq!(c.r(), r);
                assert_eq!(c.g(), g);
                assert_eq!(c.b(), b);
            }
        }
    }
}

#[test]
fn rgb565_masks_out_of_range_channels() {
    assert_eq!(Rgb565::new(0xFF, 0xFF, 0xFF), Rgb565::new(31, 63, 31));
    assert_eq!(Rgb565::new(31, 63, 31).raw(), 0xFFFF);
}

#[test]
fn rgb565_serializes_big_endian() {
    let mut out = Vec::new();
    Rgb565::new(31, 0, 0).append_be_bytes(&mut out);
    assert_eq!(out, vec![0xF8, 0x00]);
    out.clear();
    Rgb565::new(0, 0, 31).append_be_bytes(&mut out);
    assert_eq!(out, vec![0x00, 0x1F]);
    out.clear();
    Rgb565::new(0, 63, 0).append_be_bytes(&mut out);
    assert_eq!(out, vec![0x07, 0xE0]);
    assert_eq!(<Rgb565 as PixelBytes>::width(), 2);
}

#[test]
fn rgb565_from_raw_round_trip() {
    let c = Rgb565::from_raw(0xABCD);
    assert_eq!(c.raw(), 0xABCD);
    let mut out = Vec::new();
    c.append_be_bytes(&mut out);
    assert_eq!(out, vec![0xAB, 0xCD]);
}
