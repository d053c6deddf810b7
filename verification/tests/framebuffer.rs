//! Tests for the framebuffer: exposed byte count, pixel writes, and
//! clipping.

use ssd1331_async::BitDepth;
use ssd1331_async::Framebuffer;
use ssd1331_async::Rgb332;
use ssd1331_async::Rgb565;
use ssd1331_async::Size;

#[test]
fn exposes_exactly_the_declared_bytes() {
    // Oversized backing storage: the declared 32x40 grid at one byte per
    // pixel still exposes exactly 1280 bytes for transfer.
    let fb: Framebuffer<Rgb332> = Framebuffer::new(vec![0u8; 2000], Size::new(32, 40));
    assert_eq!(fb.pixel_count(), 1280);
    assert_eq!(fb.data().len(), 1280);
    assert_eq!(fb.color_mode(), BitDepth::Eight);
}

#[test]
fn out_of_bounds_write_changes_nothing() {
    let mut fb: Framebuffer<Rgb332> = Framebuffer::new(vec![0xAB; 2000], Size::new(32, 40));
    fb.set_pixel(32, 0, Rgb332::new(7, 7, 3));
    fb.set_pixel(0, 40, Rgb332::new(7, 7, 3));
    fb.set_pixel(-1, 0, Rgb332::new(7, 7, 3));
    fb.set_pixel(0, -1, Rgb332::new(7, 7, 3));
    let data = fb.into_data();
    assert_eq!(data.len(), 2000);
    assert!(data.iter().all(|&b| b == 0xAB));
}

#[test]
fn set_pixel_writes_one_byte_for_rgb332() {
    let mut fb: Framebuffer<Rgb332> = Framebuffer::new(vec![0u8; 12], Size::new(4, 3));
    fb.set_pixel(1, 2, Rgb332::new(7, 0, 3));
    let data = fb.data();
    for (i, &b) in data.iter().enumerate() {
        if i == 2 * 4 + 1 {
            assert_eq!(b, 0b1110_0011);
        } else {
            assert_eq!(b, 0);
        }
    }
}

#[test]
fn set_pixel_writes_big_endian_for_rgb565() {
    let mut fb: Framebuffer<Rgb565> = Framebuffer::new(vec![0u8; 24], Size::new(4, 3));
    fb.set_pixel(1, 2, Rgb565::new(31, 0, 0));
    let data = fb.data();
    let offset = (2 * 4 + 1) * 2;
    for (i, &b) in data.iter().enumerate() {
        if i == offset {
            assert_eq!(b, 0xF8);
        } else if i == offset + 1 {
            assert_eq!(b, 0x00);
        } else {
            assert_eq!(b, 0);
        }
    }
}

#[test]
fn storage_reuse_for_other_shapes() {
    let fb: Framebuffer<Rgb565> = Framebuffer::new(vec![0u8; 2560], Size::new(32, 40));
    assert_eq!(fb.data().len(), 2560);
    let storage = fb.into_data();
    // The same storage serves a smaller 16-bit area, then an 8-bit one.
    let fb: Framebuffer<Rgb565> = Framebuffer::new(storage, Size::new(6, 12));
    assert_eq!(fb.data().len(), 144);
    let storage = fb.into_data();
    let fb: Framebuffer<Rgb332> = Framebuffer::new(storage, Size::new(50, 51));
    assert_eq!(fb.data().len(), 2550);
    assert_eq!(fb.size(), Size::new(50, 51));
}
