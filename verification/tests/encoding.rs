//! Tests for the coordinate clamp, the command encodings and the bounded
//! command buffer's append/flush discipline.

use ssd1331_async::clamp;
use ssd1331_async::BitDepth;
use ssd1331_async::ColumnDirection;
use ssd1331_async::Command;
use ssd1331_async::Config;
use ssd1331_async::Point;
use ssd1331_async::Rect;
use ssd1331_async::Rgb565;
use ssd1331_async::Size;

fn pushed(cmd: Command) -> Vec<u8> {
    let mut buf: heapless::Vec<u8, 16> = heapless::Vec::new();
    assert!(cmd.push(&mut buf));
    buf.as_slice().to_vec()
}

#[test]
fn clamp_values() {
    assert_eq!(clamp(-5), 0);
    assert_eq!(clamp(300), 44);
    assert_eq!(clamp(0), 0);
    assert_eq!(clamp(255), 255);
    assert_eq!(clamp(i32::MIN), 0);
    assert_eq!(clamp(256), 0);
}

#[test]
fn master_current_encoding() {
    assert_eq!(pushed(Command::MasterCurrent(5)), vec![0x87, 5]);
    assert_eq!(pushed(Command::MasterCurrent(15)), vec![0x87, 15]);
    // Levels above 15 clamp to full scale.
    assert_eq!(pushed(Command::MasterCurrent(99)), vec![0x87, 15]);
}

#[test]
fn contrast_encoding() {
    assert_eq!(
        pushed(Command::Contrast(0x80, 0x50, 0x80)),
        vec![0x81, 0x80, 0x82, 0x50, 0x83, 0x80]
    );
}

#[test]
fn display_on_encoding() {
    assert_eq!(pushed(Command::DisplayOn(true)), vec![0xAF]);
    assert_eq!(pushed(Command::DisplayOn(false)), vec![0xAE]);
}

#[test]
fn remap_encoding() {
    // Default mapping: only row interleave set, depth bit for sixteen.
    assert_eq!(
        pushed(Command::RemapAndColorDepth(Config::default(), BitDepth::Sixteen)),
        vec![0xA0, 0x60]
    );
    // Rotated 90 degrees counter-clockwise, eight bits per pixel:
    // column-major (0x01), reversed rows (0x10), interleave (0x20).
    assert_eq!(
        pushed(Command::RemapAndColorDepth(Config::ccw90(), BitDepth::Eight)),
        vec![0xA0, 0x31]
    );
    assert_eq!(
        pushed(Command::RemapAndColorDepth(Config::ccw180(), BitDepth::Sixteen)),
        vec![0xA0, 0x72]
    );
    assert_eq!(
        pushed(Command::RemapAndColorDepth(Config::ccw270(), BitDepth::Sixteen)),
        vec![0xA0, 0x63]
    );
}

#[test]
fn clear_window_encoding() {
    let full = Rect::new(Point::new(0, 0), Size::new(96, 64));
    assert_eq!(pushed(Command::ClearWindow(full)), vec![0x25, 0, 0, 95, 63]);
}

#[test]
fn address_rectangle_encoding() {
    let area = Rect::new(Point::new(32, 0), Size::new(64, 64));
    assert_eq!(
        pushed(Command::AddressRectangle(area)),
        vec![0x15, 32, 95, 0x75, 0, 63]
    );
}

#[test]
fn draw_line_encoding() {
    let color = Rgb565::new(31, 63, 31);
    assert_eq!(
        pushed(Command::DrawLine(Point::new(-5, 300), Point::new(10, 20), color)),
        vec![0x21, 0, 44, 10, 20, 31, 63, 31]
    );
}

#[test]
fn draw_rectangle_encoding() {
    let border = Rgb565::new(31, 0, 0);
    let fill = Rgb565::new(0, 0, 31);
    let r = Rect::new(Point::new(1, 2), Size::new(3, 4));
    assert_eq!(
        pushed(Command::DrawRectangle(r, border, fill)),
        vec![0x22, 1, 2, 3, 5, 31, 0, 0, 0, 0, 31]
    );
}

#[test]
fn set_fill_encoding() {
    assert_eq!(pushed(Command::SetFillEnabled(true)), vec![0x26, 1]);
    assert_eq!(pushed(Command::SetFillEnabled(false)), vec![0x26, 0]);
}

#[test]
fn noop_encoding() {
    assert_eq!(pushed(Command::NoOp), vec![0xBC]);
}

#[test]
fn append_that_overflows_leaves_buffer_untouched() {
    let mut buf: heapless::Vec<u8, 16> = heapless::Vec::new();
    assert!(Command::Contrast(1, 2, 3).push(&mut buf));
    assert!(Command::Contrast(4, 5, 6).push(&mut buf));
    assert_eq!(buf.len(), 12);
    let before = buf.as_slice().to_vec();
    // Eleven more bytes cannot fit: the append fails without mutation.
    let r = Rect::new(Point::new(0, 0), Size::new(2, 2));
    let big = Command::DrawRectangle(r, Rgb565::new(0, 0, 0), Rgb565::new(0, 0, 0));
    assert!(!big.push(&mut buf));
    assert_eq!(buf.as_slice(), before.as_slice());
    assert!(buf.len() <= 16);
    // After a flush empties the buffer, the same append succeeds.
    buf.clear();
    assert!(big.push(&mut buf));
    assert_eq!(buf.len(), 11);
    assert!(buf.len() <= 16);
}
