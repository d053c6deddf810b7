//! Driver core for SSD1331-based color displays on a write-only serial bus.
//!
//! The crate covers the command encoder with its bounded batching buffer, the
//! device-state tracking that elides redundant commands, the orientation
//! dependent coordinate mapping, and the pixel color packing. The hardware
//! itself (reset line, command/data select line, bus transfers, delays) is
//! driven by a thin shell around this crate that performs the transfers this
//! crate computes.

use vstd::prelude::*;

pub mod cmdbuf;
pub mod command;
pub mod driver;
pub mod framebuffer;
pub mod geometry;
pub mod pixel;
pub mod rgb332;
pub mod rgb565;

pub use command::Command;
pub use driver::Ssd1331;
pub use framebuffer::Framebuffer;
pub use command::clamp;
pub use geometry::Point;
pub use geometry::Rect;
pub use geometry::Size;
pub use pixel::PixelBytes;
pub use rgb332::Rgb332;
pub use rgb565::Rgb565;

verus! {

/// Width of the physical panel in RAM columns.
pub const DISPLAY_WIDTH: u32 = 96;

/// Height of the physical panel in RAM rows.
pub const DISPLAY_HEIGHT: u32 = 64;

/// Number of bytes per pixel in a data transfer.
///
/// The display RAM always stores 16 bits per pixel; when 8-bit data is sent,
/// the controller fills in the lower bits. 16-bit pixels are always sent in
/// big-endian order.
#[derive(Clone, Copy, PartialEq, Eq, Structural, Debug)]
pub enum BitDepth {
    Eight,
    Sixteen,
}

impl BitDepth {
    /// Bit set in the remap command's flags byte to select this depth.
    pub open spec fn spec_code(self) -> u8 {
        match self {
            BitDepth::Eight => 0x00,
            BitDepth::Sixteen => 0x40,
        }
    }

    /// Controller flag bit for this bit depth.
    pub fn code(self) -> (code: u8)
        ensures
            code == self.spec_code(),
    {
        match self {
            BitDepth::Eight => 0x00,
            BitDepth::Sixteen => 0x40,
        }
    }

    /// Number of bytes each pixel occupies in a transfer of this depth.
    pub fn bytes(&self) -> (n: usize)
        ensures
            n == self.spec_bytes(),
    {
        match self {
            BitDepth::Eight => 1,
            BitDepth::Sixteen => 2,
        }
    }

    /// Byte width of a pixel at this depth.
    pub open spec fn spec_bytes(self) -> nat {
        match self {
            BitDepth::Eight => 1,
            BitDepth::Sixteen => 2,
        }
    }
}

/// Row- or column-major order of pixels for a data transfer.
#[derive(Clone, Copy, PartialEq, Eq, Structural, Debug)]
pub enum PixelOrder {
    RowMajor,
    ColumnMajor,
}

impl PixelOrder {
    /// Bit this field contributes to the remap command's flags byte.
    pub open spec fn spec_code(self) -> u8 {
        match self {
            PixelOrder::RowMajor => 0x00,
            PixelOrder::ColumnMajor => 0x01,
        }
    }

    /// Controller flag bit for this pixel order.
    pub fn code(self) -> (code: u8)
        ensures
            code == self.spec_code(),
    {
        match self {
            PixelOrder::RowMajor => 0x00,
            PixelOrder::ColumnMajor => 0x01,
        }
    }
}

/// Order in which a data transfer populates a given RAM row.
#[derive(Clone, Copy, PartialEq, Eq, Structural, Debug)]
pub enum ColumnDirection {
    LeftToRight,
    RightToLeft,
}

impl ColumnDirection {
    /// Bit this field contributes to the remap command's flags byte.
    pub open spec fn spec_code(self) -> u8 {
        match self {
            ColumnDirection::LeftToRight => 0x00,
            ColumnDirection::RightToLeft => 0x02,
        }
    }

    /// Controller flag bit for this column direction.
    pub fn code(self) -> (code: u8)
        ensures
            code == self.spec_code(),
    {
        match self {
            ColumnDirection::LeftToRight => 0x00,
            ColumnDirection::RightToLeft => 0x02,
        }
    }
}

/// Mapping between RAM rows and physical display rows.
///
/// Changing this flips the displayed pixels vertically without modifying RAM
/// contents.
#[derive(Clone, Copy, PartialEq, Eq, Structural, Debug)]
pub enum RowDirection {
    Normal,
    Reversed,
}

impl RowDirection {
    /// Bit this field contributes to the remap command's flags byte.
    pub open spec fn spec_code(self) -> u8 {
        match self {
            RowDirection::Normal => 0x00,
            RowDirection::Reversed => 0x10,
        }
    }

    /// Controller flag bit for this row direction.
    pub fn code(self) -> (code: u8)
        ensures
            code == self.spec_code(),
    {
        match self {
            RowDirection::Normal => 0x00,
            RowDirection::Reversed => 0x10,
        }
    }
}

/// Whether the physical display rows are interleaved compared to the RAM
/// rows.
///
/// Most panels built around this controller interleave the row pins, so all
/// pre-configured data mappings enable this.
#[derive(Clone, Copy, PartialEq, Eq, Structural, Debug)]
pub enum RowInterleave {
    Disabled,
    Enabled,
}

impl RowInterleave {
    /// Bit this field contributes to the remap command's flags byte.
    pub open spec fn spec_code(self) -> u8 {
        match self {
            RowInterleave::Disabled => 0x00,
            RowInterleave::Enabled => 0x20,
        }
    }

    /// Controller flag bit for this row interleave setting.
    pub fn code(self) -> (code: u8)
        ensures
            code == self.spec_code(),
    {
        match self {
            RowInterleave::Disabled => 0x00,
            RowInterleave::Enabled => 0x20,
        }
    }
}

/// Describes the mapping between the display memory and the physical pixels.
///
/// A driver instance is constructed with one configuration and keeps it for
/// its whole lifetime.
#[derive(Clone, Copy, PartialEq, Eq, Structural, Debug)]
pub struct Config {
    pub pixel_order: PixelOrder,
    pub column_direction: ColumnDirection,
    pub row_direction: RowDirection,
    pub row_interleave: RowInterleave,
}

impl Config {
    /// Flags byte of the remap command: the OR of the four field codes and
    /// the bit depth's code.
    pub open spec fn spec_flags(self, depth: BitDepth) -> u8 {
        self.row_direction.spec_code() | self.row_interleave.spec_code()
            | self.pixel_order.spec_code() | self.column_direction.spec_code()
            | depth.spec_code()
    }

    /// Computes the remap command's flags byte for this mapping and depth.
    pub fn flags(self, depth: BitDepth) -> (flags: u8)
        ensures
            flags == self.spec_flags(depth),
    {
        self.row_direction.code() | self.row_interleave.code() | self.pixel_order.code()
            | self.column_direction.code() | depth.code()
    }

    /// For orientation rotated 90 degrees counter-clockwise from the default.
    pub fn ccw90() -> (config: Self)
        ensures
            config == (Config {
                pixel_order: PixelOrder::ColumnMajor,
                column_direction: ColumnDirection::LeftToRight,
                row_direction: RowDirection::Reversed,
                row_interleave: RowInterleave::Enabled,
            }),
    {
        Config {
            pixel_order: PixelOrder::ColumnMajor,
            column_direction: ColumnDirection::LeftToRight,
            row_direction: RowDirection::Reversed,
            row_interleave: RowInterleave::Enabled,
        }
    }

    /// For orientation rotated 180 degrees from the default.
    pub fn ccw180() -> (config: Self)
        ensures
            config == (Config {
                pixel_order: PixelOrder::RowMajor,
                column_direction: ColumnDirection::RightToLeft,
                row_direction: RowDirection::Reversed,
                row_interleave: RowInterleave::Enabled,
            }),
    {
        Config {
            pixel_order: PixelOrder::RowMajor,
            column_direction: ColumnDirection::RightToLeft,
            row_direction: RowDirection::Reversed,
            row_interleave: RowInterleave::Enabled,
        }
    }

    /// For orientation rotated 270 degrees counter-clockwise from the default.
    pub fn ccw270() -> (config: Self)
        ensures
            config == (Config {
                pixel_order: PixelOrder::ColumnMajor,
                column_direction: ColumnDirection::RightToLeft,
                row_direction: RowDirection::Normal,
                row_interleave: RowInterleave::Enabled,
            }),
    {
        Config {
            pixel_order: PixelOrder::ColumnMajor,
            column_direction: ColumnDirection::RightToLeft,
            row_direction: RowDirection::Normal,
            row_interleave: RowInterleave::Enabled,
        }
    }
}

impl Default for Config {
    /// Creates a configuration for the default orientation.
    ///
    /// This matches the settings the display assumes after reset, except that
    /// the row interleave is enabled.
    fn default() -> (config: Self)
        ensures
            config == (Config {
                pixel_order: PixelOrder::RowMajor,
                column_direction: ColumnDirection::LeftToRight,
                row_direction: RowDirection::Normal,
                row_interleave: RowInterleave::Enabled,
            }),
    {
        Config {
            pixel_order: PixelOrder::RowMajor,
            column_direction: ColumnDirection::LeftToRight,
            row_direction: RowDirection::Normal,
            row_interleave: RowInterleave::Enabled,
        }
    }
}

/// Error type for this driver.
///
/// Only used by the hardware shell to propagate failures of the two digital
/// output lines and of the bus; the core never produces one itself.
#[derive(Debug)]
pub enum Error<PinE, SpiE> {
    Pin(PinE),
    Spi(SpiE),
}

} // verus!
