//! Pixel formats: types convertible to a fixed number of raw bytes.
//!
//! The framebuffer and the write path are parameterized over a pixel format
//! through [`PixelBytes`]: a color that serializes itself to one or two raw
//! bytes, big-endian, as the display controller expects.

use vstd::prelude::*;

verus! {

/// A color value that serializes to a fixed number of raw bytes.
pub trait PixelBytes: Sized + Copy {
    /// Number of bytes each pixel of this format occupies.
    spec fn spec_width() -> nat;

    /// The raw bytes of this color, most significant first.
    spec fn spec_be_bytes(self) -> Seq<u8>;

    /// Byte width of this format: one or two bytes per pixel.
    fn width() -> (n: usize)
        ensures
            n == Self::spec_width(),
            1 <= n <= 2,
    ;

    /// Appends this color's raw bytes, most significant first.
    fn append_be_bytes(self, out: &mut Vec<u8>)
        ensures
            final(out)@ == old(out)@ + self.spec_be_bytes(),
            self.spec_be_bytes().len() == Self::spec_width(),
    ;
}

} // verus!
