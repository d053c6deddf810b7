//! The 8-bit packed color format: 3 bits red, 3 bits green, 2 bits blue.

use vstd::prelude::*;

use crate::pixel::PixelBytes;

verus! {

/// Color format used by the display in 8-bit color mode.
///
/// The channels are packed into one byte: red in the top three bits, green
/// in the next three, blue in the bottom two.
#[derive(Clone, Copy, PartialEq, Eq, Structural, Debug)]
pub struct Rgb332 {
    pub raw: u8,
}

impl Rgb332 {
    /// Largest value of the red channel.
    pub const MAX_R: u8 = 7;

    /// Largest value of the green channel.
    pub const MAX_G: u8 = 7;

    /// Largest value of the blue channel.
    pub const MAX_B: u8 = 3;

    /// The packed byte for the given channel values, each masked to its
    /// width.
    pub open spec fn spec_new(r: u8, g: u8, b: u8) -> Rgb332 {
        Rgb332 { raw: ((r & 7) << 5) | ((g & 7) << 2) | (b & 3) }
    }

    /// The packed byte.
    pub open spec fn spec_raw(self) -> u8 {
        self.raw
    }

    /// Red channel: the top three bits.
    pub open spec fn spec_r(self) -> u8 {
        (self.spec_raw() >> 5) & 7
    }

    /// Green channel: the middle three bits.
    pub open spec fn spec_g(self) -> u8 {
        (self.spec_raw() >> 2) & 7
    }

    /// Blue channel: the bottom two bits.
    pub open spec fn spec_b(self) -> u8 {
        self.spec_raw() & 3
    }

    /// Packs the given channel values, each masked to its width.
    pub fn new(r: u8, g: u8, b: u8) -> (color: Self)
        ensures
            color == Self::spec_new(r, g, b),
    {
        Rgb332 { raw: ((r & 7) << 5) | ((g & 7) << 2) | (b & 3) }
    }

    /// Builds a color directly from its packed byte.
    pub fn from_raw(raw: u8) -> (color: Self)
        ensures
            color.spec_raw() == raw,
    {
        Rgb332 { raw }
    }

    /// The packed byte of this color.
    pub fn raw(self) -> (raw: u8)
        ensures
            raw == self.spec_raw(),
    {
        self.raw
    }

    /// Red channel of this color.
    pub fn r(&self) -> (r: u8)
        ensures
            r == self.spec_r(),
    {
        (self.raw >> 5) & 7
    }

    /// Green channel of this color.
    pub fn g(&self) -> (g: u8)
        ensures
            g == self.spec_g(),
    {
        (self.raw >> 2) & 7
    }

    /// Blue channel of this color.
    pub fn b(&self) -> (b: u8)
        ensures
            b == self.spec_b(),
    {
        self.raw & 3
    }

    /// The gray value `luma` mapped through the most-significant bits of
    /// each channel.
    pub fn from_luma(luma: u8) -> (color: Self)
        ensures
            color == Self::spec_new(luma >> 5, luma >> 5, luma >> 6),
    {
        Self::new(luma >> 5, luma >> 5, luma >> 6)
    }

    /// Full-precision 8-bit channels reduced to this format by keeping the
    /// most-significant bits of each channel.
    pub fn from_rgb888(r: u8, g: u8, b: u8) -> (color: Self)
        ensures
            color == Self::spec_new(r >> 5, g >> 5, b >> 6),
    {
        Self::new(r >> 5, g >> 5, b >> 6)
    }
}

/// Law: a color built from explicit channel values reports exactly those
/// values back, masked to each channel's bit width.
pub proof fn lemma_rgb332_round_trip(r: u8, g: u8, b: u8)
    ensures
        Rgb332::spec_new(r, g, b).spec_r() == (r & 7),
        Rgb332::spec_new(r, g, b).spec_g() == (g & 7),
        Rgb332::spec_new(r, g, b).spec_b() == (b & 3),
{
    assert(((((r & 7) << 5) | ((g & 7) << 2) | (b & 3)) >> 5) & 7 == (r & 7)) by (bit_vector);
    assert(((((r & 7) << 5) | ((g & 7) << 2) | (b & 3)) >> 2) & 7 == (g & 7)) by (bit_vector);
    assert(((((r & 7) << 5) | ((g & 7) << 2) | (b & 3)) & 3) == (b & 3)) by (bit_vector);
}

impl PixelBytes for Rgb332 {
    open spec fn spec_width() -> nat {
        1
    }

    open spec fn spec_be_bytes(self) -> Seq<u8> {
        seq![self.spec_raw()]
    }

    fn width() -> (n: usize)
        ensures
            n == Self::spec_width(),
            1 <= n <= 2,
    {
        1
    }

    fn append_be_bytes(self, out: &mut Vec<u8>)
        ensures
            final(out)@ == old(out)@ + self.spec_be_bytes(),
            self.spec_be_bytes().len() == Self::spec_width(),
    {
        out.push(self.raw);
        assert(out@ =~= old(out)@ + self.spec_be_bytes());
    }
}

} // verus!
