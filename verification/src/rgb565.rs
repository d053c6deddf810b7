//! The 16-bit color format: 5 bits red, 6 bits green, 5 bits blue.

use vstd::prelude::*;

use crate::pixel::PixelBytes;

verus! {

/// Color format used by the display in 16-bit color mode.
///
/// The channels are packed into one 16-bit word: red in the top five bits,
/// green in the middle six, blue in the bottom five. On the wire the word is
/// serialized big-endian, whatever the host byte order.
#[derive(Clone, Copy, PartialEq, Eq, Structural, Debug)]
pub struct Rgb565 {
    pub raw: u16,
}

impl Rgb565 {
    /// Largest value of the red channel.
    pub const MAX_R: u8 = 31;

    /// Largest value of the green channel.
    pub const MAX_G: u8 = 63;

    /// Largest value of the blue channel.
    pub const MAX_B: u8 = 31;

    /// The packed word for the given channel values, each masked to its
    /// width.
    pub open spec fn spec_new(r: u8, g: u8, b: u8) -> Rgb565 {
        Rgb565 {
            raw: ((((r & 0x1F) as u16) << 11) | (((g & 0x3F) as u16) << 5) | ((b & 0x1F) as u16)),
        }
    }

    /// The packed word.
    pub open spec fn spec_raw(self) -> u16 {
        self.raw
    }

    /// Red channel: the top five bits.
    pub open spec fn spec_r(self) -> u8 {
        ((self.spec_raw() >> 11) & 0x1F) as u8
    }

    /// Green channel: the middle six bits.
    pub open spec fn spec_g(self) -> u8 {
        ((self.spec_raw() >> 5) & 0x3F) as u8
    }

    /// Blue channel: the bottom five bits.
    pub open spec fn spec_b(self) -> u8 {
        (self.spec_raw() & 0x1F) as u8
    }

    /// Packs the given channel values, each masked to its width.
    pub fn new(r: u8, g: u8, b: u8) -> (color: Self)
        ensures
            color == Self::spec_new(r, g, b),
    {
        Rgb565 {
            raw: ((((r & 0x1F) as u16) << 11) | (((g & 0x3F) as u16) << 5) | ((b & 0x1F) as u16)),
        }
    }

    /// Builds a color directly from its packed word.
    pub fn from_raw(raw: u16) -> (color: Self)
        ensures
            color.spec_raw() == raw,
    {
        Rgb565 { raw }
    }

    /// The packed word of this color.
    pub fn raw(self) -> (raw: u16)
        ensures
            raw == self.spec_raw(),
    {
        self.raw
    }

    /// Red channel of this color.
    pub fn r(&self) -> (r: u8)
        ensures
            r == self.spec_r(),
    {
        proof {
            let raw = self.raw;
            assert((raw >> 11) & 0x1F < 256) by (bit_vector);
        }
        ((self.raw >> 11) & 0x1F) as u8
    }

    /// Green channel of this color.
    pub fn g(&self) -> (g: u8)
        ensures
            g == self.spec_g(),
    {
        proof {
            let raw = self.raw;
            assert((raw >> 5) & 0x3F < 256) by (bit_vector);
        }
        ((self.raw >> 5) & 0x3F) as u8
    }

    /// Blue channel of this color.
    pub fn b(&self) -> (b: u8)
        ensures
            b == self.spec_b(),
    {
        proof {
            let raw = self.raw;
            assert(raw & 0x1F < 256) by (bit_vector);
        }
        (self.raw & 0x1F) as u8
    }
}

/// Law: a color built from explicit channel values reports exactly those
/// values back, masked to each channel's bit width.
pub proof fn lemma_rgb565_round_trip(r: u8, g: u8, b: u8)
    ensures
        Rgb565::spec_new(r, g, b).spec_r() == (r & 0x1F),
        Rgb565::spec_new(r, g, b).spec_g() == (g & 0x3F),
        Rgb565::spec_new(r, g, b).spec_b() == (b & 0x1F),
{
    assert((((((((r & 0x1F) as u16) << 11) | (((g & 0x3F) as u16) << 5) | ((b & 0x1F) as u16))
        >> 11) & 0x1F) as u8) == (r & 0x1F)) by (bit_vector);
    assert((((((((r & 0x1F) as u16) << 11) | (((g & 0x3F) as u16) << 5) | ((b & 0x1F) as u16))
        >> 5) & 0x3F) as u8) == (g & 0x3F)) by (bit_vector);
    assert(((((((r & 0x1F) as u16) << 11) | (((g & 0x3F) as u16) << 5) | ((b & 0x1F) as u16))
        & 0x1F) as u8) == (b & 0x1F)) by (bit_vector);
}

impl PixelBytes for Rgb565 {
    open spec fn spec_width() -> nat {
        2
    }

    open spec fn spec_be_bytes(self) -> Seq<u8> {
        seq![(self.spec_raw() >> 8) as u8, (self.spec_raw() & 0xFF) as u8]
    }

    fn width() -> (n: usize)
        ensures
            n == Self::spec_width(),
            1 <= n <= 2,
    {
        2
    }

    fn append_be_bytes(self, out: &mut Vec<u8>)
        ensures
            final(out)@ == old(out)@ + self.spec_be_bytes(),
            self.spec_be_bytes().len() == Self::spec_width(),
    {
        proof {
            let raw = self.raw;
            assert(raw >> 8 < 256) by (bit_vector);
            assert(raw & 0xFF < 256) by (bit_vector);
        }
        out.push((self.raw >> 8) as u8);
        out.push((self.raw & 0xFF) as u8);
        assert(out@ =~= old(out)@ + self.spec_be_bytes());
    }
}

} // verus!
