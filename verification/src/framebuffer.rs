//! A memory framebuffer addressed as a 2-D grid of pixels.
//!
//! The backing byte storage is interpreted row-major. The same storage can
//! be reused sequentially for areas of different shape or color depth; the
//! framebuffer exposes exactly `width * height * pixel_width` bytes for
//! transfer, never more, even when the storage is larger.

use vstd::prelude::*;
use vstd::slice::slice_subrange;

use crate::BitDepth;
use crate::geometry::Size;
use crate::pixel::PixelBytes;

verus! {

/// A byte buffer addressed as a grid of pixels of one format.
pub struct Framebuffer<C> {
    size: Size,
    data: Vec<u8>,
    _color: core::marker::PhantomData<C>,
}

impl<C: PixelBytes> Framebuffer<C> {
    /// Declared size of the framebuffer, in pixels.
    pub closed spec fn spec_size(self) -> Size {
        self.size
    }

    /// The backing byte storage.
    pub closed spec fn spec_data(self) -> Seq<u8> {
        self.data@
    }

    /// The backing storage holds at least the declared grid.
    pub open spec fn wf(self) -> bool {
        self.spec_size().width * self.spec_size().height * C::spec_width()
            <= self.spec_data().len()
    }

    /// Number of bytes the declared grid occupies.
    pub open spec fn spec_byte_count(self) -> int {
        self.spec_size().width * self.spec_size().height * C::spec_width()
    }

    /// The point lies on the declared grid.
    pub open spec fn spec_in_bounds(self, x: int, y: int) -> bool {
        0 <= x < self.spec_size().width && 0 <= y < self.spec_size().height
    }

    /// Byte offset of the pixel at `(x, y)` in row-major order.
    pub open spec fn spec_offset(self, x: int, y: int) -> int {
        (y * self.spec_size().width + x) * C::spec_width()
    }

    /// Creates a framebuffer of the given size over the given storage.
    ///
    /// The storage must be large enough to hold the requested grid.
    pub fn new(data: Vec<u8>, size: Size) -> (fb: Self)
        requires
            size.width * size.height * C::spec_width() <= data@.len(),
        ensures
            fb.wf(),
            fb.spec_size() == size,
            fb.spec_data() == data@,
    {
        Framebuffer { size, data, _color: core::marker::PhantomData }
    }

    /// Consumes the framebuffer and hands the backing storage back, so one
    /// oversized buffer can serve several shapes or depths in turn.
    pub fn into_data(self) -> (data: Vec<u8>)
        ensures
            data@ == self.spec_data(),
    {
        self.data
    }

    /// Declared size of the framebuffer.
    pub fn size(&self) -> (s: Size)
        ensures
            s == self.spec_size(),
    {
        self.size
    }

    /// Number of pixels on the declared grid.
    pub fn pixel_count(&self) -> (count: usize)
        requires
            self.wf(),
        ensures
            count == self.spec_size().width * self.spec_size().height,
    {
        let width = C::width();
        proof {
            lemma_grid_fits(
                self.spec_size().width as int,
                self.spec_size().height as int,
                C::spec_width() as int,
            );
            assert(self.data.len() == self.data@.len());
        }
        (self.size.width as usize) * (self.size.height as usize)
    }

    /// The bit depth matching this framebuffer's pixel format.
    pub fn color_mode(&self) -> (depth: BitDepth)
        ensures
            depth.spec_bytes() == C::spec_width(),
    {
        let width = C::width();
        if width == 1 {
            BitDepth::Eight
        } else {
            BitDepth::Sixteen
        }
    }

    /// The bytes of the declared grid, ready for transfer: exactly
    /// `width * height * pixel_width` bytes, whatever the storage's size.
    pub fn data(&self) -> (bytes: &[u8])
        requires
            self.wf(),
        ensures
            bytes@ == self.spec_data().subrange(0, self.spec_byte_count()),
            bytes@.len() == self.spec_byte_count(),
    {
        let width = C::width();
        proof {
            lemma_grid_fits(
                self.spec_size().width as int,
                self.spec_size().height as int,
                C::spec_width() as int,
            );
            assert(self.data.len() == self.data@.len());
        }
        let count = (self.size.width as usize) * (self.size.height as usize);
        let byte_count = count * width;
        slice_subrange(self.data.as_slice(), 0, byte_count)
    }

    /// Writes one pixel at `(x, y)`, silently clipped: a point off the
    /// declared grid leaves every byte unchanged.
    pub fn set_pixel(&mut self, x: i32, y: i32, color: C)
        requires
            old(self).wf(),
        ensures
            final(self).wf(),
            final(self).spec_size() == old(self).spec_size(),
            final(self).spec_data().len() == old(self).spec_data().len(),
            !old(self).spec_in_bounds(x as int, y as int) ==> final(self).spec_data() == old(
                self,
            ).spec_data(),
            old(self).spec_in_bounds(x as int, y as int) ==> {
                let offset = old(self).spec_offset(x as int, y as int);
                &&& forall|i: int|
                    0 <= i < C::spec_width() ==> final(self).spec_data()[offset + i]
                        == color.spec_be_bytes()[i]
                &&& forall|i: int|
                    0 <= i < old(self).spec_data().len() && !(offset <= i < offset
                        + C::spec_width()) ==> final(self).spec_data()[i] == old(
                        self,
                    ).spec_data()[i]
            },
    {
        let ghost orig = *self;
        if x < 0 || y < 0 {
            return ;
        }
        let xu = x as usize;
        let yu = y as usize;
        let w = self.size.width as usize;
        let h = self.size.height as usize;
        if xu >= w || yu >= h {
            return ;
        }
        let width = C::width();
        proof {
            lemma_grid_fits(w as int, h as int, C::spec_width() as int);
            lemma_pixel_in_grid(xu as int, yu as int, w as int, h as int, C::spec_width() as int);
            assert(self.data.len() == self.data@.len());
        }
        let offset = (yu * w + xu) * width;
        let mut bytes: Vec<u8> = Vec::new();
        color.append_be_bytes(&mut bytes);
        let mut i: usize = 0;
        while i < width
            invariant
                i <= width,
                width == C::spec_width(),
                bytes@ == color.spec_be_bytes(),
                bytes@.len() == width,
                offset == orig.spec_offset(xu as int, yu as int),
                offset + width <= self.data@.len(),
                self.size == orig.spec_size(),
                self.data@.len() == orig.spec_data().len(),
                forall|j: int| 0 <= j < i ==> self.data@[offset + j] == bytes@[j],
                forall|j: int|
                    0 <= j < self.data@.len() && !(offset <= j < offset + i) ==> self.data@[j]
                        == orig.spec_data()[j],
            decreases width - i,
        {
            proof {
                assert(self.data.len() == self.data@.len());
            }
            let byte = bytes[i];
            self.data[offset + i] = byte;
            i = i + 1;
        }
    }
}

/// With at least one byte per pixel, the pixel grid is no larger than its
/// byte count, which the backing storage bounds.
proof fn lemma_grid_fits(w: int, h: int, b: int)
    by (nonlinear_arith)
    requires
        0 <= w,
        0 <= h,
        1 <= b,
    ensures
        w * h <= w * h * b,
{
}

/// The bytes of a pixel on the grid lie within the grid's byte count.
proof fn lemma_pixel_in_grid(x: int, y: int, w: int, h: int, b: int)
    by (nonlinear_arith)
    requires
        0 <= x < w,
        0 <= y < h,
        1 <= b,
    ensures
        y * w + x < w * h,
        y * w + x <= (y * w + x) * b,
        (y * w + x) * b + b <= (w * h) * b,
{
}

} // verus!
