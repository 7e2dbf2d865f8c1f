//! The layout of a framebuffer: its dimensions and the encoding of a pixel.
use vstd::prelude::*;

verus! {

/// How the bytes of one pixel encode its colour.
#[derive(Clone, Copy, Debug, PartialEq, Eq, Structural)]
pub enum PixelFormat {
    /// One byte red, one byte green, one byte blue.
    Rgb,
    /// One byte blue, one byte green, one byte red.
    Bgr,
    /// A single byte per pixel.
    U8,
    /// Any layout that the console does not know.
    Unknown,
}

/// The geometry of a framebuffer, trusted as handed over at boot.
#[derive(Clone, Copy, Debug, PartialEq, Eq, Structural)]
pub struct Geometry {
    /// Width of the visible display in pixels.
    pub width: usize,
    /// Height of the visible display in pixels.
    pub height: usize,
    /// Pixels from the start of one row to the start of the next.
    pub stride: usize,
    /// Bytes that one pixel occupies.
    pub bytes_per_pixel: usize,
    /// Encoding of one pixel.
    pub pixel_format: PixelFormat,
}

impl Geometry {
    /// Index of the pixel at column `x` of row `y`, counted in pixels.
    pub open spec fn pixel_index(self, x: int, y: int) -> int {
        y * self.stride + x
    }

    /// Offset of the first byte of the pixel at column `x` of row `y`.
    pub open spec fn pixel_offset(self, x: int, y: int) -> int {
        self.pixel_index(x, y) * self.bytes_per_pixel
    }

    /// Every step of computing the byte range of the pixel at (`x`, `y`)
    /// stays within a machine word.
    pub open spec fn addressable(self, x: int, y: int) -> bool {
        &&& x <= usize::MAX
        &&& y <= usize::MAX
        &&& y * self.stride <= usize::MAX
        &&& self.pixel_index(x, y) <= usize::MAX
        &&& self.pixel_offset(x, y) <= usize::MAX
        &&& self.pixel_offset(x, y) + self.bytes_per_pixel <= usize::MAX
    }

    /// The pixel at (`x`, `y`) can be addressed and all of its bytes lie
    /// inside a buffer of `len` bytes.
    pub open spec fn pixel_fits(self, len: int, x: int, y: int) -> bool {
        self.addressable(x, y) && self.pixel_offset(x, y) + self.bytes_per_pixel <= len
    }

    /// The offset one past the last byte of the pixel at (`x + dx`, `y + dy`),
    /// or `None` where that pixel cannot be addressed.
    pub fn pixel_end(&self, x: usize, dx: usize, y: usize, dy: usize) -> (end: Option<usize>)
        ensures
            end is Some <==> self.addressable(x + dx, y + dy),
            end matches Some(e) ==> e == self.pixel_offset(x + dx, y + dy) + self.bytes_per_pixel,
    {
        let col = match x.checked_add(dx) {
            Some(v) => v,
            None => { return None; },
        };
        let row = match y.checked_add(dy) {
            Some(v) => v,
            None => { return None; },
        };
        let row_start = match row.checked_mul(self.stride) {
            Some(v) => v,
            None => { return None; },
        };
        let index = match row_start.checked_add(col) {
            Some(v) => v,
            None => { return None; },
        };
        let offset = match index.checked_mul(self.bytes_per_pixel) {
            Some(v) => v,
            None => { return None; },
        };
        offset.checked_add(self.bytes_per_pixel)
    }
}

} // verus!
