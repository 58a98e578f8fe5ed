use vstd::prelude::*;

verus! {

/// One of the two packed layouts with four 8-bit channels per pixel.
#[derive(Clone, Copy, Debug, PartialEq, Eq, Structural)]
pub enum PixelFormat {
    /// Channels in R, G, B, A order.
    Rgba8,
    /// Channels in A, R, G, B order. The name follows the premultiplied convention of
    /// the producers that emit it, but the library treats it as a byte order only:
    /// converting to or from it moves bytes and never scales colour by alpha.
    Prgb8,
}

/// Bytes in one row of `width` pixels.
pub open spec fn row_bytes(width: int) -> int {
    4 * width
}

/// Bytes in a tightly packed frame of `width` by `height` pixels.
pub open spec fn frame_bytes(width: int, height: int) -> int {
    4 * (width * height)
}

impl PixelFormat {
    /// Number of bytes per pixel: four for both layouts.
    pub fn bytes_per_pixel(self) -> (r: usize)
        ensures
            r == 4,
    {
        match self {
            PixelFormat::Rgba8 => 4,
            PixelFormat::Prgb8 => 4,
        }
    }

    /// Bytes per row for the given width.
    pub fn stride(self, width: u32) -> (r: usize)
        requires
            row_bytes(width as int) <= usize::MAX,
        ensures
            r == row_bytes(width as int),
    {
        width as usize * self.bytes_per_pixel()
    }

    /// Total bytes of a frame with the given dimensions, rows without padding.
    pub fn buffer_size(self, width: u32, height: u32) -> (r: usize)
        requires
            row_bytes(width as int) <= usize::MAX,
            frame_bytes(width as int, height as int) <= usize::MAX,
        ensures
            r == frame_bytes(width as int, height as int),
    {
        proof {
            assert(row_bytes(width as int) * height == frame_bytes(width as int, height as int))
                by (nonlinear_arith);
        }
        let s = self.stride(width);
        s * height as usize
    }
}

} // verus!
