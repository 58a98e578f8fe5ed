use vstd::prelude::*;
use crate::error::VideoBufferError;
use crate::format::PixelFormat;

verus! {

/// A source that fills one frame of pixels at a time.
pub trait Renderer {
    /// Layout of the bytes that `render` writes.
    const FORMAT: PixelFormat;

    /// Fills `frame` with one frame of `width` by `height` pixels.
    fn render(&mut self, frame: &mut [u8], width: u32, height: u32)
        ensures
            final(frame)@.len() == old(frame)@.len(),
    ;
}

/// A sink that shows finished frames.
pub trait DisplayBackend {
    /// Layout of the bytes that `present` expects.
    const FORMAT: PixelFormat;

    /// Prepares the backend for frames of `width` by `height` pixels.
    fn init(&mut self, width: u32, height: u32) -> Result<(), VideoBufferError>;

    /// Shows one frame, laid out in `FORMAT`.
    fn present(&mut self, frame: &[u8]) -> Result<(), VideoBufferError>;
}

} // verus!
