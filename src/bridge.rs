use vstd::prelude::*;
use crate::buffer::TripleBuffer;
use crate::convert::{convert, converted, needs_conversion};
use crate::error::VideoBufferError;
use crate::format::{frame_bytes, PixelFormat};
use crate::traits::{DisplayBackend, Renderer};

verus! {

/// A conversion scratch buffer is there exactly when frames in `from` must be
/// reordered for a sink in `to`, and then holds one frame of `len` bytes.
pub open spec fn scratch_fits(scratch: Option<Vec<u8>>, from: PixelFormat, to: PixelFormat, len: nat) -> bool {
    &&& (scratch is Some) == (from != to)
    &&& scratch is Some ==> scratch->0@.len() == len
}

/// The bytes to hand a sink in `to` for the frame `src` laid out in `from`: `src`
/// itself, or its reordering written into the scratch buffer.
fn frame_for_backend<'a>(
    scratch: &'a mut Option<Vec<u8>>,
    src: &'a [u8],
    from: PixelFormat,
    to: PixelFormat,
) -> (r: &'a [u8])
    requires
        scratch_fits(*old(scratch), from, to, src@.len()),
        src@.len() % 4 == 0,
    ensures
        r@ == converted(src@, from, to),
        scratch_fits(*final(scratch), from, to, src@.len()),
{
    match scratch {
        Some(buf) => {
            convert(src, buf.as_mut_slice(), from, to);
            buf.as_slice()
        },
        None => src,
    }
}

/// A fresh scratch buffer for one frame in `to`, or none where `from` is `to`.
fn scratch_for(from: PixelFormat, to: PixelFormat, width: u32, height: u32) -> (r: Option<Vec<u8>>)
    requires
        4 * width <= usize::MAX,
        frame_bytes(width as int, height as int) <= usize::MAX,
    ensures
        scratch_fits(r, from, to, frame_bytes(width as int, height as int) as nat),
{
    if needs_conversion(from, to) {
        let size = to.buffer_size(width, height);
        Some(vec![0u8; size])
    } else {
        None
    }
}

/// Whether a frame offered at `now_ms` may be shown, given the time of the last
/// frame shown and the rate limit: with no limit or no frame shown yet always;
/// otherwise when at least `1000 / fps` milliseconds have passed.
pub open spec fn frame_due(last_ms: Option<u64>, max_fps: Option<u32>, now_ms: u64) -> bool {
    match (max_fps, last_ms) {
        (Some(fps), Some(last)) => now_ms >= last && (now_ms - last) * fps >= 1000,
        _ => true,
    }
}

/// Shows frames that other threads produced, at most `max_fps` a second when a
/// limit is set, converting them if the backend needs another layout.
pub struct DisplayPresenter<B: DisplayBackend> {
    backend: B,
    source_format: PixelFormat,
    width: u32,
    height: u32,
    convert_buffer: Option<Vec<u8>>,
    max_fps: Option<u32>,
    last_present_ms: Option<u64>,
}

impl<B: DisplayBackend> DisplayPresenter<B> {
    /// The scratch buffer matches the source layout, the backend's, and the frame size.
    pub closed spec fn wf(&self) -> bool {
        &&& frame_bytes(self.width as int, self.height as int) <= usize::MAX
        &&& scratch_fits(
            self.convert_buffer,
            self.source_format,
            B::FORMAT,
            frame_bytes(self.width as int, self.height as int) as nat,
        )
    }

    /// Width in pixels of the frames.
    pub closed spec fn spec_width(&self) -> u32 {
        self.width
    }

    /// Height in pixels of the frames.
    pub closed spec fn spec_height(&self) -> u32 {
        self.height
    }

    /// Layout of the frames offered.
    pub closed spec fn spec_source_format(&self) -> PixelFormat {
        self.source_format
    }

    /// Length of the conversion scratch buffer, where there is one.
    pub closed spec fn scratch_len(&self) -> Option<nat> {
        match self.convert_buffer {
            Some(buf) => Some(buf@.len()),
            None => None,
        }
    }

    /// Whether frames are reordered before the backend takes them.
    pub closed spec fn spec_converts(&self) -> bool {
        self.convert_buffer is Some
    }

    /// The rate limit in frames per second, if any.
    pub closed spec fn spec_max_fps(&self) -> Option<u32> {
        self.max_fps
    }

    /// When the last frame was shown, if one was.
    pub closed spec fn last_shown(&self) -> Option<u64> {
        self.last_present_ms
    }

    /// The backend.
    pub closed spec fn spec_backend(&self) -> B {
        self.backend
    }

    /// Sets up the backend for `width` by `height` frames, then builds the presenter
    /// around it, with no rate limit; a backend failure is returned unchanged.
    pub fn new(backend: B, width: u32, height: u32, source_format: PixelFormat) -> (r: Result<
        Self,
        VideoBufferError,
    >)
        requires
            4 * width <= usize::MAX,
            frame_bytes(width as int, height as int) <= usize::MAX,
        ensures
            r matches Ok(p) ==> {
                &&& p.wf()
                &&& p.spec_width() == width
                &&& p.spec_height() == height
                &&& p.spec_source_format() == source_format
                &&& p.spec_converts() == (source_format != B::FORMAT)
                &&& p.scratch_len() == if source_format != B::FORMAT {
                    Some(frame_bytes(width as int, height as int) as nat)
                } else {
                    None::<nat>
                }
                &&& p.spec_max_fps() is None
                &&& p.last_shown() is None
            },
    {
        let mut backend = backend;
        let init = backend.init(width, height);
        Self::from_init(backend, init, width, height, source_format)
    }

    /// Builds the presenter around a backend whose set-up gave `init`: on success a
    /// presenter with no rate limit and nothing shown yet, on failure that same error.
    pub fn from_init(
        backend: B,
        init: Result<(), VideoBufferError>,
        width: u32,
        height: u32,
        source_format: PixelFormat,
    ) -> (r: Result<Self, VideoBufferError>)
        requires
            4 * width <= usize::MAX,
            frame_bytes(width as int, height as int) <= usize::MAX,
        ensures
            init is Ok <==> r is Ok,
            init matches Err(e) ==> r == Err::<Self, VideoBufferError>(e),
            r matches Ok(p) ==> {
                &&& p.wf()
                &&& p.spec_width() == width
                &&& p.spec_height() == height
                &&& p.spec_source_format() == source_format
                &&& p.spec_converts() == (source_format != B::FORMAT)
                &&& p.scratch_len() == if source_format != B::FORMAT {
                    Some(frame_bytes(width as int, height as int) as nat)
                } else {
                    None::<nat>
                }
                &&& p.spec_max_fps() is None
                &&& p.last_shown() is None
                &&& p.spec_backend() == backend
            },
    {
        match init {
            Err(e) => Err(e),
            Ok(()) => {
                let convert_buffer = scratch_for(source_format, B::FORMAT, width, height);
                Ok(DisplayPresenter {
                    backend,
                    source_format,
                    width,
                    height,
                    convert_buffer,
                    max_fps: None,
                    last_present_ms: None,
                })
            },
        }
    }

    /// The same presenter, limited to `fps` frames a second.
    pub fn with_max_fps(self, fps: u32) -> (r: Self)
        requires
            self.wf(),
        ensures
            r.wf(),
            r.spec_max_fps() == Some(fps),
            r.spec_width() == self.spec_width(),
            r.spec_height() == self.spec_height(),
            r.spec_source_format() == self.spec_source_format(),
            r.spec_converts() == self.spec_converts(),
            r.scratch_len() == self.scratch_len(),
            r.last_shown() == self.last_shown(),
            r.spec_backend() == self.spec_backend(),
    {
        DisplayPresenter { max_fps: Some(fps), ..self }
    }

    /// Whether frames are reordered before the backend takes them.
    pub fn converts(&self) -> (r: bool)
        ensures
            r == self.spec_converts(),
    {
        self.convert_buffer.is_some()
    }

    /// The backend.
    pub fn backend(&self) -> (r: &B)
        ensures
            *r == self.spec_backend(),
    {
        &self.backend
    }

    /// Whether a frame offered at `now_ms` would be shown rather than skipped.
    pub fn is_due(&self, now_ms: u64) -> (r: bool)
        ensures
            r == frame_due(self.last_shown(), self.spec_max_fps(), now_ms),
    {
        match (self.max_fps, self.last_present_ms) {
            (Some(fps), Some(last)) => {
                if now_ms < last {
                    false
                } else {
                    let elapsed = (now_ms - last) as u128;
                    proof {
                        assert(elapsed * (fps as u128) <= u64::MAX as int * u32::MAX as int)
                            by (nonlinear_arith)
                            requires
                                elapsed <= u64::MAX,
                                fps <= u32::MAX,
                        ;
                    }
                    elapsed * (fps as u128) >= 1000
                }
            },
            _ => true,
        }
    }

    /// Rotates `buffer` so its newest frame is presented, and shows that frame, if a
    /// frame is due at `now_ms`. Returns `Ok(false)` without touching the buffer or
    /// the backend when it is not; `Ok(true)` when shown; a backend failure unchanged.
    pub fn present(&mut self, buffer: &TripleBuffer, now_ms: u64) -> (r: Result<bool, VideoBufferError>)
        requires
            old(self).wf(),
            buffer.spec_width() == old(self).spec_width(),
            buffer.spec_height() == old(self).spec_height(),
            buffer.spec_format() == old(self).spec_source_format(),
        ensures
            final(self).wf(),
            !frame_due(old(self).last_shown(), old(self).spec_max_fps(), now_ms) ==> {
                &&& r == Ok::<bool, VideoBufferError>(false)
                &&& *final(self) == *old(self)
            },
            frame_due(old(self).last_shown(), old(self).spec_max_fps(), now_ms) ==> {
                &&& r is Ok ==> r == Ok::<bool, VideoBufferError>(true)
                &&& r is Ok ==> final(self).last_shown() == Some(now_ms)
                &&& r is Err ==> final(self).last_shown() == old(self).last_shown()
            },
            final(self).spec_width() == old(self).spec_width(),
            final(self).spec_height() == old(self).spec_height(),
            final(self).spec_source_format() == old(self).spec_source_format(),
            final(self).spec_max_fps() == old(self).spec_max_fps(),
            final(self).spec_converts() == old(self).spec_converts(),
            final(self).scratch_len() == old(self).scratch_len(),
    {
        if !self.is_due(now_ms) {
            return Ok(false);
        }
        buffer.commit_present();
        let shown = buffer.present_buffer();
        let frame = frame_for_backend(
            &mut self.convert_buffer,
            shown.bytes(),
            self.source_format,
            B::FORMAT,
        );
        let outcome = self.backend.present(frame);
        shown.release();
        self.record_outcome(outcome, now_ms)
    }

    /// Shows the raw frame `frame`, if a frame is due at `now_ms`. Returns `Ok(false)`
    /// without touching the backend when it is not; `Ok(true)` when shown; a backend
    /// failure unchanged.
    pub fn present_frame(&mut self, frame: &[u8], now_ms: u64) -> (r: Result<bool, VideoBufferError>)
        requires
            old(self).wf(),
            frame@.len() == frame_bytes(old(self).spec_width() as int, old(self).spec_height() as int),
        ensures
            final(self).wf(),
            !frame_due(old(self).last_shown(), old(self).spec_max_fps(), now_ms) ==> {
                &&& r == Ok::<bool, VideoBufferError>(false)
                &&& *final(self) == *old(self)
            },
            frame_due(old(self).last_shown(), old(self).spec_max_fps(), now_ms) ==> {
                &&& r is Ok ==> r == Ok::<bool, VideoBufferError>(true)
                &&& r is Ok ==> final(self).last_shown() == Some(now_ms)
                &&& r is Err ==> final(self).last_shown() == old(self).last_shown()
            },
            final(self).spec_width() == old(self).spec_width(),
            final(self).spec_height() == old(self).spec_height(),
            final(self).spec_source_format() == old(self).spec_source_format(),
            final(self).spec_max_fps() == old(self).spec_max_fps(),
            final(self).spec_converts() == old(self).spec_converts(),
            final(self).scratch_len() == old(self).scratch_len(),
    {
        if !self.is_due(now_ms) {
            return Ok(false);
        }
        let shown = frame_for_backend(&mut self.convert_buffer, frame, self.source_format, B::FORMAT);
        let outcome = self.backend.present(shown);
        self.record_outcome(outcome, now_ms)
    }

    /// Settles a presentation the backend answered with `outcome` at `now_ms`: a
    /// success counts as shown then and gives `Ok(true)`; a failure comes back
    /// unchanged and leaves the time of the last frame shown as it was.
    pub fn record_outcome(&mut self, outcome: Result<(), VideoBufferError>, now_ms: u64) -> (r: Result<
        bool,
        VideoBufferError,
    >)
        requires
            old(self).wf(),
        ensures
            final(self).wf(),
            outcome is Ok ==> {
                &&& r == Ok::<bool, VideoBufferError>(true)
                &&& final(self).last_shown() == Some(now_ms)
            },
            outcome matches Err(e) ==> {
                &&& r == Err::<bool, VideoBufferError>(e)
                &&& final(self).last_shown() == old(self).last_shown()
            },
            final(self).spec_width() == old(self).spec_width(),
            final(self).spec_height() == old(self).spec_height(),
            final(self).spec_source_format() == old(self).spec_source_format(),
            final(self).spec_max_fps() == old(self).spec_max_fps(),
            final(self).spec_converts() == old(self).spec_converts(),
            final(self).scratch_len() == old(self).scratch_len(),
            final(self).spec_backend() == old(self).spec_backend(),
    {
        match outcome {
            Ok(()) => {
                self.last_present_ms = Some(now_ms);
                Ok(true)
            },
            Err(e) => Err(e),
        }
    }
}

/// Renders and presents on the caller's thread: one call fills a slot, rotates it
/// to "present", converts it if the backend needs another layout, and shows it.
pub struct DisplayBridge<B: DisplayBackend> {
    buffer: TripleBuffer,
    backend: B,
    convert_buffer: Option<Vec<u8>>,
}

impl<B: DisplayBackend> DisplayBridge<B> {
    /// The scratch buffer matches the renderer's layout, the backend's, and the frame size.
    pub closed spec fn wf(&self) -> bool {
        scratch_fits(
            self.convert_buffer,
            self.buffer.spec_format(),
            B::FORMAT,
            self.buffer.frame_len(),
        )
    }

    /// Width in pixels of the frames.
    pub closed spec fn spec_width(&self) -> u32 {
        self.buffer.spec_width()
    }

    /// Height in pixels of the frames.
    pub closed spec fn spec_height(&self) -> u32 {
        self.buffer.spec_height()
    }

    /// Layout in which the renderer fills the frames.
    pub closed spec fn spec_format(&self) -> PixelFormat {
        self.buffer.spec_format()
    }

    /// Length of the conversion scratch buffer, where there is one.
    pub closed spec fn scratch_len(&self) -> Option<nat> {
        match self.convert_buffer {
            Some(buf) => Some(buf@.len()),
            None => None,
        }
    }

    /// Whether frames are reordered before the backend takes them.
    pub closed spec fn spec_converts(&self) -> bool {
        self.convert_buffer is Some
    }

    /// The backend.
    pub closed spec fn spec_backend(&self) -> B {
        self.backend
    }

    /// Sets up the backend for `width` by `height` frames, then builds the bridge
    /// around it; a backend failure is returned unchanged.
    pub fn new(backend: B, width: u32, height: u32, renderer_format: PixelFormat) -> (r: Result<
        Self,
        VideoBufferError,
    >)
        requires
            width > 0,
            height > 0,
            frame_bytes(width as int, height as int) <= usize::MAX,
        ensures
            r matches Ok(b) ==> {
                &&& b.wf()
                &&& b.spec_width() == width
                &&& b.spec_height() == height
                &&& b.spec_format() == renderer_format
                &&& b.spec_converts() == (renderer_format != B::FORMAT)
                &&& b.scratch_len() == if renderer_format != B::FORMAT {
                    Some(frame_bytes(width as int, height as int) as nat)
                } else {
                    None::<nat>
                }
            },
    {
        let mut backend = backend;
        let init = backend.init(width, height);
        Self::from_init(backend, init, width, height, renderer_format)
    }

    /// Builds the bridge around a backend whose set-up gave `init`: on success a
    /// bridge with fresh slots, on failure that same error.
    pub fn from_init(
        backend: B,
        init: Result<(), VideoBufferError>,
        width: u32,
        height: u32,
        renderer_format: PixelFormat,
    ) -> (r: Result<Self, VideoBufferError>)
        requires
            width > 0,
            height > 0,
            frame_bytes(width as int, height as int) <= usize::MAX,
        ensures
            init is Ok <==> r is Ok,
            init matches Err(e) ==> r == Err::<Self, VideoBufferError>(e),
            r matches Ok(b) ==> {
                &&& b.wf()
                &&& b.spec_width() == width
                &&& b.spec_height() == height
                &&& b.spec_format() == renderer_format
                &&& b.spec_converts() == (renderer_format != B::FORMAT)
                &&& b.scratch_len() == if renderer_format != B::FORMAT {
                    Some(frame_bytes(width as int, height as int) as nat)
                } else {
                    None::<nat>
                }
                &&& b.spec_backend() == backend
            },
    {
        match init {
            Err(e) => Err(e),
            Ok(()) => {
                proof {
                    assert(4 * width <= 4 * (width * height)) by (nonlinear_arith)
                        requires
                            height > 0,
                    ;
                }
                let buffer = TripleBuffer::new(width, height, renderer_format);
                let convert_buffer = scratch_for(renderer_format, B::FORMAT, width, height);
                Ok(DisplayBridge { buffer, backend, convert_buffer })
            },
        }
    }

    /// Renders one frame, publishes it, takes it for presentation, converts it if
    /// needed and hands it to the backend; a backend failure is returned unchanged.
    pub fn render_frame<R: Renderer>(&mut self, renderer: &mut R) -> (r: Result<(), VideoBufferError>)
        requires
            old(self).wf(),
        ensures
            final(self).wf(),
            final(self).spec_width() == old(self).spec_width(),
            final(self).spec_height() == old(self).spec_height(),
            final(self).spec_format() == old(self).spec_format(),
            final(self).spec_converts() == old(self).spec_converts(),
            final(self).scratch_len() == old(self).scratch_len(),
    {
        let width = self.buffer.width();
        let height = self.buffer.height();
        let mut slot = self.buffer.render_buffer();
        slot.fill(renderer, width, height);
        slot.release();
        self.buffer.commit_render();
        self.buffer.commit_present();
        let shown = self.buffer.present_buffer();
        let format = self.buffer.format();
        let frame = frame_for_backend(&mut self.convert_buffer, shown.bytes(), format, B::FORMAT);
        let r = self.backend.present(frame);
        shown.release();
        r
    }

    /// Width in pixels of the frames.
    pub fn width(&self) -> (r: u32)
        ensures
            r == self.spec_width(),
    {
        self.buffer.width()
    }

    /// Height in pixels of the frames.
    pub fn height(&self) -> (r: u32)
        ensures
            r == self.spec_height(),
    {
        self.buffer.height()
    }

    /// Whether frames are reordered before the backend takes them.
    pub fn converts(&self) -> (r: bool)
        ensures
            r == self.spec_converts(),
    {
        self.convert_buffer.is_some()
    }

    /// The backend.
    pub fn backend(&self) -> (r: &B)
        ensures
            *r == self.spec_backend(),
    {
        &self.backend
    }
}

} // verus!
