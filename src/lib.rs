use vstd::prelude::*;

pub mod bridge;
pub mod buffer;
pub mod convert;
pub mod error;
pub mod format;
pub mod frame_queue;
pub mod roles;
pub mod traits;

pub use bridge::{DisplayBridge, DisplayPresenter};
pub use buffer::{DoubleBuffer, SlotReader, SlotWriter, TripleBuffer};
pub use convert::{convert, convert_prgb_to_rgba, convert_rgba_to_prgb, needs_conversion};
pub use error::VideoBufferError;
pub use format::PixelFormat;
pub use frame_queue::FrameQueue;
pub use roles::{Commit, RoleTable};
pub use traits::{DisplayBackend, Renderer};

verus! {

} // verus!
