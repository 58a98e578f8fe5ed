use vstd::prelude::*;

verus! {

/// Failures that a display backend reports; the orchestrators hand them on unchanged.
#[derive(Debug, PartialEq, Eq)]
pub enum VideoBufferError {
    /// The backend could not be set up; the text says why.
    InitFailed(String),
    /// A frame was presented before the backend was set up.
    NotInitialized,
    /// The backend failed to show a frame; the text says why.
    PresentFailed(String),
}

} // verus!
