//! Contract between the frame loop and the display collaborators.
//!
//! The analysis loop does not know which renderer is attached; it only hands
//! each frame's magnitudes out and reacts to these two small types.

use vstd::prelude::*;

verus! {

/// Input of the frame display hook.
pub struct FrameInput {
    /// New spectrum length (if any), after a display resize.
    pub new_spectrum_len: Option<usize>,
}

/// Output of the frame display hook.
#[must_use]
#[derive(Debug, PartialEq)]
pub enum FrameResult {
    /// Call me back on the next frame.
    Continue,

    /// It's time to exit the event loop.
    Stop,
}

} // verus!
