//! The fatal failure taxonomy of the pipeline. Warnings, resource-pressure
//! and flow-control signals from the engine are not errors and never appear
//! here; they drive state transitions instead.

use vstd::prelude::*;

verus! {

/// A condition that aborts the pipeline.
#[derive(Clone, Copy, PartialEq, Eq, Structural, Debug)]
pub enum PipelineError {
    /// Every surface of a pool was locked when a free one was needed.
    PoolExhausted,
    /// The input stream ended, cleanly or mid-frame, while a frame was
    /// being loaded. Only fatal outside the designed drain trigger.
    InputExhausted,
    /// The two surfaces of a cross-stage copy disagree on their computed
    /// byte sizes.
    SizeMismatch,
    /// The engine returned a fatal status.
    EncodeFailure,
    /// The output stream accepted fewer bytes than a drained payload holds.
    OutputWriteFailure,
}

} // verus!
