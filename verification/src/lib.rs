//! Surface lifecycle management and pipeline orchestration for a
//! hardware-accelerated video encoder.
//!
//! The library models the orchestration layer that feeds an external codec
//! engine: fixed pools of pixel surfaces carved out of one contiguous arena,
//! raw-frame loading with crop/pitch-aware plane layouts, a single reusable
//! bitstream buffer with a two-phase end-of-stream drain protocol, and the
//! state machine that drives both the encode-only and the
//! pre-process-then-encode topologies. The engine itself is an external
//! collaborator; a deterministic in-library engine with the same status
//! taxonomy drives the verified pipeline runs.
#![allow(non_camel_case_types)]
#![allow(non_snake_case)]

pub mod bitstream;
pub mod engine;
pub mod error;
pub mod format;
pub mod loader;
pub mod params;
pub mod pipeline;
pub mod pool;
pub mod stream;
