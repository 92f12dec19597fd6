//! A granular sample-playback engine: a resident recording whose grain window
//! loops seamlessly, with a constant-power crossfade across the loop seam, and
//! a control channel that changes the window and the playback mode.
//!
//! Samples are 16-bit integers; envelope gains are fixed point with `UNITY`
//! standing for 1.0; rendered frames are exact, in sample units times `UNITY²`.
pub mod control;
pub mod engine;
pub mod envelope;
pub mod params;
pub mod shared;
pub mod store;
pub mod text;

pub use control::{handle, ControlArg, ControlMessage, GRAIN_ADDR, STATUS_ADDR};
pub use engine::GrainEngine;
pub use envelope::{build_envelopes, complement, isqrt, UNITY, XFADE_LEN};
pub use params::{ControlError, GrainParams, GrainStatus};
pub use shared::SharedParams;
pub use store::{deinterleave, SampleStore, StoreError, MAX_LEN};
