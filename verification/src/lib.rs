//! Verified core of a screen-capture engine.
//!
//! The library chooses between a GPU-composited capture path and a legacy
//! blit-based path, normalizes their raw outputs (GPU textures with row
//! padding, device-context bitmaps) into one tightly packed RGBA layout, and
//! models the asynchronous frame delivery of the composited path as a state
//! machine whose resource discipline is proved.  All operating-system and GPU
//! calls live outside the library; it works on the plain values those calls
//! produce and consume.

pub mod blit;
pub mod composited;
pub mod enumerate;
pub mod error;
pub mod frame;
pub mod normalize;
pub mod normalized;
pub mod orchestrator;
pub mod target;
