//! The logic of a multi-camera recording service: segment boundary
//! detection, recording-session bookkeeping, per-camera supervision with
//! backoff, the upload retry protocol, configuration and metrics.
//!
//! The library decides and computes; it starts no process, opens no file
//! and waits for nothing. A program around it runs the capture tool, reads
//! its diagnostics, talks to the object store, and asks the library at each
//! step what the step means and what to do next.

pub mod camera;
pub mod clock;
pub mod config;
pub mod coordinator;
pub mod metrics;
pub mod state;
pub mod storage;
pub mod text;

pub use state::ServiceState;
