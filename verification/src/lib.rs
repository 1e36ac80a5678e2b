//! The host side of a real-time path-tracing viewer, without its devices:
//! the camera and the input that steers it, the records and buffers that the
//! compute kernel reads, the bindings of the two pipelines, and the order of
//! a frame.
//!
//! Single-precision numbers are kept by their bit patterns (see `scalar`).
//! What takes arithmetic on them is left to the caller, who hands the results
//! in; what the host decides about them is decided here.

pub mod clock;
pub mod controls;
pub mod frame;
pub mod gpu;
pub mod scalar;
pub mod scene;
