//! Lifecycle of a GPU-backed drawing surface bound to a platform window: the
//! window / GPU backend / surface state machine, the reconfiguration policy
//! on resize, and the per-frame acquire → render → present protocol.
pub mod surface;
pub mod lifecycle;
pub mod payload;
pub mod laws;
