//! Bootstrap and run-loop core of a minimal application framework.
//!
//! The library owns the application lifecycle: single-instance creation,
//! the create -> loop -> shutdown protocol, suspend/resume gating of the
//! simulation step, and the platform boundary (window state, message pump,
//! message dispatch) that the lifecycle depends on.

pub mod app;
pub mod events;
pub mod game;
pub mod platform;
