//! The game capability: the pluggable application that the run loop drives.
//!
//! The core consumes a game only through this interface and never inspects
//! a `GameError`; it wraps the error and propagates it.

use vstd::prelude::*;

verus! {

/// An error reported by a game callback. The core treats it as opaque and
/// only carries it to the caller; the code is the game's own taxonomy.
#[derive(Clone, Copy, Debug, PartialEq, Eq, Structural)]
pub struct GameError {
    pub code: u64,
}

/// The operations a pluggable game must supply. The core calls `initialize`
/// exactly once during creation, `on_resize` once right after a successful
/// creation, and `update` then `render` once per non-suspended loop
/// iteration. No behaviour is assumed of an implementation: the lifecycle
/// is verified for every possible outcome of these calls.
pub trait Game {
    /// One-time setup, called during application creation.
    fn initialize(&mut self) -> Result<(), GameError>;

    /// One simulation step. `dt` is the frame delta in milliseconds
    /// (currently always 0: frame timing is not computed yet).
    fn update(&mut self, dt: u64) -> Result<(), GameError>;

    /// One draw step, called only after a successful `update` in the same
    /// iteration.
    fn render(&mut self, dt: u64) -> Result<(), GameError>;

    /// Informational notice of the client-area size; never fails.
    fn on_resize(&mut self, width: u32, height: u32);
}

} // verus!
