//! Momentum intents: what the gesture tracker hands to the momentum
//! emulator. An intent is immutable and consumed exactly once.

use crate::velocity::Velocity;
use vstd::prelude::*;

verus! {

/// One momentum intent.
#[derive(Clone, Copy, Debug, PartialEq, Eq, Structural)]
pub enum MomentumIntent {
    /// Begin pointer momentum at the given lift-off velocity.
    PointerStart(Velocity),
    /// Cancel any pointer momentum in flight.
    PointerStop,
    /// Begin scroll momentum at the given lift-off velocity.
    ScrollStart(Velocity),
    /// Cancel any scroll momentum in flight.
    ScrollStop,
}

} // verus!
