//! Gesture-velocity tracking and momentum-decay emulation for a touchpad.
//!
//! The library reconstructs finger velocity from raw positional samples,
//! classifies lift-offs as pointer flicks or scroll flicks, and drives a
//! tick-based decay loop that turns a starting velocity into a diminishing
//! sequence of discrete pointer or scroll deltas. All quantities are exact
//! integers: velocities are rationals (position delta over elapsed
//! microseconds) and the decay runs in micro-units per second, so every
//! step of the pipeline has a precise contract.
//!
//! Device discovery, the raw event source, and the synthetic output device
//! are outside collaborators; they exchange plain values with this crate.

pub mod channel;
pub mod config;
pub mod emulator;
pub mod events;
pub mod intent;
pub mod num;
pub mod tracker;
pub mod velocity;
