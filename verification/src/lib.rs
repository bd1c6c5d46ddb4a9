//! Motion-and-animation core of a side-scrolling sprite demo.
//!
//! The library models the per-frame state machine of a player-controlled
//! sprite: directional input intents, viewport-clamped position updates,
//! sustain counters that drive a discrete tilt pose, a cyclic thruster
//! animation phase, a seamlessly wrapping background tile strip, and the
//! fixed-timestep pacing decision. Everything here is pure state logic;
//! windowing, event polling, rendering, clocks and sleeping live outside
//! the library.

use vstd::prelude::*;

pub mod actor;
pub mod input;
pub mod pacing;
pub mod pose;
pub mod tiles;

verus! {

/// Width of the sprite and of one background tile cell, in pixels.
pub const SPRITE_W: u32 = 16;

/// Height of the sprite and of one background tile cell, in pixels.
pub const SPRITE_H: u32 = 16;

/// Topmost allowed sprite y coordinate: a small negative margin lets the
/// sprite travel partly off the top edge of the viewport.
pub const TOP_BOUND: i32 = -8;

/// Extra travel allowed past the nominal viewport bottom, in pixels.
pub const BOTTOM_MARGIN: i32 = 8;

/// Saturation ceiling for the two vertical sustain counters.
pub const SUSTAIN_CEILING: u32 = 16;

/// Thrust phases below this threshold select the first flame frame.
pub const THRUST_LOW_BAND: u32 = 6;

/// Thrust phases at or above this threshold wrap the phase back to the
/// start of the cycle.
pub const THRUST_WRAP: u32 = 12;

} // verus!
