//! Core logic for a sprite that moves across a small pixel display.
//!
//! The library covers the parts of the system that are pure computation:
//! routing buffer requests between the two memory regions, the movement
//! state machine, decoding of polled input lines, and the damage-repair
//! rectangles that a tick must repaint.  The hardware shell (SPI display,
//! I2C pad, heap bring-up) consumes these results and performs the writes.

use vstd::prelude::*;

pub mod allocator;
pub mod inputs;
pub mod lcd;
pub mod player;
pub mod renderer;

verus! {

/// Number of addressable columns of the panel (second axis of a write).
pub const MONITOR_WIDTH: u16 = 320;

/// Number of addressable rows of the panel (first axis of a write).
pub const MONITOR_HEIGHT: u16 = 240;

/// Side length of the square sprite texture, in pixels.
pub const SPRITE_WIDTH: u16 = 32;

/// Length of one control-loop timing window, in microseconds.
pub const TICK_WINDOW_MICROS: u64 = 1000000;

/// One RGB565 pixel, stored as its raw 16-bit value.
#[derive(Clone, Copy, PartialEq, Eq, Structural, Debug)]
pub struct Pixel {
    pub raw: u16,
}

/// Raw RGB565 value of the sprite fill colour (pure red).
pub const COLOR_PLAYER: u16 = 0xF800;

/// Raw RGB565 value of the backdrop colour (CSS light green).
pub const COLOR_BACKGROUND: u16 = 0x9772;

} // verus!
