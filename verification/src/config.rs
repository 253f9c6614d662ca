//! Build-time configuration: protocol address, timing thresholds and delays.
//!
//! Timestamps and intervals are monotonic timer ticks; delay constants are
//! busy-wait cycle counts handed to the runtime unchanged.

use vstd::prelude::*;

verus! {

/// Address field value that every accepted keycode must carry.
pub const MAGIC_PREFIX: u32 = 0x057AA;

/// Reference width of the IR preamble pulse, in timer ticks.
pub const PREAMBLE_REFERENCE: u64 = 112_500;

/// Accepted deviation around `PREAMBLE_REFERENCE`, in timer ticks.
pub const PREAMBLE_TOLERANCE: u64 = 12_500;

/// Delay from the preamble edge to the first bit sample, in microseconds.
pub const SAMPLE_OFFSET_US: u32 = 666;

/// Spacing between consecutive bit samples, in microseconds.
pub const SAMPLE_INTERVAL_US: u32 = 444;

/// Two captures closer than this (in timer ticks) may count as a repeat.
pub const MAX_REPETITION_INTERVAL: u64 = 3_750_000;

/// Highest value the repeat-driven speed counter may reach.
pub const MAX_SPEED: u8 = 3;

/// Busy-wait cycles between a mouse press report and its release report.
pub const MOUSE_DOUBLE_CLICK_DELAY: u32 = 2_400_000;

/// Busy-wait cycles between the two click cycles of a double click.
pub const MOUSE_BUTTON_RELEASE_DELAY: u32 = 1_200_000;

/// Busy-wait cycles between a key-down report and its key-up report.
pub const KEYBOARD_BUTTON_RELEASE_DELAY: u32 = 2_400_000;

/// How long the status indicator stays lit after a capture, in milliseconds.
pub const BLINK_DURATION_MS: u32 = 50;

/// Busy-wait cycles held after a toggle-button edge to ride out bounce.
pub const DEBOUNCE_DELAY: u32 = 4_800_000;

} // verus!
