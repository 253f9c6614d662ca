//! Logic of an infrared-remote-to-USB-HID bridge: keycode codec, button
//! table, capture bookkeeping, and the mode dispatcher with its mouse and
//! keyboard report generators. Hardware access (pins, timers, the USB
//! transport) stays outside; this crate turns captured bits and decoded
//! events into the exact reports to push.

pub mod capture;
pub mod config;
pub mod keyboard;
pub mod mode;
pub mod mouse;
pub mod remote;
pub mod report;
pub mod router;
