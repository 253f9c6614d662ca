//! Wire shapes of the HID input reports, and the timed report steps the
//! handlers hand back to the transport loop.

use vstd::prelude::*;

verus! {

/// Report-id byte of a mouse report.
pub const MOUSE_REPORT_ID: u8 = 1;

/// Report-id byte of a keyboard report.
pub const KEYBOARD_REPORT_ID: u8 = 2;

/// Report-id byte of a consumer/media report.
pub const MEDIA_KEYBOARD_REPORT_ID: u8 = 3;

/// Mouse input report: button mask and relative X/Y/wheel/pan deltas.
#[derive(Clone, Copy, Debug, PartialEq, Eq)]
pub struct MouseReportEx {
    pub report_id: u8,
    pub buttons: u8,
    pub x: i8,
    pub y: i8,
    pub wheel: i8,
    pub pan: i8,
}

/// Keyboard input report: modifier byte, reserved byte, LED byte and a
/// six-slot key-usage array (only slot 0 is ever non-zero here).
#[derive(Clone, Copy, Debug, PartialEq, Eq)]
pub struct KeyboardReportEx {
    pub report_id: u8,
    pub modifier: u8,
    pub reserved: u8,
    pub leds: u8,
    pub keycodes: [u8; 6],
}

/// Consumer/media input report: one sixteen-bit usage field.
#[derive(Clone, Copy, Debug, PartialEq, Eq)]
pub struct MediaKeyboardReportEx {
    pub report_id: u8,
    pub usage_id: u16,
}

/// One of the three input report shapes multiplexed on the endpoint.
#[derive(Clone, Copy, Debug, PartialEq, Eq)]
pub enum HidReport {
    Mouse(MouseReportEx),
    Keyboard(KeyboardReportEx),
    Media(MediaKeyboardReportEx),
}

/// A report to push, followed by a busy-wait of `wait_after` cycles before
/// the next step (zero after the last step of a sequence).
#[derive(Clone, Copy, Debug, PartialEq, Eq)]
pub struct ReportStep {
    pub report: HidReport,
    pub wait_after: u32,
}

/// Exactly the mouse report with the given mask and deltas.
pub open spec fn is_mouse_report(r: HidReport, buttons: u8, x: i8, y: i8, wheel: i8, pan: i8) -> bool {
    match r {
        HidReport::Mouse(m) => m.report_id == MOUSE_REPORT_ID && m.buttons == buttons && m.x == x
            && m.y == y && m.wheel == wheel && m.pan == pan,
        _ => false,
    }
}

/// Exactly the keyboard report whose slot 0 holds `usage` and whose other
/// slots, modifier, reserved and LED bytes are zero.
pub open spec fn is_keyboard_report(r: HidReport, usage: u8) -> bool {
    match r {
        HidReport::Keyboard(k) => k.report_id == KEYBOARD_REPORT_ID && k.modifier == 0
            && k.reserved == 0 && k.leds == 0 && k.keycodes@ =~= seq![usage, 0u8, 0u8, 0u8, 0u8, 0u8],
        _ => false,
    }
}

/// Exactly the media report carrying `usage`.
pub open spec fn is_media_report(r: HidReport, usage: u16) -> bool {
    match r {
        HidReport::Media(m) => m.report_id == MEDIA_KEYBOARD_REPORT_ID && m.usage_id == usage,
        _ => false,
    }
}

} // verus!
