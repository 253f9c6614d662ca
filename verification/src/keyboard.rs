//! Keyboard-mode handler: maps a button to a keyboard or consumer/media
//! usage code and emits the key-down / key-up report pair.
//!
//! The usage values below are the HID usage IDs the host expects; they match
//! `usbd_hid::descriptor::KeyboardUsage` and `usbd_hid::descriptor::MediaKey`.

use vstd::prelude::*;

use crate::config::KEYBOARD_BUTTON_RELEASE_DELAY;
use crate::mode::DeviceMode;
use crate::remote::RcButton;
use crate::report::{
    HidReport, KeyboardReportEx, MediaKeyboardReportEx, ReportStep, KEYBOARD_REPORT_ID,
    MEDIA_KEYBOARD_REPORT_ID, is_keyboard_report, is_media_report,
};

verus! {

pub const KEY_ENTER: u8 = 0x28;

pub const KEY_ESCAPE: u8 = 0x29;

pub const KEY_BACKSPACE: u8 = 0x2A;

pub const KEY_SPACEBAR: u8 = 0x2C;

pub const KEY_HOME: u8 = 0x4A;

pub const KEY_PAGE_UP: u8 = 0x4B;

pub const KEY_DELETE: u8 = 0x4C;

pub const KEY_END: u8 = 0x4D;

pub const KEY_PAGE_DOWN: u8 = 0x4E;

pub const KEY_RIGHT_ARROW: u8 = 0x4F;

pub const KEY_LEFT_ARROW: u8 = 0x50;

pub const KEY_DOWN_ARROW: u8 = 0x51;

pub const KEY_UP_ARROW: u8 = 0x52;

pub const KEY_MUTE: u8 = 0x7F;

pub const KEY_VOLUME_UP: u8 = 0x80;

pub const KEY_VOLUME_DOWN: u8 = 0x81;

pub const MEDIA_PLAY: u16 = 0xB0;

pub const MEDIA_PAUSE: u16 = 0xB1;

pub const MEDIA_RECORD: u16 = 0xB2;

pub const MEDIA_NEXT_TRACK: u16 = 0xB5;

pub const MEDIA_PREV_TRACK: u16 = 0xB6;

pub const MEDIA_STOP: u16 = 0xB7;

/// A key the keyboard handler can press: a keyboard usage or a media usage,
/// distinguished on the wire by the report shape.
#[derive(Clone, Copy, Debug, PartialEq, Eq, Structural)]
pub enum GenericKeyboardKey {
    KeyboardKey(u8),
    MediaKey(u16),
}

/// The key bound to each button in keyboard mode, or `None` where the button
/// is unbound there (including the mode-switch button).
pub open spec fn spec_key_for(button: RcButton) -> Option<GenericKeyboardKey> {
    match button {
        RcButton::Up => Some(GenericKeyboardKey::KeyboardKey(KEY_UP_ARROW)),
        RcButton::Down => Some(GenericKeyboardKey::KeyboardKey(KEY_DOWN_ARROW)),
        RcButton::Left => Some(GenericKeyboardKey::KeyboardKey(KEY_LEFT_ARROW)),
        RcButton::Right => Some(GenericKeyboardKey::KeyboardKey(KEY_RIGHT_ARROW)),
        RcButton::OkKey => Some(GenericKeyboardKey::KeyboardKey(KEY_ENTER)),
        RcButton::Text => Some(GenericKeyboardKey::KeyboardKey(KEY_HOME)),
        RcButton::MyApps => Some(GenericKeyboardKey::KeyboardKey(KEY_END)),
        RcButton::Exit => Some(GenericKeyboardKey::KeyboardKey(KEY_ESCAPE)),
        RcButton::PageUp => Some(GenericKeyboardKey::KeyboardKey(KEY_PAGE_UP)),
        RcButton::PageDown => Some(GenericKeyboardKey::KeyboardKey(KEY_PAGE_DOWN)),
        RcButton::VolumeUp => Some(GenericKeyboardKey::KeyboardKey(KEY_VOLUME_UP)),
        RcButton::VolumeDown => Some(GenericKeyboardKey::KeyboardKey(KEY_VOLUME_DOWN)),
        RcButton::Mute => Some(GenericKeyboardKey::KeyboardKey(KEY_MUTE)),
        RcButton::Netflix => Some(GenericKeyboardKey::KeyboardKey(KEY_BACKSPACE)),
        RcButton::Start => Some(GenericKeyboardKey::KeyboardKey(KEY_SPACEBAR)),
        RcButton::Amazon => Some(GenericKeyboardKey::KeyboardKey(KEY_DELETE)),
        RcButton::Record => Some(GenericKeyboardKey::MediaKey(MEDIA_RECORD)),
        RcButton::Stop => Some(GenericKeyboardKey::MediaKey(MEDIA_STOP)),
        RcButton::Play => Some(GenericKeyboardKey::MediaKey(MEDIA_PLAY)),
        RcButton::Pause => Some(GenericKeyboardKey::MediaKey(MEDIA_PAUSE)),
        RcButton::NextTrack => Some(GenericKeyboardKey::MediaKey(MEDIA_NEXT_TRACK)),
        RcButton::PrevTrack => Some(GenericKeyboardKey::MediaKey(MEDIA_PREV_TRACK)),
        RcButton::Red | RcButton::Green | RcButton::Back => None,
    }
}

/// Mode returned by the keyboard handler: only the designated switch button
/// leaves keyboard mode.
pub open spec fn spec_keyboard_mode(button: RcButton) -> DeviceMode {
    if button == RcButton::Red {
        DeviceMode::Mouse
    } else {
        DeviceMode::Keyboard
    }
}

/// Exactly the report that presses `key` (non-zero usage in the shape that
/// matches the key's kind).
pub open spec fn is_key_down_report(r: HidReport, key: GenericKeyboardKey) -> bool {
    match key {
        GenericKeyboardKey::KeyboardKey(usage) => is_keyboard_report(r, usage),
        GenericKeyboardKey::MediaKey(usage) => is_media_report(r, usage),
    }
}

/// Exactly the all-zero report that releases `key`, in the same shape as the
/// press report.
pub open spec fn is_key_up_report(r: HidReport, key: GenericKeyboardKey) -> bool {
    match key {
        GenericKeyboardKey::KeyboardKey(_) => is_keyboard_report(r, 0),
        GenericKeyboardKey::MediaKey(_) => is_media_report(r, 0),
    }
}

/// The full keyboard-mode output contract: a bound button yields exactly the
/// key-down report, the configured release delay, then the key-up report; an
/// unbound button yields nothing.
pub open spec fn keyboard_steps_ok(s: Seq<ReportStep>, button: RcButton) -> bool {
    match spec_key_for(button) {
        Some(key) => s.len() == 2 && is_key_down_report(s[0].report, key) && s[0].wait_after
            == KEYBOARD_BUTTON_RELEASE_DELAY && is_key_up_report(s[1].report, key)
            && s[1].wait_after == 0,
        None => s.len() == 0,
    }
}

/// Key bound to a button in keyboard mode, from the key table.
fn key_for_button(button: RcButton) -> (r: Option<GenericKeyboardKey>)
    ensures
        r == spec_key_for(button),
{
    match button {
        RcButton::Up => Some(GenericKeyboardKey::KeyboardKey(KEY_UP_ARROW)),
        RcButton::Down => Some(GenericKeyboardKey::KeyboardKey(KEY_DOWN_ARROW)),
        RcButton::Left => Some(GenericKeyboardKey::KeyboardKey(KEY_LEFT_ARROW)),
        RcButton::Right => Some(GenericKeyboardKey::KeyboardKey(KEY_RIGHT_ARROW)),
        RcButton::OkKey => Some(GenericKeyboardKey::KeyboardKey(KEY_ENTER)),
        RcButton::Text => Some(GenericKeyboardKey::KeyboardKey(KEY_HOME)),
        RcButton::MyApps => Some(GenericKeyboardKey::KeyboardKey(KEY_END)),
        RcButton::Exit => Some(GenericKeyboardKey::KeyboardKey(KEY_ESCAPE)),
        RcButton::PageUp => Some(GenericKeyboardKey::KeyboardKey(KEY_PAGE_UP)),
        RcButton::PageDown => Some(GenericKeyboardKey::KeyboardKey(KEY_PAGE_DOWN)),
        RcButton::VolumeUp => Some(GenericKeyboardKey::KeyboardKey(KEY_VOLUME_UP)),
        RcButton::VolumeDown => Some(GenericKeyboardKey::KeyboardKey(KEY_VOLUME_DOWN)),
        RcButton::Mute => Some(GenericKeyboardKey::KeyboardKey(KEY_MUTE)),
        RcButton::Netflix => Some(GenericKeyboardKey::KeyboardKey(KEY_BACKSPACE)),
        RcButton::Start => Some(GenericKeyboardKey::KeyboardKey(KEY_SPACEBAR)),
        RcButton::Amazon => Some(GenericKeyboardKey::KeyboardKey(KEY_DELETE)),
        RcButton::Record => Some(GenericKeyboardKey::MediaKey(MEDIA_RECORD)),
        RcButton::Stop => Some(GenericKeyboardKey::MediaKey(MEDIA_STOP)),
        RcButton::Play => Some(GenericKeyboardKey::MediaKey(MEDIA_PLAY)),
        RcButton::Pause => Some(GenericKeyboardKey::MediaKey(MEDIA_PAUSE)),
        RcButton::NextTrack => Some(GenericKeyboardKey::MediaKey(MEDIA_NEXT_TRACK)),
        RcButton::PrevTrack => Some(GenericKeyboardKey::MediaKey(MEDIA_PREV_TRACK)),
        RcButton::Red | RcButton::Green | RcButton::Back => None,
    }
}

/// Builds the report that presses `key`.
pub fn send_key(key: &GenericKeyboardKey) -> (r: HidReport)
    ensures
        is_key_down_report(r, *key),
{
    match key {
        GenericKeyboardKey::KeyboardKey(usage) => {
            let report = KeyboardReportEx {
                report_id: KEYBOARD_REPORT_ID,
                modifier: 0,
                reserved: 0,
                leds: 0,
                keycodes: [*usage, 0, 0, 0, 0, 0],
            };
            HidReport::Keyboard(report)
        },
        GenericKeyboardKey::MediaKey(usage) => {
            let report = MediaKeyboardReportEx {
                report_id: MEDIA_KEYBOARD_REPORT_ID,
                usage_id: *usage,
            };
            HidReport::Media(report)
        },
    }
}

/// Builds the all-zero report that releases `key`.
pub fn release_key(key: &GenericKeyboardKey) -> (r: HidReport)
    ensures
        is_key_up_report(r, *key),
{
    match key {
        GenericKeyboardKey::KeyboardKey(_) => {
            let report = KeyboardReportEx {
                report_id: KEYBOARD_REPORT_ID,
                modifier: 0,
                reserved: 0,
                leds: 0,
                keycodes: [0, 0, 0, 0, 0, 0],
            };
            HidReport::Keyboard(report)
        },
        GenericKeyboardKey::MediaKey(_) => {
            let report = MediaKeyboardReportEx { report_id: MEDIA_KEYBOARD_REPORT_ID, usage_id: 0 };
            HidReport::Media(report)
        },
    }
}

/// Handles one button in keyboard mode: returns the reports to push, in
/// order with their trailing waits, and the next device mode. The speed
/// level plays no role in this mode.
pub fn handle_keyboard_event(button: RcButton, _speed: u8) -> (r: (Vec<ReportStep>, DeviceMode))
    ensures
        keyboard_steps_ok(r.0@, button),
        r.1 == spec_keyboard_mode(button),
{
    let mut steps: Vec<ReportStep> = Vec::new();
    match button {
        RcButton::Red => {
            return (steps, DeviceMode::Mouse);
        },
        _ => {
        },
    }
    match key_for_button(button) {
        Some(key) => {
            steps.push(
                ReportStep {
                    report: send_key(&key),
                    wait_after: KEYBOARD_BUTTON_RELEASE_DELAY,
                },
            );
            steps.push(ReportStep { report: release_key(&key), wait_after: 0 });
        },
        None => {
        },
    }
    (steps, DeviceMode::Keyboard)
}

} // verus!
