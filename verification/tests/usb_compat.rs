//! The usage values the keyboard handler emits must be the ones the HID
//! descriptor crate names, since the host decodes the reports against them.

use usbd_hid::descriptor::{KeyboardUsage, MediaKey};

use mickey_mouse::keyboard::{
    KEY_BACKSPACE, KEY_DELETE, KEY_DOWN_ARROW, KEY_END, KEY_ENTER, KEY_ESCAPE, KEY_HOME,
    KEY_LEFT_ARROW, KEY_MUTE, KEY_PAGE_DOWN, KEY_PAGE_UP, KEY_RIGHT_ARROW, KEY_SPACEBAR,
    KEY_UP_ARROW, KEY_VOLUME_DOWN, KEY_VOLUME_UP, MEDIA_NEXT_TRACK, MEDIA_PAUSE, MEDIA_PLAY,
    MEDIA_PREV_TRACK, MEDIA_RECORD, MEDIA_STOP,
};

#[test]
fn keyboard_usages_match_usbd_hid() {
    assert_eq!(KEY_UP_ARROW, KeyboardUsage::KeyboardUpArrow as u8);
    assert_eq!(KEY_DOWN_ARROW, KeyboardUsage::KeyboardDownArrow as u8);
    assert_eq!(KEY_LEFT_ARROW, KeyboardUsage::KeyboardLeftArrow as u8);
    assert_eq!(KEY_RIGHT_ARROW, KeyboardUsage::KeyboardRightArrow as u8);
    assert_eq!(KEY_ENTER, KeyboardUsage::KeyboardEnter as u8);
    assert_eq!(KEY_ESCAPE, KeyboardUsage::KeyboardEscape as u8);
    assert_eq!(KEY_BACKSPACE, KeyboardUsage::KeyboardBackspace as u8);
    assert_eq!(KEY_SPACEBAR, KeyboardUsage::KeyboardSpacebar as u8);
    assert_eq!(KEY_HOME, KeyboardUsage::KeyboardHome as u8);
    assert_eq!(KEY_END, KeyboardUsage::KeyboardEnd as u8);
    assert_eq!(KEY_DELETE, KeyboardUsage::KeyboardDelete as u8);
    assert_eq!(KEY_PAGE_UP, KeyboardUsage::KeyboardPageUp as u8);
    assert_eq!(KEY_PAGE_DOWN, KeyboardUsage::KeyboardPageDown as u8);
    assert_eq!(KEY_VOLUME_UP, KeyboardUsage::KeyboardVolumeUp as u8);
    assert_eq!(KEY_VOLUME_DOWN, KeyboardUsage::KeyboardVolumeDown as u8);
    assert_eq!(KEY_MUTE, KeyboardUsage::KeyboardMute as u8);
}

#[test]
fn media_usages_match_usbd_hid() {
    assert_eq!(MEDIA_PLAY, MediaKey::Play as u16);
    assert_eq!(MEDIA_PAUSE, MediaKey::Pause as u16);
    assert_eq!(MEDIA_RECORD, MediaKey::Record as u16);
    assert_eq!(MEDIA_STOP, MediaKey::Stop as u16);
    assert_eq!(MEDIA_NEXT_TRACK, MediaKey::NextTrack as u16);
    assert_eq!(MEDIA_PREV_TRACK, MediaKey::PrevTrack as u16);
}
