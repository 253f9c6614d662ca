use mickey_mouse::config::{MAGIC_PREFIX, MAX_SPEED};
use mickey_mouse::mode::DeviceMode;
use mickey_mouse::remote::{button_code, encode_keycode, RcButton};
use mickey_mouse::report::{HidReport, MouseReportEx};
use mickey_mouse::router::EventRouter;

const UNKNOWN_DATA: u32 = 0xDEAD_BEEF;

#[test]
fn new_router_starts_at_speed_zero_in_mouse_mode() {
    let r = EventRouter::new();
    assert_eq!(r.speed, 0);
    assert_eq!(r.mode, DeviceMode::Mouse);
}

#[test]
fn wrong_address_is_dropped_before_everything() {
    let mut r = EventRouter::new();
    let word = encode_keycode(MAGIC_PREFIX ^ 1, button_code(RcButton::OkKey), true);
    let steps = r.process_keycode(word);
    assert!(steps.is_empty());
    // neither the mode nor the speed counter moved
    assert_eq!(r, EventRouter::new());
}

#[test]
fn speed_counts_repeats_and_saturates() {
    let mut r = EventRouter::new();
    for n in 1u8..10 {
        let steps = r.process_keycode(encode_keycode(MAGIC_PREFIX, UNKNOWN_DATA, true));
        assert!(steps.is_empty());
        assert_eq!(r.speed, n.min(MAX_SPEED));
    }
}

#[test]
fn non_repeated_event_resets_speed_at_once() {
    let mut r = EventRouter::new();
    for _ in 0..5 {
        r.process_keycode(encode_keycode(MAGIC_PREFIX, UNKNOWN_DATA, true));
    }
    assert_eq!(r.speed, MAX_SPEED);
    r.process_keycode(encode_keycode(MAGIC_PREFIX, UNKNOWN_DATA, false));
    assert_eq!(r.speed, 0);
}

#[test]
fn unknown_button_is_dropped_after_the_speed_update() {
    let mut r = EventRouter::new();
    let steps = r.process_keycode(encode_keycode(MAGIC_PREFIX, UNKNOWN_DATA, true));
    assert!(steps.is_empty());
    assert_eq!(r.speed, 1);
    assert_eq!(r.mode, DeviceMode::Mouse);
}

#[test]
fn mode_switches_round_trip_through_both_modes() {
    let mut r = EventRouter::new();
    let steps = r.process_keycode(encode_keycode(MAGIC_PREFIX, button_code(RcButton::Green), false));
    assert!(steps.is_empty());
    assert_eq!(r.mode, DeviceMode::Keyboard);
    let steps = r.process_keycode(encode_keycode(MAGIC_PREFIX, button_code(RcButton::Red), false));
    assert!(steps.is_empty());
    assert_eq!(r.mode, DeviceMode::Mouse);
}

#[test]
fn end_to_end_ok_click_in_mouse_mode() {
    // wire word: flag byte 0x00, address = magic, data = the "OK" button
    let mut r = EventRouter::new();
    let word = encode_keycode(MAGIC_PREFIX, 0x5109_4A97, false);
    let steps = r.process_keycode(word);
    assert_eq!(steps.len(), 2);
    assert_eq!(
        steps[0].report,
        HidReport::Mouse(MouseReportEx { report_id: 1, buttons: 0b0000_0001, x: 0, y: 0, wheel: 0, pan: 0 })
    );
    assert_eq!(
        steps[1].report,
        HidReport::Mouse(MouseReportEx { report_id: 1, buttons: 0, x: 0, y: 0, wheel: 0, pan: 0 })
    );
    assert_eq!(r.mode, DeviceMode::Mouse);
}

#[test]
fn repeat_flagged_ok_click_still_clicks() {
    // the same word with the repeat flag raised: speed moves, the click stays
    let mut r = EventRouter::new();
    let steps = r.process_keycode(0x0100_57AA_5109_4A97);
    assert_eq!(steps.len(), 2);
    assert_eq!(r.speed, 1);
    assert_eq!(r.mode, DeviceMode::Mouse);
}

#[test]
fn keyboard_mode_dispatches_to_the_keyboard_handler() {
    let mut r = EventRouter::new();
    r.process_keycode(encode_keycode(MAGIC_PREFIX, button_code(RcButton::Green), false));
    let steps = r.process_keycode(encode_keycode(MAGIC_PREFIX, button_code(RcButton::Up), false));
    assert_eq!(steps.len(), 2);
    match steps[0].report {
        HidReport::Keyboard(k) => assert_eq!(k.keycodes[0], 0x52),
        _ => panic!("expected a keyboard report"),
    }
}
