use mickey_mouse::config::MAGIC_PREFIX;
use mickey_mouse::remote::{button_code, button_from_code, decode_keycode, encode_keycode, RcButton};

#[test]
fn decode_splits_the_word() {
    // flag byte 0x01, reserved nibble 0, address 0x057AA, data 0x51094A97
    let (address, data, repeated) = decode_keycode(0x0100_57AA_5109_4A97);
    assert_eq!(address, 0x057AA);
    assert_eq!(data, 0x5109_4A97);
    assert!(repeated);
}

#[test]
fn decode_reads_only_bit_zero_of_the_flag_byte() {
    let (_, _, repeated) = decode_keycode(0xFE00_57AA_5109_4A97);
    assert!(!repeated);
    let (_, _, repeated) = decode_keycode(0xFF00_57AA_5109_4A97);
    assert!(repeated);
}

#[test]
fn decode_of_zero() {
    assert_eq!(decode_keycode(0), (0, 0, false));
}

#[test]
fn encode_packs_the_fields() {
    assert_eq!(encode_keycode(0x057AA, 0x5109_4A97, true), 0x0100_57AA_5109_4A97);
    assert_eq!(encode_keycode(0x057AA, 0x5109_4A97, false), 0x0000_57AA_5109_4A97);
}

#[test]
fn round_trip_holds_on_sample_words() {
    let cases: Vec<(u32, u32, bool)> = vec![
        (0, 0, false),
        (MAGIC_PREFIX, 0x5012_AA97, true),
        (0xF_FFFF, 0xFFFF_FFFF, true),
        (0xF_FFFF, 0xFFFF_FFFF, false),
        (0x00001, 1, false),
    ];
    for (address, data, repeated) in cases {
        let word = encode_keycode(address, data, repeated);
        assert_eq!(decode_keycode(word), (address, data, repeated));
    }
}

#[test]
fn button_table_round_trips() {
    let buttons = vec![
        RcButton::Up,
        RcButton::Down,
        RcButton::Left,
        RcButton::Right,
        RcButton::OkKey,
        RcButton::Text,
        RcButton::MyApps,
        RcButton::Back,
        RcButton::Exit,
        RcButton::PageUp,
        RcButton::PageDown,
        RcButton::VolumeUp,
        RcButton::VolumeDown,
        RcButton::Mute,
        RcButton::Netflix,
        RcButton::Start,
        RcButton::Amazon,
        RcButton::Red,
        RcButton::Green,
        RcButton::Record,
        RcButton::Stop,
        RcButton::PrevTrack,
        RcButton::Play,
        RcButton::Pause,
        RcButton::NextTrack,
    ];
    for b in buttons {
        assert_eq!(button_from_code(button_code(b)), Some(b));
    }
}

#[test]
fn button_codes_match_the_protocol_table() {
    assert_eq!(button_code(RcButton::Up), 0x5012_AA97);
    assert_eq!(button_code(RcButton::Down), 0x5408_AA97);
    assert_eq!(button_code(RcButton::OkKey), 0x5109_4A97);
    assert_eq!(button_code(RcButton::Record), 0x54AA_4827);
    assert_eq!(button_code(RcButton::Netflix), 0x5292_4497);
}

#[test]
fn unknown_codes_resolve_to_none() {
    assert_eq!(button_from_code(0), None);
    assert_eq!(button_from_code(0xDEAD_BEEF), None);
    assert_eq!(button_from_code(0x5109_4A96), None);
}
