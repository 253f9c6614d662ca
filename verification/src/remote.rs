//! Wire keycode codec and the button code table.
//!
//! A captured keycode is one 64-bit word, nibble layout `FF0UUUUULLLLLLLL`
//! (F = flag byte, 0 = reserved, U = 20-bit address field, L = 32-bit data
//! field). Bit 0 of the flag byte is the repeat flag; the other flag bits are
//! unused.

use vstd::prelude::*;

verus! {

/// Width of one hex nibble in bits.
pub const NIBBLE_WIDTH: u32 = 4;

/// Bit position of the flag byte inside the wire word.
pub const FLAGS_OFFSET: u32 = 14 * NIBBLE_WIDTH;

/// Width of the address field in bits.
pub const UPPER_WIDTH: u32 = 5 * NIBBLE_WIDTH;

/// Width of the data field in bits.
pub const LOWER_WIDTH: u32 = 8 * NIBBLE_WIDTH;

/// Number of bits sampled from the IR line for one capture.
pub const DATA_WIDTH: u32 = UPPER_WIDTH + LOWER_WIDTH;

/// Address field of a wire word: bits 51:32.
pub open spec fn spec_address(word: u64) -> u32 {
    ((word >> 32) & 0x000f_ffff) as u32
}

/// Data field of a wire word: bits 31:0.
pub open spec fn spec_data(word: u64) -> u32 {
    (word & 0xffff_ffff) as u32
}

/// Repeat flag of a wire word: bit 0 of the flag byte (bits 63:56).
pub open spec fn spec_repeated(word: u64) -> bool {
    ((word >> FLAGS_OFFSET) as u8) & 0x1 != 0
}

/// Wire word carrying the given fields, reserved bits zero.
pub open spec fn spec_encode(address: u32, data: u32, repeated: bool) -> u64 {
    ((if repeated {
        1u64
    } else {
        0u64
    }) << FLAGS_OFFSET) | ((address as u64) << 32) | (data as u64)
}

/// Splits a wire word into (address field, data field, repeat flag).
/// Any 64-bit word decodes; validity is judged by the caller.
pub fn decode_keycode(keycode: u64) -> (r: (u32, u32, bool))
    ensures
        r.0 == spec_address(keycode),
        r.1 == spec_data(keycode),
        r.2 == spec_repeated(keycode),
{
    let flags: u8 = (keycode >> FLAGS_OFFSET) as u8;
    let flag_repeated = flags & 0x1 != 0;
    let upper_code: u32 = ((keycode >> 32) & 0x000f_ffff) as u32;
    let lower_code: u32 = (keycode & 0xffff_ffff) as u32;
    (upper_code, lower_code, flag_repeated)
}

/// Packs (address field, data field, repeat flag) into a wire word.
pub fn encode_keycode(address: u32, data: u32, repeated: bool) -> (word: u64)
    requires
        address < 0x0010_0000,
    ensures
        word == spec_encode(address, data, repeated),
        spec_address(word) == address,
        spec_data(word) == data,
        spec_repeated(word) == repeated,
{
    let flags: u64 = if repeated {
        1
    } else {
        0
    };
    let word = (flags << FLAGS_OFFSET) | ((address as u64) << 32) | (data as u64);
    proof {
        lemma_codec_round_trip(address, data, repeated);
    }
    word
}

/// Round trip: decoding an encoded word gives back the fields unchanged,
/// for every address that fits the 20-bit address field.
pub proof fn lemma_codec_round_trip(address: u32, data: u32, repeated: bool)
    requires
        address < 0x0010_0000,
    ensures
        spec_address(spec_encode(address, data, repeated)) == address,
        spec_data(spec_encode(address, data, repeated)) == data,
        spec_repeated(spec_encode(address, data, repeated)) == repeated,
{
    if repeated {
        assert(address < 0x0010_0000 ==> {
            let w = (1u64 << 56) | ((address as u64) << 32) | (data as u64);
            (((w >> 32) & 0x000f_ffff) as u32) == address && ((w & 0xffff_ffff) as u32) == data
                && ((w >> 56) as u8) & 0x1 != 0
        }) by (bit_vector);
    } else {
        assert(address < 0x0010_0000 ==> {
            let w = (0u64 << 56) | ((address as u64) << 32) | (data as u64);
            (((w >> 32) & 0x000f_ffff) as u32) == address && ((w & 0xffff_ffff) as u32) == data
                && ((w >> 56) as u8) & 0x1 == 0
        }) by (bit_vector);
    }
}

/// Logical buttons of the remote control, one per known data-field value.
#[derive(Clone, Copy, Debug, PartialEq, Eq, Structural)]
pub enum RcButton {
    Up,
    Down,
    Left,
    Right,
    OkKey,
    Text,
    MyApps,
    Back,
    Exit,
    PageUp,
    PageDown,
    VolumeUp,
    VolumeDown,
    Mute,
    Netflix,
    Start,
    Amazon,
    Red,
    Green,
    Record,
    Stop,
    PrevTrack,
    Play,
    Pause,
    NextTrack,
}

/// The 32-bit data-field value bound to each button.
pub open spec fn spec_button_code(button: RcButton) -> u32 {
    match button {
        RcButton::Up => 0x5012aa97,
        RcButton::Down => 0x5408aa97,
        RcButton::Left => 0x55401557,
        RcButton::Right => 0x52811557,
        RcButton::OkKey => 0x51094a97,
        RcButton::Text => 0x5022aa57,
        RcButton::MyApps => 0x52092a97,
        RcButton::Back => 0x50915257,
        RcButton::Exit => 0x55290897,
        RcButton::PageUp => 0x50055557,
        RcButton::PageDown => 0x54015557,
        RcButton::VolumeUp => 0x52025557,
        RcButton::VolumeDown => 0x55005557,
        RcButton::Mute => 0x5440a557,
        RcButton::Netflix => 0x52924497,
        RcButton::Start => 0x51552817,
        RcButton::Amazon => 0x51525097,
        RcButton::Red => 0x522a4a17,
        RcButton::Green => 0x542a2a17,
        RcButton::Record => 0x54aa4827,
        RcButton::Stop => 0x54292a27,
        RcButton::PrevTrack => 0x555082a7,
        RcButton::Play => 0x5052aa27,
        RcButton::Pause => 0x5254a427,
        RcButton::NextTrack => 0x52a142a7,
    }
}

/// The button bound to a data-field value, or `None` outside the table.
pub open spec fn spec_button_from_code(code: u32) -> Option<RcButton> {
    if code == 0x5012aa97 {
        Some(RcButton::Up)
    } else if code == 0x5408aa97 {
        Some(RcButton::Down)
    } else if code == 0x55401557 {
        Some(RcButton::Left)
    } else if code == 0x52811557 {
        Some(RcButton::Right)
    } else if code == 0x51094a97 {
        Some(RcButton::OkKey)
    } else if code == 0x5022aa57 {
        Some(RcButton::Text)
    } else if code == 0x52092a97 {
        Some(RcButton::MyApps)
    } else if code == 0x50915257 {
        Some(RcButton::Back)
    } else if code == 0x55290897 {
        Some(RcButton::Exit)
    } else if code == 0x50055557 {
        Some(RcButton::PageUp)
    } else if code == 0x54015557 {
        Some(RcButton::PageDown)
    } else if code == 0x52025557 {
        Some(RcButton::VolumeUp)
    } else if code == 0x55005557 {
        Some(RcButton::VolumeDown)
    } else if code == 0x5440a557 {
        Some(RcButton::Mute)
    } else if code == 0x52924497 {
        Some(RcButton::Netflix)
    } else if code == 0x51552817 {
        Some(RcButton::Start)
    } else if code == 0x51525097 {
        Some(RcButton::Amazon)
    } else if code == 0x522a4a17 {
        Some(RcButton::Red)
    } else if code == 0x542a2a17 {
        Some(RcButton::Green)
    } else if code == 0x54aa4827 {
        Some(RcButton::Record)
    } else if code == 0x54292a27 {
        Some(RcButton::Stop)
    } else if code == 0x555082a7 {
        Some(RcButton::PrevTrack)
    } else if code == 0x5052aa27 {
        Some(RcButton::Play)
    } else if code == 0x5254a427 {
        Some(RcButton::Pause)
    } else if code == 0x52a142a7 {
        Some(RcButton::NextTrack)
    } else {
        None
    }
}

/// Data-field value of a button, per the protocol table.
pub fn button_code(button: RcButton) -> (code: u32)
    ensures
        code == spec_button_code(button),
{
    match button {
        RcButton::Up => 0x5012aa97,
        RcButton::Down => 0x5408aa97,
        RcButton::Left => 0x55401557,
        RcButton::Right => 0x52811557,
        RcButton::OkKey => 0x51094a97,
        RcButton::Text => 0x5022aa57,
        RcButton::MyApps => 0x52092a97,
        RcButton::Back => 0x50915257,
        RcButton::Exit => 0x55290897,
        RcButton::PageUp => 0x50055557,
        RcButton::PageDown => 0x54015557,
        RcButton::VolumeUp => 0x52025557,
        RcButton::VolumeDown => 0x55005557,
        RcButton::Mute => 0x5440a557,
        RcButton::Netflix => 0x52924497,
        RcButton::Start => 0x51552817,
        RcButton::Amazon => 0x51525097,
        RcButton::Red => 0x522a4a17,
        RcButton::Green => 0x542a2a17,
        RcButton::Record => 0x54aa4827,
        RcButton::Stop => 0x54292a27,
        RcButton::PrevTrack => 0x555082a7,
        RcButton::Play => 0x5052aa27,
        RcButton::Pause => 0x5254a427,
        RcButton::NextTrack => 0x52a142a7,
    }
}

/// Looks a data-field value up in the button table; `None` for any value
/// outside it (such events are dropped by the router).
pub fn button_from_code(code: u32) -> (r: Option<RcButton>)
    ensures
        r == spec_button_from_code(code),
{
    match code {
        0x5012aa97 => Some(RcButton::Up),
        0x5408aa97 => Some(RcButton::Down),
        0x55401557 => Some(RcButton::Left),
        0x52811557 => Some(RcButton::Right),
        0x51094a97 => Some(RcButton::OkKey),
        0x5022aa57 => Some(RcButton::Text),
        0x52092a97 => Some(RcButton::MyApps),
        0x50915257 => Some(RcButton::Back),
        0x55290897 => Some(RcButton::Exit),
        0x50055557 => Some(RcButton::PageUp),
        0x54015557 => Some(RcButton::PageDown),
        0x52025557 => Some(RcButton::VolumeUp),
        0x55005557 => Some(RcButton::VolumeDown),
        0x5440a557 => Some(RcButton::Mute),
        0x52924497 => Some(RcButton::Netflix),
        0x51552817 => Some(RcButton::Start),
        0x51525097 => Some(RcButton::Amazon),
        0x522a4a17 => Some(RcButton::Red),
        0x542a2a17 => Some(RcButton::Green),
        0x54aa4827 => Some(RcButton::Record),
        0x54292a27 => Some(RcButton::Stop),
        0x555082a7 => Some(RcButton::PrevTrack),
        0x5052aa27 => Some(RcButton::Play),
        0x5254a427 => Some(RcButton::Pause),
        0x52a142a7 => Some(RcButton::NextTrack),
        _ => None,
    }
}

/// The button table is a bijection: every button's code looks up to that
/// button, and every successful lookup returns a button bound to exactly the
/// code looked up.
pub proof fn lemma_button_table_bijective()
    ensures
        forall|b: RcButton| #[trigger] spec_button_from_code(spec_button_code(b)) == Some(b),
        forall|c: u32|
            (#[trigger] spec_button_from_code(c)).is_some() ==> spec_button_code(
                spec_button_from_code(c).unwrap(),
            ) == c,
{
}

} // verus!
