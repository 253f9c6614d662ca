//! Event router: consumes captured keycodes one at a time, filters on the
//! address field, tracks the repeat-driven speed counter, resolves the
//! button and dispatches it to the handler of the active mode.

use vstd::prelude::*;

use crate::config::{MAGIC_PREFIX, MAX_SPEED};
use crate::keyboard::{handle_keyboard_event, keyboard_steps_ok, spec_keyboard_mode};
use crate::mode::DeviceMode;
use crate::mouse::{handle_mouse_event, mouse_steps_ok, spec_mouse_mode};
use crate::remote::{
    RcButton,
    button_from_code, decode_keycode, spec_address, spec_button_from_code, spec_data,
    spec_repeated,
};
use crate::report::ReportStep;

verus! {

/// Speed counter after one event: a repeat-flagged event raises it up to
/// `MAX_SPEED`, any other event resets it to zero.
pub open spec fn spec_next_speed(speed: u8, repeated: bool) -> u8 {
    if !repeated {
        0
    } else if speed < MAX_SPEED {
        (speed + 1) as u8
    } else {
        speed
    }
}

/// Speed counter after a run of `n` consecutive repeat-flagged events,
/// starting from zero.
pub open spec fn spec_speed_after_repeats(n: nat) -> u8
    decreases n,
{
    if n == 0 {
        0
    } else {
        spec_next_speed(spec_speed_after_repeats((n - 1) as nat), true)
    }
}

/// A run of `n` consecutive repeat-flagged events drives the speed counter
/// from zero to `min(n, MAX_SPEED)`; a non-repeated event resets it to zero
/// (the reset is `spec_next_speed`'s first case, stated here for the run).
pub proof fn lemma_speed_run(n: nat)
    ensures
        n <= MAX_SPEED ==> spec_speed_after_repeats(n) == n,
        n > MAX_SPEED ==> spec_speed_after_repeats(n) == MAX_SPEED,
        spec_next_speed(spec_speed_after_repeats(n), false) == 0,
    decreases n,
{
    if n > 0 {
        lemma_speed_run((n - 1) as nat);
    }
}

/// What the router does with one keycode, given the state it started in:
/// a word whose address field is not the configured magic address is dropped
/// before the speed update and the button lookup; otherwise the speed
/// counter advances on the repeat flag, an unknown data field is dropped
/// silently, and a known button goes to the active mode's handler, whose
/// report steps and returned mode are the outcome.
pub open spec fn routed_ok(
    pre: EventRouter,
    post: EventRouter,
    keycode: u64,
    steps: Seq<ReportStep>,
) -> bool {
    if spec_address(keycode) != MAGIC_PREFIX {
        post == pre && steps.len() == 0
    } else {
        let speed = spec_next_speed(pre.speed, spec_repeated(keycode));
        &&& post.speed == speed
        &&& match spec_button_from_code(spec_data(keycode)) {
            None => post.mode == pre.mode && steps.len() == 0,
            Some(button) => match pre.mode {
                DeviceMode::Mouse => mouse_steps_ok(steps, button, speed) && post.mode
                    == spec_mouse_mode(button),
                DeviceMode::Keyboard => keyboard_steps_ok(steps, button) && post.mode
                    == spec_keyboard_mode(button),
            },
        }
    }
}

/// The two reserved mode-switch buttons and only they change the mode, and
/// neither handler pushes a report for them: in mouse mode the designated
/// switch button yields keyboard mode, in keyboard mode the other designated
/// switch button yields mouse mode, and every other button preserves the
/// mode it was handled in.
pub proof fn lemma_mode_switches()
    ensures
        spec_mouse_mode(RcButton::Green) == DeviceMode::Keyboard,
        forall|s: Seq<ReportStep>, speed: u8|
            #[trigger] mouse_steps_ok(s, RcButton::Green, speed) ==> s.len() == 0,
        spec_keyboard_mode(RcButton::Red) == DeviceMode::Mouse,
        forall|s: Seq<ReportStep>| #[trigger] keyboard_steps_ok(s, RcButton::Red) ==> s.len() == 0,
        forall|b: RcButton| b != RcButton::Green ==> #[trigger] spec_mouse_mode(b)
            == DeviceMode::Mouse,
        forall|b: RcButton| b != RcButton::Red ==> #[trigger] spec_keyboard_mode(b)
            == DeviceMode::Keyboard,
{
}

/// State the router carries across keycodes: the bounded speed counter and
/// the active device mode.
#[derive(Clone, Copy, Debug, PartialEq, Eq, Structural)]
pub struct EventRouter {
    pub speed: u8,
    pub mode: DeviceMode,
}

impl EventRouter {
    /// The speed counter never leaves `[0, MAX_SPEED]`.
    pub open spec fn wf(self) -> bool {
        self.speed <= MAX_SPEED
    }

    /// Fresh router: speed zero, mouse mode.
    pub fn new() -> (r: EventRouter)
        ensures
            r.wf(),
            r.speed == 0,
            r.mode == DeviceMode::Mouse,
    {
        EventRouter { speed: 0, mode: DeviceMode::Mouse }
    }

    /// Consumes one captured keycode and returns the report steps to push,
    /// per `routed_ok`.
    pub fn process_keycode(&mut self, keycode: u64) -> (steps: Vec<ReportStep>)
        requires
            old(self).wf(),
        ensures
            final(self).wf(),
            routed_ok(*old(self), *final(self), keycode, steps@),
    {
        let (upper_code, lower_code, flag_repeated) = decode_keycode(keycode);
        if upper_code != MAGIC_PREFIX {
            return Vec::new();
        }
        if flag_repeated {
            if self.speed < MAX_SPEED {
                self.speed = self.speed + 1;
            }
        } else {
            self.speed = 0;
        }
        match button_from_code(lower_code) {
            Some(button) => {
                let (steps, next_mode) = match self.mode {
                    DeviceMode::Mouse => handle_mouse_event(button, self.speed),
                    DeviceMode::Keyboard => handle_keyboard_event(button, self.speed),
                };
                self.mode = next_mode;
                steps
            },
            None => Vec::new(),
        }
    }
}

} // verus!
