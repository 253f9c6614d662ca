//! Mouse-mode handler: turns a button plus the current speed level into the
//! mouse reports to push, and names the next device mode.

use vstd::prelude::*;

use crate::config::{MAX_SPEED, MOUSE_BUTTON_RELEASE_DELAY, MOUSE_DOUBLE_CLICK_DELAY};
use crate::mode::DeviceMode;
use crate::remote::RcButton;
use crate::report::{HidReport, MouseReportEx, ReportStep, MOUSE_REPORT_ID, is_mouse_report};

verus! {

/// Pointer step magnitude for each speed level; grows with the level.
pub open spec fn spec_move_step(speed: u8) -> int {
    if speed == 0 {
        10
    } else if speed == 1 {
        25
    } else if speed == 2 {
        60
    } else {
        127
    }
}

/// Buttons bound to pointer motion, wheel or pan in mouse mode.
pub open spec fn spec_is_motion_button(button: RcButton) -> bool {
    match button {
        RcButton::Up | RcButton::Down | RcButton::Left | RcButton::Right | RcButton::VolumeUp
            | RcButton::VolumeDown | RcButton::PageUp | RcButton::PageDown | RcButton::Text
            | RcButton::MyApps | RcButton::Back | RcButton::Exit => true,
        _ => false,
    }
}

/// Relative X delta of a motion button at the given speed.
pub open spec fn spec_motion_x(button: RcButton, speed: u8) -> int {
    match button {
        RcButton::Left | RcButton::Text | RcButton::Back => -spec_move_step(speed),
        RcButton::Right | RcButton::MyApps | RcButton::Exit => spec_move_step(speed),
        _ => 0,
    }
}

/// Relative Y delta of a motion button at the given speed (negative is up).
pub open spec fn spec_motion_y(button: RcButton, speed: u8) -> int {
    match button {
        RcButton::Up | RcButton::Text | RcButton::MyApps => -spec_move_step(speed),
        RcButton::Down | RcButton::Back | RcButton::Exit => spec_move_step(speed),
        _ => 0,
    }
}

/// Relative wheel delta of a motion button.
pub open spec fn spec_motion_wheel(button: RcButton) -> int {
    match button {
        RcButton::VolumeUp => 1,
        RcButton::VolumeDown => -1,
        _ => 0,
    }
}

/// Relative pan delta of a motion button.
pub open spec fn spec_motion_pan(button: RcButton) -> int {
    match button {
        RcButton::PageUp => 1,
        RcButton::PageDown => -1,
        _ => 0,
    }
}

/// Buttons bound to a click in mouse mode.
pub open spec fn spec_is_click_button(button: RcButton) -> bool {
    match button {
        RcButton::OkKey | RcButton::Netflix | RcButton::Start | RcButton::Amazon => true,
        _ => false,
    }
}

/// Button-mask bit set by a click button's press report.
pub open spec fn spec_click_mask(button: RcButton) -> u8 {
    match button {
        RcButton::OkKey | RcButton::Netflix => 0b0000_0001,
        RcButton::Amazon => 0b0000_0010,
        RcButton::Start => 0b0000_0100,
        _ => 0,
    }
}

/// The one click button that runs the press/release cycle twice.
pub open spec fn spec_is_double_click(button: RcButton) -> bool {
    button == RcButton::Netflix
}

/// Mode returned by the mouse handler: only the designated switch button
/// leaves mouse mode.
pub open spec fn spec_mouse_mode(button: RcButton) -> DeviceMode {
    if button == RcButton::Green {
        DeviceMode::Keyboard
    } else {
        DeviceMode::Mouse
    }
}

/// Exactly the motion report of a motion button: no buttons pressed, the
/// button's deltas, pushed once with no wait.
pub open spec fn is_motion_step(s: ReportStep, button: RcButton, speed: u8) -> bool {
    &&& match s.report {
        HidReport::Mouse(m) => m.report_id == MOUSE_REPORT_ID && m.buttons == 0 && m.x as int
            == spec_motion_x(button, speed) && m.y as int == spec_motion_y(button, speed)
            && m.wheel as int == spec_motion_wheel(button) && m.pan as int == spec_motion_pan(
            button,
        ),
        _ => false,
    }
    &&& s.wait_after == 0
}

/// The full mouse-mode output contract: what the handler pushes for every
/// button at the given speed.
///
/// Motion buttons push one motion report. Click buttons push a press report
/// (their mask bit set, no motion) and, after the configured press/release
/// delay, an all-zero release report; the double-click button repeats the
/// whole press/release cycle once more after the configured cycle spacing.
/// Every other button pushes nothing.
pub open spec fn mouse_steps_ok(s: Seq<ReportStep>, button: RcButton, speed: u8) -> bool {
    if spec_is_motion_button(button) {
        s.len() == 1 && is_motion_step(s[0], button, speed)
    } else if spec_is_click_button(button) {
        let mask = spec_click_mask(button);
        if spec_is_double_click(button) {
            s.len() == 4 && is_mouse_report(s[0].report, mask, 0, 0, 0, 0) && s[0].wait_after
                == MOUSE_DOUBLE_CLICK_DELAY && is_mouse_report(s[1].report, 0, 0, 0, 0, 0)
                && s[1].wait_after == MOUSE_BUTTON_RELEASE_DELAY && is_mouse_report(
                s[2].report,
                mask,
                0,
                0,
                0,
                0,
            ) && s[2].wait_after == MOUSE_DOUBLE_CLICK_DELAY && is_mouse_report(
                s[3].report,
                0,
                0,
                0,
                0,
                0,
            ) && s[3].wait_after == 0
        } else {
            s.len() == 2 && is_mouse_report(s[0].report, mask, 0, 0, 0, 0) && s[0].wait_after
                == MOUSE_DOUBLE_CLICK_DELAY && is_mouse_report(s[1].report, 0, 0, 0, 0, 0)
                && s[1].wait_after == 0
        }
    } else {
        s.len() == 0
    }
}

/// Pointer step for the given speed level, from the step table.
fn move_step_for(speed: u8) -> (step: i8)
    requires
        speed <= MAX_SPEED,
    ensures
        step as int == spec_move_step(speed),
{
    if speed == 0 {
        10
    } else if speed == 1 {
        25
    } else if speed == 2 {
        60
    } else {
        127
    }
}

/// Handles one button in mouse mode: returns the reports to push, in order
/// with their trailing waits, and the next device mode.
pub fn handle_mouse_event(button: RcButton, speed: u8) -> (r: (Vec<ReportStep>, DeviceMode))
    requires
        speed <= MAX_SPEED,
    ensures
        mouse_steps_ok(r.0@, button, speed),
        r.1 == spec_mouse_mode(button),
{
    let mut pointer_x: i8 = 0;
    let mut pointer_y: i8 = 0;
    let mut wheel: i8 = 0;
    let mut pan: i8 = 0;
    let mut buttons: u8 = 0;
    let mut release = false;
    let mut double = false;

    let move_step = move_step_for(speed);

    match button {
        RcButton::Up => {
            pointer_y = -move_step;
        },
        RcButton::Down => {
            pointer_y = move_step;
        },
        RcButton::Left => {
            pointer_x = -move_step;
        },
        RcButton::Right => {
            pointer_x = move_step;
        },
        RcButton::VolumeUp => {
            wheel = 1;
        },
        RcButton::VolumeDown => {
            wheel = -1;
        },
        RcButton::PageUp => {
            pan = 1;
        },
        RcButton::PageDown => {
            pan = -1;
        },
        RcButton::Text => {
            pointer_y = -move_step;
            pointer_x = -move_step;
        },
        RcButton::MyApps => {
            pointer_y = -move_step;
            pointer_x = move_step;
        },
        RcButton::Back => {
            pointer_y = move_step;
            pointer_x = -move_step;
        },
        RcButton::Exit => {
            pointer_y = move_step;
            pointer_x = move_step;
        },
        RcButton::OkKey => {
            buttons = 0b0000_0001;
            release = true;
        },
        RcButton::Netflix => {
            buttons = 0b0000_0001;
            release = true;
            double = true;
        },
        RcButton::Start => {
            buttons = 0b0000_0100;
            release = true;
        },
        RcButton::Amazon => {
            buttons = 0b0000_0010;
            release = true;
        },
        RcButton::Green => {
            return (Vec::new(), DeviceMode::Keyboard);
        },
        _ => {
            return (Vec::new(), DeviceMode::Mouse);
        },
    }

    let mut steps: Vec<ReportStep> = Vec::new();
    steps.push(
        ReportStep {
            report: HidReport::Mouse(
                MouseReportEx {
                    report_id: MOUSE_REPORT_ID,
                    buttons,
                    x: pointer_x,
                    y: pointer_y,
                    wheel,
                    pan,
                },
            ),
            wait_after: if release {
                MOUSE_DOUBLE_CLICK_DELAY
            } else {
                0
            },
        },
    );
    if release {
        steps.push(
            ReportStep {
                report: HidReport::Mouse(
                    MouseReportEx {
                        report_id: MOUSE_REPORT_ID,
                        buttons: 0,
                        x: 0,
                        y: 0,
                        wheel: 0,
                        pan: 0,
                    },
                ),
                wait_after: if double {
                    MOUSE_BUTTON_RELEASE_DELAY
                } else {
                    0
                },
            },
        );
        if double {
            steps.push(
                ReportStep {
                    report: HidReport::Mouse(
                        MouseReportEx {
                            report_id: MOUSE_REPORT_ID,
                            buttons,
                            x: 0,
                            y: 0,
                            wheel: 0,
                            pan: 0,
                        },
                    ),
                    wait_after: MOUSE_DOUBLE_CLICK_DELAY,
                },
            );
            steps.push(
                ReportStep {
                    report: HidReport::Mouse(
                        MouseReportEx {
                            report_id: MOUSE_REPORT_ID,
                            buttons: 0,
                            x: 0,
                            y: 0,
                            wheel: 0,
                            pan: 0,
                        },
                    ),
                    wait_after: 0,
                },
            );
        }
    }
    (steps, DeviceMode::Mouse)
}

} // verus!
