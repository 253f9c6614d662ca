//! The two device modes the dispatcher switches between.

use vstd::prelude::*;

verus! {

/// Active interpretation of remote buttons: pointer device or keyboard.
#[derive(Clone, Copy, Debug, PartialEq, Eq, Structural)]
pub enum DeviceMode {
    Mouse,
    Keyboard,
}

} // verus!
