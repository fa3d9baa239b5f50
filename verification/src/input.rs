//! A per-frame snapshot of the directional and fire buttons.
//!
//! Polling the input device is the host hardware layer's job: once per frame
//! it reads the buttons and hands the library a plain snapshot. A field is
//! `true` while the button is held.

use vstd::prelude::*;

verus! {

/// Which buttons are held during one frame.
#[derive(Clone, Copy, Debug, PartialEq, Eq, Structural)]
pub struct ButtonState {
    pub left: bool,
    pub right: bool,
    pub up: bool,
    pub down: bool,
    /// The fire button; reserved for spawning a projectile, which no
    /// implemented logic does.
    pub fire: bool,
}

impl ButtonState {
    /// A snapshot with no button held.
    pub fn released() -> (b: ButtonState)
        ensures
            b == (ButtonState { left: false, right: false, up: false, down: false, fire: false }),
    {
        ButtonState { left: false, right: false, up: false, down: false, fire: false }
    }
}

} // verus!
