//! Per-frame button snapshot handed in by the host's input hook.
//!
//! `pressed` holds the buttons whose press edge fired this frame, `down` the
//! buttons currently held. The menu layer consumes presses by clearing bits
//! from `pressed` so the host's own input handling never observes them
//! (the anti-leak-through contract).

use vstd::prelude::*;

verus! {

/// Confirm button.
pub const BTN_A: u32 = 0x0001;
/// Back button.
pub const BTN_B: u32 = 0x0002;
pub const BTN_DPAD_UP: u32 = 0x0004;
pub const BTN_DPAD_DOWN: u32 = 0x0008;
pub const BTN_DPAD_LEFT: u32 = 0x0010;
pub const BTN_DPAD_RIGHT: u32 = 0x0020;
/// The "2" face button, second half of the activation chord.
pub const BTN_TWO: u32 = 0x0040;
/// The "1" face button.
pub const BTN_ONE: u32 = 0x0080;

/// One frame's worth of button state, read once per frame.
pub struct ButtonState {
    /// Buttons whose press edge fired this frame.
    pub pressed: u32,
    /// Buttons currently held down.
    pub down: u32,
}

impl ButtonState {
    /// A frame with no input at all.
    pub fn new() -> (r: ButtonState)
        ensures
            r.pressed == 0u32,
            r.down == 0u32,
    {
        ButtonState { pressed: 0, down: 0 }
    }

    /// A snapshot built from explicit masks.
    pub fn from_masks(pressed: u32, down: u32) -> (r: ButtonState)
        ensures
            r.pressed == pressed,
            r.down == down,
    {
        ButtonState { pressed, down }
    }

    /// True when any button of `mask` had its press edge this frame.
    pub fn is_pressed(&self, mask: u32) -> (r: bool)
        ensures
            r == ((self.pressed & mask) != 0u32),
    {
        (self.pressed & mask) != 0
    }

    /// True when every button of `mask` is currently held (chord test).
    pub fn is_down(&self, mask: u32) -> (r: bool)
        ensures
            r == ((self.down & mask) == mask),
    {
        (self.down & mask) == mask
    }

    /// Consumes the press edges in `mask` so the host never sees them.
    pub fn set_not_pressed(&mut self, mask: u32)
        ensures
            final(self).pressed == (old(self).pressed & !mask),
            final(self).down == old(self).down,
    {
        self.pressed = self.pressed & !mask;
    }
}

} // verus!
