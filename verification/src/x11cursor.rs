//! The pointer: which of its buttons are down.

use vstd::prelude::*;
use crate::types::MouseEventType;

verus! {

/// The bit that stands for button `button` in a button mask; buttons beyond
/// the eighth have none.
pub open spec fn button_bit(button: i16) -> u8 {
    if 0 <= button < 8 {
        1u8 << (button as u8)
    } else {
        0
    }
}

/// A coordinate as the server takes it: one that does not fit in 16 bits
/// counts as 0.
pub open spec fn clamped(v: i32) -> u16 {
    if 0 <= v <= 0xffff {
        v as u16
    } else {
        0
    }
}

/// The button mask after an event on the button that has the bit `bit`.
pub open spec fn mask_after(mask: u8, bit: u8, et: MouseEventType) -> u8 {
    match et {
        MouseEventType::Down => mask | bit,
        MouseEventType::Up => mask & !bit,
        MouseEventType::Move => mask,
    }
}

/// Keeps track of the buttons that are down.
pub struct MouseUtils {
    mask: u8,
}

impl View for MouseUtils {
    type V = u8;

    closed spec fn view(&self) -> u8 {
        self.mask
    }
}

impl MouseUtils {
    /// No button is down.
    pub fn new() -> (m: Self)
        ensures
            m@ == 0,
    {
        Self { mask: 0 }
    }

    /// Takes a pointer event at `x`, `y` on button `button` and hands on the
    /// position and the buttons that are down after it.
    pub fn get_mouse_sym(&mut self, x: i32, y: i32, button: i16, et: MouseEventType) -> (r: (
        u16,
        u16,
        u8,
    ))
        ensures
            final(self)@ == mask_after(old(self)@, button_bit(button), et),
            r == (clamped(x), clamped(y), final(self)@),
    {
        let px: u16 = if 0 <= x && x <= 0xffff {
            x as u16
        } else {
            0
        };
        let py: u16 = if 0 <= y && y <= 0xffff {
            y as u16
        } else {
            0
        };
        let bit: u8 = if 0 <= button && button < 8 {
            1u8 << (button as u8)
        } else {
            0
        };
        match et {
            MouseEventType::Down => {
                self.mask = self.mask | bit;
            },
            MouseEventType::Up => {
                self.mask = self.mask & !bit;
            },
            MouseEventType::Move => {},
        }
        (px, py, self.mask)
    }
}

} // verus!
