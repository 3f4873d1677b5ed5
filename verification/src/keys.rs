//! Key presses as the screens see them: a key code and the modifier keys
//! held with it.

use vstd::prelude::*;

verus! {

/// The key that was pressed.
#[derive(Debug, Clone, Copy, PartialEq, Eq, Structural)]
pub enum KeyCode {
    Backspace,
    Enter,
    Left,
    Right,
    Up,
    Down,
    Home,
    End,
    PageUp,
    PageDown,
    Tab,
    BackTab,
    Delete,
    Insert,
    F(u8),
    Char(char),
    Null,
    Esc,
    /// Any other key (lock keys, media keys, lone modifier keys...).
    Other,
}

/// The modifier keys held, one bit each: shift, control, alt, super, hyper,
/// meta (from the lowest bit up).
#[derive(Debug, Clone, Copy, PartialEq, Eq, Structural)]
pub struct KeyModifiers {
    pub bits: u8,
}

impl KeyModifiers {
    /// No modifier is held.
    pub fn is_empty(self) -> (b: bool)
        ensures
            b == (self.bits == 0),
    {
        self.bits == 0
    }

    /// Nothing but shift is held.
    pub fn is_shift_only(self) -> (b: bool)
        ensures
            b == (self.bits == 1),
    {
        self.bits == 1
    }

    /// Control is among the modifiers held.
    pub open spec fn has_control(self) -> bool {
        self.bits & 2 != 0
    }

    /// Whether control is held (possibly with other modifiers).
    pub fn contains_control(self) -> (b: bool)
        ensures
            b == self.has_control(),
    {
        self.bits & 2 != 0
    }

    /// No modifier, or shift alone: what plain typing produces.
    pub open spec fn is_plain_typing(self) -> bool {
        self.bits == 0 || self.bits == 1
    }
}

} // verus!
