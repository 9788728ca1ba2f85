//! A plain model of terminal key events: a key identifier plus a set of
//! modifier flags. The event loop translates the terminal backend's events
//! into these values before handing them to the dispatchers.

use vstd::prelude::*;

verus! {

/// The key identifier of an input event. Keys the dispatchers never act on
/// are folded into `Other`.
#[derive(Debug, Clone, Copy, PartialEq, Eq, Structural)]
pub enum KeyCode {
    Char(char),
    Enter,
    Esc,
    Backspace,
    Up,
    Down,
    Other,
}

/// The modifier flags of an input event. `alt` stands for any modifier
/// besides control and shift.
#[derive(Debug, Clone, Copy, PartialEq, Eq, Structural)]
pub struct KeyModifiers {
    pub ctrl: bool,
    pub shift: bool,
    pub alt: bool,
}

impl KeyModifiers {
    /// No modifier held.
    pub open spec fn spec_is_none(self) -> bool {
        !self.ctrl && !self.shift && !self.alt
    }

    /// Control alone held.
    pub open spec fn spec_is_only_ctrl(self) -> bool {
        self.ctrl && !self.shift && !self.alt
    }

    pub fn none() -> (m: Self)
        ensures
            m.spec_is_none(),
    {
        KeyModifiers { ctrl: false, shift: false, alt: false }
    }

    pub fn control() -> (m: Self)
        ensures
            m.spec_is_only_ctrl(),
    {
        KeyModifiers { ctrl: true, shift: false, alt: false }
    }

    pub fn is_none(&self) -> (b: bool)
        ensures
            b == self.spec_is_none(),
    {
        !self.ctrl && !self.shift && !self.alt
    }

    pub fn is_only_ctrl(&self) -> (b: bool)
        ensures
            b == self.spec_is_only_ctrl(),
    {
        self.ctrl && !self.shift && !self.alt
    }
}

/// One discrete input event: a key identifier and the modifiers held with it.
#[derive(Debug, Clone, Copy, PartialEq, Eq, Structural)]
pub struct KeyEvent {
    pub code: KeyCode,
    pub modifiers: KeyModifiers,
}

impl KeyEvent {
    pub fn new(code: KeyCode, modifiers: KeyModifiers) -> (k: Self)
        ensures
            k.code == code,
            k.modifiers == modifiers,
    {
        KeyEvent { code, modifiers }
    }
}

} // verus!
