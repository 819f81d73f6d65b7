//! The input-event boundary: mouse buttons, key codes and raw events as the
//! operating system reports them.

use vstd::prelude::*;

verus! {

/// A mouse button from the fixed set that the X core protocol enumerates.
#[derive(Clone, Copy, PartialEq, Eq, Structural, Hash, Debug)]
pub enum InputButton {
    // Normal buttons
    Left,
    Middle,
    Right,
    ScrollUp,
    ScrollDown,
    // Side/Thumb buttons
    Back,
    Forward,
}

/// The X core-protocol detail code of each button (buttons 1 through 5, with
/// 8 and 9 for the side buttons).
pub open spec fn spec_button_code(b: InputButton) -> u32 {
    match b {
        InputButton::Left => 1,
        InputButton::Middle => 2,
        InputButton::Right => 3,
        InputButton::ScrollUp => 4,
        InputButton::ScrollDown => 5,
        InputButton::Back => 8,
        InputButton::Forward => 9,
    }
}

/// The button carrying a given detail code, if any.
pub open spec fn spec_button_from_code(code: u32) -> Option<InputButton> {
    if code == 1 {
        Some(InputButton::Left)
    } else if code == 2 {
        Some(InputButton::Middle)
    } else if code == 3 {
        Some(InputButton::Right)
    } else if code == 4 {
        Some(InputButton::ScrollUp)
    } else if code == 5 {
        Some(InputButton::ScrollDown)
    } else if code == 8 {
        Some(InputButton::Back)
    } else if code == 9 {
        Some(InputButton::Forward)
    } else {
        None
    }
}

impl InputButton {
    /// The X protocol detail code of this button.
    pub fn code(self) -> (c: u32)
        ensures
            c == spec_button_code(self),
    {
        match self {
            InputButton::Left => 1,
            InputButton::Middle => 2,
            InputButton::Right => 3,
            InputButton::ScrollUp => 4,
            InputButton::ScrollDown => 5,
            InputButton::Back => 8,
            InputButton::Forward => 9,
        }
    }

    /// The button carrying a raw detail code, or `None` for a code outside
    /// the recognized set.
    pub fn try_from_code(code: u32) -> (r: Option<InputButton>)
        ensures
            r == spec_button_from_code(code),
    {
        if code == 1 {
            Some(InputButton::Left)
        } else if code == 2 {
            Some(InputButton::Middle)
        } else if code == 3 {
            Some(InputButton::Right)
        } else if code == 4 {
            Some(InputButton::ScrollUp)
        } else if code == 5 {
            Some(InputButton::ScrollDown)
        } else if code == 8 {
            Some(InputButton::Back)
        } else if code == 9 {
            Some(InputButton::Forward)
        } else {
            None
        }
    }
}

/// A raw keyboard key code as the event source reports it.
pub type InputKey = u8;

/// One raw input event from the operating system's event source.
#[derive(Clone, Copy, Debug)]
pub enum InputEvent {
    KeyPress(InputKey),
    KeyRelease(InputKey),
    ButtonPress(InputButton),
    ButtonRelease(InputButton),
}

} // verus!
