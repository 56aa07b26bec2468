//! Keyboard events as the engine sees them.  The terminal backend maps its
//! raw input to this enum before anything here runs.

use vstd::prelude::*;

verus! {

#[derive(Debug, Clone, Copy, PartialEq, Eq, Structural)]
pub enum Key {
    Char(char),
    Ctrl(char),
    Enter,
    Tab,
    Esc,
    Backspace,
    Delete,
    Left,
    Right,
    Up,
    Down,
    Home,
    End,
    PageUp,
    PageDown,
    F5,
    CtrlHome,
    CtrlEnd,
    CtrlLeft,
    CtrlRight,
    CtrlBackspace,
    Unknown,
}

} // verus!
