//! Key events as the components see them.

use vstd::prelude::*;

verus! {

/// A key the terminal reported.
#[derive(Debug, Clone, Copy, PartialEq, Eq)]
pub enum KeyCode {
    Char(char),
    Tab,
    BackTab,
    Backspace,
    Delete,
    Left,
    Right,
    Up,
    Down,
    Enter,
    Insert,
    CtrlC,
    Esc,
    /// Any other key (function keys, Home, End, ...), which no component handles.
    Other,
}

/// A key press and whether Ctrl was held.
#[derive(Debug, Clone, Copy, PartialEq, Eq)]
pub struct KeyEvent {
    pub code: KeyCode,
    pub ctrl: bool,
}

} // verus!
