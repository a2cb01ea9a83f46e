//! Keyboard input as the dashboard reads it.

use vstd::prelude::*;

verus! {

/// The key of a keyboard event. Keys that the dashboard gives no meaning are `Other`.
#[derive(Debug, Clone, Copy, PartialEq, Eq, Structural)]
pub enum KeyCode {
    Char(char),
    Enter,
    Esc,
    Backspace,
    Delete,
    Up,
    Down,
    Left,
    Right,
    Tab,
    BackTab,
    Other,
}

/// Whether a key went down, is held, or came up.
#[derive(Debug, Clone, Copy, PartialEq, Eq, Structural)]
pub enum KeyEventKind {
    Press,
    Repeat,
    Release,
}

/// One keyboard event.
#[derive(Debug, Clone, Copy, PartialEq, Eq, Structural)]
pub struct KeyEvent {
    pub code: KeyCode,
    /// Whether the control key was held.
    pub control: bool,
    pub kind: KeyEventKind,
}

impl KeyEvent {
    /// The press of a key without the control key.
    pub open spec fn plain(code: KeyCode) -> KeyEvent {
        KeyEvent { code, control: false, kind: KeyEventKind::Press }
    }

    /// The press of a key without the control key.
    pub fn press(code: KeyCode) -> (event: KeyEvent)
        ensures
            event == KeyEvent::plain(code),
    {
        KeyEvent { code, control: false, kind: KeyEventKind::Press }
    }

    /// The press of a key with the control key held.
    pub fn press_with_control(code: KeyCode) -> (event: KeyEvent)
        ensures
            event == (KeyEvent { code, control: true, kind: KeyEventKind::Press }),
    {
        KeyEvent { code, control: true, kind: KeyEventKind::Press }
    }
}

} // verus!
