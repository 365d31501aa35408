//! Physical key events as the resolver sees them.

use vstd::prelude::*;

verus! {

/// The key that was pressed.
#[derive(Clone, Copy, Debug, PartialEq, Eq, Structural)]
pub enum KeyCode {
    Char(char),
    F(u8),
    Backspace,
    Enter,
    Left,
    Right,
    Up,
    Down,
    Home,
    End,
    PageUp,
    PageDown,
    Tab,
    BackTab,
    Delete,
    Insert,
    Esc,
    /// A key that has no meaning to the client.
    Null,
}

/// Whether the event reports a press, an auto-repeat or a release.
#[derive(Clone, Copy, Debug, PartialEq, Eq, Structural)]
pub enum KeyEventKind {
    Press,
    Repeat,
    Release,
}

/// One key event: the key, whether Ctrl was held, and the kind of event.
#[derive(Clone, Copy, Debug, PartialEq, Eq, Structural)]
pub struct KeyEvent {
    pub code: KeyCode,
    pub ctrl: bool,
    pub kind: KeyEventKind,
}

impl KeyEvent {
    /// A press of `code` without modifiers.
    pub fn press(code: KeyCode) -> (r: KeyEvent)
        ensures
            r == (KeyEvent { code, ctrl: false, kind: KeyEventKind::Press }),
    {
        KeyEvent { code, ctrl: false, kind: KeyEventKind::Press }
    }

    /// A press of `code` with Ctrl held.
    pub fn ctrl_press(code: KeyCode) -> (r: KeyEvent)
        ensures
            r == (KeyEvent { code, ctrl: true, kind: KeyEventKind::Press }),
    {
        KeyEvent { code, ctrl: true, kind: KeyEventKind::Press }
    }
}

} // verus!
