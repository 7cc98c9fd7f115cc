//! Key presses as the application reads them: a key and the Control, Alt
//! and Shift modifiers.

use vstd::prelude::*;

verus! {

/// The key of a key press: the keys that a text area tells apart, and
/// `Other` for every key that it ignores.
#[derive(Clone, Copy, Debug, PartialEq, Eq, Structural)]
pub enum KeyKind {
    Char(char),
    F(u8),
    Backspace,
    Enter,
    Left,
    Right,
    Up,
    Down,
    Tab,
    Delete,
    Home,
    End,
    PageUp,
    PageDown,
    Esc,
    Other,
}

/// A key press: the key, and whether Control, Alt and Shift are held.
#[derive(Clone, Copy, Debug, PartialEq, Eq, Structural)]
pub struct KeyInput {
    pub kind: KeyKind,
    pub ctrl: bool,
    pub alt: bool,
    pub shift: bool,
}

impl KeyInput {
    /// The key press of `kind` with the given modifiers held.
    pub fn new(kind: KeyKind, ctrl: bool, alt: bool, shift: bool) -> (key: Self)
        ensures
            key == (KeyInput { kind, ctrl, alt, shift }),
    {
        KeyInput { kind, ctrl, alt, shift }
    }
}

/// Escape, which ends the program.
pub open spec fn is_escape(key: KeyInput) -> bool {
    key.kind == KeyKind::Esc
}

/// Control + c, which leaves the current mode.
pub open spec fn is_quit(key: KeyInput) -> bool {
    key.kind == KeyKind::Char('c') && key.ctrl
}

/// Control + j, which submits what was typed.
pub open spec fn is_submit(key: KeyInput) -> bool {
    key.kind == KeyKind::Char('j') && key.ctrl
}

/// A key that edits a one-line field: a character, Backspace, Left or Right,
/// whatever modifiers are held.
pub open spec fn is_edit(key: KeyInput) -> bool {
    match key.kind {
        KeyKind::Char(_) | KeyKind::Backspace | KeyKind::Left | KeyKind::Right => true,
        _ => false,
    }
}

} // verus!
