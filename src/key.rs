use vstd::prelude::*;

verus! {

/// A decoded key press, as the terminal reports it.
#[derive(Clone, Copy, Debug, PartialEq, Eq, Structural)]
pub enum Key {
    Backspace,
    Left,
    Right,
    Up,
    Down,
    Home,
    End,
    PageUp,
    PageDown,
    BackTab,
    Delete,
    Insert,
    /// A function key, by number.
    F(u8),
    /// A character typed without a modifier; Enter arrives as `'\n'`.
    Char(char),
    Alt(char),
    Ctrl(char),
    Null,
    Esc,
}

} // verus!
