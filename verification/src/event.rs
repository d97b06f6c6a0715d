//! Key presses as the views and the controller see them.

use vstd::prelude::*;

verus! {

/// A key press.
#[derive(Debug, Clone, Copy, PartialEq, Eq, Hash, Structural)]
pub enum Key {
    Backspace,
    Left,
    Right,
    Up,
    Down,
    Home,
    End,
    PageUp,
    PageDown,
    BackTab,
    Delete,
    Insert,
    /// A function key, `F(1)` to `F(12)`.
    F(u8),
    /// A character key; Enter is `Char('\n')`.
    Char(char),
    /// A character key pressed together with Alt.
    Alt(char),
    /// A character key pressed together with Ctrl.
    Ctrl(char),
    Null,
    Esc,
}

} // verus!
