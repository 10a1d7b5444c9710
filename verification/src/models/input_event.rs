//! A plain model of terminal input events, used as the key of the
//! key-binding table.  The terminal back end translates its own event
//! type into this one.

use vstd::prelude::*;

verus! {

/// A key on the keyboard.
#[derive(Clone, Copy, Debug, PartialEq, Eq, Hash, Structural)]
pub enum KeyCode {
    Char(char),
    Enter,
    Esc,
    Backspace,
    Delete,
    Tab,
    Up,
    Down,
    Left,
    Right,
    PageUp,
    PageDown,
    Home,
    End,
    F(u8),
    Other,
}

/// One user input, as the key-binding table sees it: a key press with
/// its modifier bits, or a mouse wheel step.
#[derive(Clone, Copy, Debug, PartialEq, Eq, Hash, Structural)]
pub enum InputEvent {
    /// A key press: the key and the modifier bits the terminal
    /// reported.
    Key(KeyCode, u8),
    /// The mouse wheel rolled up.
    ScrollUp,
    /// The mouse wheel rolled down.
    ScrollDown,
}

} // verus!
