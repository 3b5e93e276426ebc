//! The closed sets of values that travel between the terminal, the mode state
//! machine and the editor.

use vstd::prelude::*;

verus! {

/// A semantic command, the result of interpreting one input event.
#[derive(Clone, Copy, Debug, PartialEq, Eq, Structural)]
pub enum Action {
    MoveUp,
    MoveDown,
    MoveLeft,
    MoveRight,
    Quit,
    SwitchToInsert,
    SwitchToNormal,
    Command,
}

/// The key of a key event, as far as any mode tells keys apart.
#[derive(Clone, Copy, Debug, PartialEq, Eq, Structural)]
pub enum Key {
    /// A character key, with the character it types.
    Char(char),
    Up,
    Down,
    Left,
    Right,
    Esc,
    Backspace,
    Delete,
    Enter,
    /// Any key that no mode binds.
    Other,
}

/// One input event of the terminal.
#[derive(Clone, Copy, Debug, PartialEq, Eq, Structural)]
pub enum Event {
    Key(Key),
    /// Focus changes, mouse input, pastes and resize notices: no mode reads them.
    Other,
}

} // verus!
