//! Input events, as far as the state model tells them apart.

use vstd::prelude::*;

verus! {

/// A key that is not a character.
#[derive(Clone, Copy, Debug, PartialEq, Eq, Structural)]
pub enum Key {
    Enter,
    Tab,
    Backspace,
    Esc,
    Left,
    Right,
    Up,
    Down,
    /// Any other key.
    Other,
}

/// One event of input.
#[derive(Clone, Copy, Debug, PartialEq, Eq, Structural)]
pub enum Event {
    /// A character was typed.
    Char(char),
    /// A character was typed with Ctrl held.
    CtrlChar(char),
    /// A character was typed with Alt held.
    AltChar(char),
    /// A key was pressed.
    Key(Key),
    /// A key was pressed with Shift held.
    Shift(Key),
    /// Anything else.
    Other,
}

/// Whether an event was acted on.
#[derive(Clone, Copy, Debug, PartialEq, Eq, Structural)]
pub enum EventResult {
    /// The event meant nothing here; someone else may take it.
    Ignored,
    /// The event was acted on.
    Consumed,
}

} // verus!
