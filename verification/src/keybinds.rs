//! Key bindings as a user writes them down.

use crate::event::Event;
use vstd::prelude::*;
use vstd::string::StrSliceExecFns;

verus! {

/// A key a user can bind: a character, alone or with Ctrl or Alt held.
#[derive(Clone, Copy, Debug, PartialEq, Eq, Structural)]
pub enum Bind {
    Char(char),
    CtrlChar(char),
    AltChar(char),
}

/// The four keys of a movement.
#[derive(Clone, Copy, Debug, PartialEq, Eq, Structural)]
pub struct Movement {
    pub up: Bind,
    pub down: Bind,
    pub left: Bind,
    pub right: Bind,
}

/// The keys of the interface.
#[derive(Clone, Copy, Debug, PartialEq, Eq, Structural)]
pub struct KeyBinds {
    pub grid: Movement,
    pub cursor: Movement,
    pub week_mode: Bind,
    pub global_week_mode: Bind,
}

impl Movement {
    /// A movement by four plain characters, given in the order left, down,
    /// up, right.
    pub fn new(left: char, down: char, up: char, right: char) -> (m: Movement)
        ensures
            m == (Movement {
                up: Bind::Char(up),
                down: Bind::Char(down),
                left: Bind::Char(left),
                right: Bind::Char(right),
            }),
    {
        Movement {
            up: Bind::Char(up),
            down: Bind::Char(down),
            left: Bind::Char(left),
            right: Bind::Char(right),
        }
    }
}

impl Default for KeyBinds {
    fn default() -> (k: KeyBinds)
        ensures
            k == (KeyBinds {
                grid: Movement {
                    up: Bind::Char('k'),
                    down: Bind::Char('j'),
                    left: Bind::Char('h'),
                    right: Bind::Char('l'),
                },
                cursor: Movement {
                    up: Bind::Char('K'),
                    down: Bind::Char('J'),
                    left: Bind::Char('H'),
                    right: Bind::Char('L'),
                },
                week_mode: Bind::Char('v'),
                global_week_mode: Bind::Char('V'),
            }),
    {
        KeyBinds {
            grid: Movement::new('h', 'j', 'k', 'l'),
            cursor: Movement::new('H', 'J', 'K', 'L'),
            week_mode: Bind::Char('v'),
            global_week_mode: Bind::Char('V'),
        }
    }
}

impl Bind {
    /// The event that the bound key gives. A key bound with Ctrl gives the
    /// event of the plain character.
    pub open spec fn event(self) -> Event {
        match self {
            Bind::Char(c) => Event::Char(c),
            Bind::CtrlChar(c) => Event::Char(c),
            Bind::AltChar(c) => Event::AltChar(c),
        }
    }

    /// The event that the bound key gives.
    pub fn to_event(self) -> (e: Event)
        ensures
            e == self.event(),
    {
        match self {
            Bind::Char(c) => Event::Char(c),
            Bind::CtrlChar(c) => Event::Char(c),
            Bind::AltChar(c) => Event::AltChar(c),
        }
    }
}

/// Whether a character is written in one byte.
pub open spec fn is_plain(c: char) -> bool {
    (c as u32) < 128
}

/// The event that a written key stands for: a single plain character stands
/// for itself, and `c-` or `C-` before a plain character for that character
/// with Ctrl held. Nothing else is a key.
pub open spec fn key_event(key: Seq<char>) -> Option<Event> {
    if key.len() == 1 && is_plain(key[0]) {
        Some(Event::Char(key[0]))
    } else if key.len() == 3 && (key[0] == 'c' || key[0] == 'C') && key[1] == '-' && is_plain(
        key[2],
    ) {
        Some(Event::CtrlChar(key[2]))
    } else {
        None
    }
}

impl Event {
    /// Reads a written key, if it is one.
    pub fn from_key(key: &str) -> (e: Option<Event>)
        ensures
            e == key_event(key@),
    {
        let n = key.unicode_len();
        if n == 1 {
            let c = key.get_char(0);
            if (c as u32) < 128 {
                return Some(Event::Char(c));
            }
        } else if n == 3 {
            let first = key.get_char(0);
            let c = key.get_char(2);
            if (first == 'c' || first == 'C') && key.get_char(1) == '-' && (c as u32) < 128 {
                return Some(Event::CtrlChar(c));
            }
        }
        None
    }

    /// Reads a written key.
    pub fn from(key: &str) -> (e: Event)
        requires
            key_event(key@) is Some,
        ensures
            Some(e) == key_event(key@),
    {
        match Event::from_key(key) {
            Some(e) => e,
            None => Event::Other,
        }
    }
}

} // verus!
