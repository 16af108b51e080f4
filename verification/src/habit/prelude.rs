//! Small types every habit shares.

use vstd::prelude::*;
use vstd::string::StringExecFns;

verus! {

/// A step of progress, up or down.
#[derive(Clone, Copy, Debug, PartialEq, Eq, Structural)]
pub enum TrackEvent {
    Increment,
    Decrement,
}

/// How much time one cell of a habit's view covers.
#[derive(Clone, Copy, Debug, PartialEq, Eq, Structural)]
pub enum ViewMode {
    Day,
    Week,
    Month,
    Year,
}

impl ViewMode {
    /// The mode's name as the status line shows it.
    pub open spec fn text(self) -> Seq<char> {
        match self {
            ViewMode::Day => "DAY"@,
            ViewMode::Week => "WEEK"@,
            ViewMode::Month => "MONTH"@,
            ViewMode::Year => "YEAR"@,
        }
    }

    /// The mode's name as the status line shows it.
    pub fn to_string(&self) -> (s: String)
        ensures
            s@ == self.text(),
    {
        match self {
            ViewMode::Day => String::from_str("DAY"),
            ViewMode::Week => String::from_str("WEEK"),
            ViewMode::Month => String::from_str("MONTH"),
            ViewMode::Year => String::from_str("YEAR"),
        }
    }
}

impl Default for ViewMode {
    fn default() -> (m: ViewMode)
        ensures
            m == ViewMode::Day,
    {
        ViewMode::Day
    }
}

/// Whether a habit read from a record without an `auto` flag is driven from outside.
pub fn default_auto() -> (auto: bool)
    ensures
        !auto,
{
    false
}

} // verus!
