//! The navigation cursor: one date that can scroll into the past without
//! limit but never past today.

use crate::date::{add_weeks, next_day, previous_day, today, Date, MAX_DAYS, MIN_DAYS};
use vstd::prelude::*;

verus! {

/// A direction on the grid or along the calendar.
#[derive(Clone, Copy, Debug, PartialEq, Eq, Structural)]
pub enum Absolute {
    Left,
    Up,
    Right,
    Down,
    /// No direction: nothing moves.
    Still,
}

/// The date a view is scrolled to.
#[derive(Clone, Copy, Debug)]
pub struct Cursor(pub Date);

impl View for Cursor {
    type V = int;

    open spec fn view(&self) -> int {
        self.0@
    }
}

/// Where a small seek leaves a cursor, given the day that counts as today.
///
/// Left and Up go back a day and a week and stop only at the calendar's first
/// day; Right and Down go forward a day and a week, and are ignored when they
/// would pass today.
pub open spec fn small_seek_spec(cursor: int, d: Absolute, today: int) -> int {
    match d {
        Absolute::Right => if cursor + 1 <= today { cursor + 1 } else { cursor },
        Absolute::Left => if cursor - 1 >= MIN_DAYS { cursor - 1 } else { cursor },
        Absolute::Down => if cursor + 7 <= today { cursor + 7 } else { cursor },
        Absolute::Up => if cursor - 7 >= MIN_DAYS { cursor - 7 } else { cursor },
        Absolute::Still => cursor,
    }
}

/// Where a seek of four weeks forward leaves a cursor: 28 days on, or on
/// today where that would pass it.
pub open spec fn month_forward_spec(cursor: int, today: int) -> int {
    if cursor + 28 <= today {
        cursor + 28
    } else {
        today
    }
}

/// Where a seek of four weeks back leaves a cursor: 28 days earlier, however
/// far in the past; a cursor that would still lie after today lands on today.
pub open spec fn month_backward_spec(cursor: int, today: int) -> int {
    let next = if cursor - 28 >= MIN_DAYS { cursor - 28 } else { cursor };
    if next <= today {
        next
    } else {
        today
    }
}

/// The cursor after `n` small seeks in direction `d`, all on the same day.
pub open spec fn small_seek_repeated(cursor: int, d: Absolute, today: int, n: nat) -> int
    decreases n,
{
    if n == 0 {
        cursor
    } else {
        small_seek_spec(small_seek_repeated(cursor, d, today, (n - 1) as nat), d, today)
    }
}

impl Cursor {
    /// The cursor on the date with the given day number.
    pub open spec fn on_day(day: int) -> Cursor {
        Cursor(Date::of_day(day))
    }

    /// A cursor is the cursor on its day.
    pub proof fn lemma_on_own_day(self)
        requires
            self.0.in_range(),
        ensures
            self == Cursor::on_day(self@),
    {
        Date::lemma_of_day(self@);
        Date::lemma_same_day(self.0, Date::of_day(self@));
    }

    /// A cursor on the current date.
    pub fn new() -> Cursor {
        Cursor(today())
    }

    /// Moves by a day or a week, reading the clock for today.
    pub fn small_seek(&mut self, d: Absolute)
        ensures
            exists|t: int|
                MIN_DAYS <= t <= MAX_DAYS && final(self)@ == #[trigger] small_seek_spec(
                    old(self)@,
                    d,
                    t,
                ),
    {
        let t = today();
        proof {
            use_type_invariant(&t);
        }
        self.small_seek_at(d, t);
    }

    /// Moves by a day or a week, with `today` as the current date.
    pub fn small_seek_at(&mut self, d: Absolute, today: Date)
        ensures
            final(self)@ == small_seek_spec(old(self)@, d, today@),
    {
        proof {
            use_type_invariant(&today);
            use_type_invariant(&self.0);
        }
        let cursor = self.0;
        let moved = match d {
            Absolute::Right => next_day(cursor),
            Absolute::Left => previous_day(cursor),
            Absolute::Down => add_weeks(cursor, 1),
            Absolute::Up => add_weeks(cursor, -1),
            Absolute::Still => None,
        };
        if let Some(next) = moved {
            if next.days() <= today.days() || d == Absolute::Left || d == Absolute::Up {
                self.0 = next;
            }
        }
    }

    /// Moves four weeks forward, reading the clock for today.
    pub fn month_forward(&mut self)
        ensures
            exists|t: int|
                MIN_DAYS <= t <= MAX_DAYS && final(self)@ == #[trigger] month_forward_spec(
                    old(self)@,
                    t,
                ),
    {
        let t = today();
        proof {
            use_type_invariant(&t);
        }
        self.month_forward_at(t);
    }

    /// Moves four weeks forward, with `today` as the current date.
    pub fn month_forward_at(&mut self, today: Date)
        ensures
            final(self)@ == month_forward_spec(old(self)@, today@),
    {
        proof {
            use_type_invariant(&today);
            use_type_invariant(&self.0);
        }
        self.0 = match add_weeks(self.0, 4) {
            Some(next) => if next.days() <= today.days() {
                next
            } else {
                today
            },
            None => today,
        };
    }

    /// Moves four weeks back, reading the clock for today.
    pub fn month_backward(&mut self)
        ensures
            exists|t: int|
                MIN_DAYS <= t <= MAX_DAYS && final(self)@ == #[trigger] month_backward_spec(
                    old(self)@,
                    t,
                ),
    {
        let t = today();
        proof {
            use_type_invariant(&t);
        }
        self.month_backward_at(t);
    }

    /// Moves four weeks back, with `today` as the current date.
    pub fn month_backward_at(&mut self, today: Date)
        ensures
            final(self)@ == month_backward_spec(old(self)@, today@),
    {
        let next = match add_weeks(self.0, -4) {
            Some(next) => next,
            None => self.0,
        };
        if next.days() <= today.days() {
            self.0 = next;
        } else {
            self.0 = today;
        }
    }

    /// Snaps to the current date.
    pub fn reset(&mut self) {
        self.0 = today();
    }

    /// Snaps to `today`.
    pub fn reset_at(&mut self, today: Date)
        ensures
            final(self)@ == today@,
            final(self).0 == today,
    {
        self.0 = today;
    }
}

impl Default for Cursor {
    fn default() -> Cursor {
        Cursor::new()
    }
}

/// A small seek never takes a cursor that is not after today past today.
pub proof fn lemma_small_seek_stays_in_past(cursor: int, d: Absolute, today: int)
    requires
        cursor <= today,
    ensures
        small_seek_spec(cursor, d, today) <= today,
{
}

/// However often a cursor on today seeks Right, it stays on today.
pub proof fn lemma_seek_right_from_today(today: int, n: nat)
    ensures
        small_seek_repeated(today, Absolute::Right, today, n) == today,
    decreases n,
{
    if n > 0 {
        lemma_seek_right_from_today(today, (n - 1) as nat);
    }
}

/// A cursor on today that seeks Left `n` times lands `n` days in the past, as
/// long as the calendar reaches that far back.
pub proof fn lemma_seek_left_from_today(today: int, n: nat)
    requires
        today - n >= MIN_DAYS,
    ensures
        small_seek_repeated(today, Absolute::Left, today, n) == today - n,
    decreases n,
{
    if n > 0 {
        lemma_seek_left_from_today(today, (n - 1) as nat);
    }
}

/// A seek of four weeks forward never passes today, and lands exactly on
/// today whenever 28 days on would pass it.
pub proof fn lemma_month_forward_clamps(cursor: int, today: int)
    ensures
        month_forward_spec(cursor, today) <= today,
        cursor + 28 > today ==> month_forward_spec(cursor, today) == today,
{
}

} // verus!
