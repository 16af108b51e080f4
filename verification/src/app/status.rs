//! The status line: today's totals and where the cursor is.

use crate::app::{App, AppView};
use crate::date::{
    iso_date_text, iso_text, short_date_text, short_text, today, Date, MAX_DAYS, MIN_DAYS,
};
use crate::habit::{lemma_remaining_within_goal, HabitWrapperView};
use crate::text::{decimal, decimal_string, signed_decimal, signed_decimal_string};
use vstd::prelude::*;
use vstd::string::StringExecFns;

verus! {

/// The two parts of the status line, left and right.
#[derive(Debug, PartialEq, Eq)]
pub struct StatusLine(pub String, pub String);

/// The goals of all habits together.
pub open spec fn total_goal(habits: Seq<HabitWrapperView>) -> nat
    decreases habits.len(),
{
    if habits.len() == 0 {
        0
    } else {
        total_goal(habits.drop_last()) + habits.last().goal()
    }
}

/// What all habits together still owe on a day.
pub open spec fn total_remaining(habits: Seq<HabitWrapperView>, day: int) -> nat
    decreases habits.len(),
{
    if habits.len() == 0 {
        0
    } else {
        total_remaining(habits.drop_last(), day) + habits.last().remaining(day)
    }
}

impl AppView {
    /// What was completed on a day: the goals less what is still owed.
    pub open spec fn completed(self, day: int) -> nat {
        (total_goal(self.habits) - total_remaining(self.habits, day)) as nat
    }

    /// The left part of the status line: today's totals and the view mode of
    /// the habit in focus.
    pub open spec fn status_left(self, today: int) -> Seq<char> {
        "Today: "@ + decimal(self.completed(today)) + " completed, "@ + decimal(
            total_remaining(self.habits, today),
        ) + " remaining --"@ + self.mode().text() + "--"@
    }

    /// The right part of the status line: today's date while the cursor is on
    /// it, else the cursor's date and how many days ago that was.
    pub open spec fn status_right(self, today: int) -> Seq<char> {
        if self.cursor@ == today {
            short_date_text(today)
        } else {
            let since = today - self.cursor@;
            iso_date_text(self.cursor@) + " ("@ + signed_decimal(since) + " day"@ + (if since
                == 1 {
                Seq::empty()
            } else {
                "s"@
            }) + " ago)"@
        }
    }
}

impl App {
    /// The goals of all habits together, and what they still owe on `day`.
    pub fn totals(&self, day: Date) -> (t: (u128, u128))
        ensures
            t.0 == total_goal(self@.habits),
            t.1 == total_remaining(self@.habits, day@),
            t.1 <= t.0,
    {
        let mut goal: u128 = 0;
        let mut remaining: u128 = 0;
        let mut i: usize = 0;
        let ghost all = self@.habits;
        assert(all.take(0) =~= Seq::empty());
        while i < self.habits.len()
            invariant
                i <= self.habits.len(),
                all == self@.habits,
                all.len() == self.habits.len(),
                goal == total_goal(all.take(i as int)),
                remaining == total_remaining(all.take(i as int), day@),
                goal <= i * 0x1_0000_0000,
                remaining <= goal,
            decreases self.habits.len() - i,
        {
            assert(all.take(i + 1).drop_last() =~= all.take(i as int));
            assert(all.take(i + 1).last() == self.habits[i as int]@);
            proof {
                lemma_remaining_within_goal(self.habits[i as int]@, day@);
            }
            goal = goal + self.habits[i].goal() as u128;
            remaining = remaining + self.habits[i].remaining(day) as u128;
            i += 1;
        }
        assert(all.take(i as int) =~= all);
        (goal, remaining)
    }

    /// The status line, reading the clock for today.
    pub fn status(&self) -> (line: StatusLine)
        ensures
            exists|t: int|
                MIN_DAYS <= t <= MAX_DAYS && line.0@ == #[trigger] self@.status_left(t) && line.1@
                    == self@.status_right(t),
    {
        let t = today();
        proof {
            use_type_invariant(&t);
        }
        self.status_at(t)
    }

    /// The status line, with `today` as the current date.
    pub fn status_at(&self, today: Date) -> (line: StatusLine)
        ensures
            line.0@ == self@.status_left(today@),
            line.1@ == self@.status_right(today@),
    {
        let (goal, remaining) = self.totals(today);
        let completed = goal - remaining;
        let mut left = String::from_str("Today: ");
        left.append(decimal_string(completed).as_str());
        left.append(" completed, ");
        left.append(decimal_string(remaining).as_str());
        left.append(" remaining --");
        left.append(self.get_mode().to_string().as_str());
        left.append("--");
        let right = if self.cursor.0.days() == today.days() {
            short_text(today)
        } else {
            let since: i64 = today.days() as i64 - self.cursor.0.days() as i64;
            let mut right = iso_text(self.cursor.0);
            right.append(" (");
            right.append(signed_decimal_string(since).as_str());
            right.append(" day");
            if since != 1 {
                right.append("s");
            } else {
                assert(right@ + Seq::<char>::empty() =~= right@);
            }
            right.append(" ago)");
            right
        };
        StatusLine(left, right)
    }
}

} // verus!
