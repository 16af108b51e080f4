//! Habits measured by a daily count.

use crate::command::GoalKind;
use crate::date::Date;
use crate::habit::prelude::TrackEvent;
use crate::habit::traits::Habit;
use crate::habit::wrapper::HabitWrapperView;
use crate::habit::InnerData;
use crate::ledger::{ledger_of, lemma_ledger_of_listing, lists, Ledger};
use vstd::prelude::*;

verus! {

/// A habit that is done when a day's count reaches the goal.
#[derive(Debug)]
pub struct Count {
    name: String,
    stats: Ledger<u32>,
    goal: u32,
    auto: bool,
    inner_data: InnerData,
}

/// A count habit as a value: its name, ledger by day number, goal, auto flag
/// and view state.
pub struct CountView {
    pub name: Seq<char>,
    pub stats: Map<int, u32>,
    pub goal: u32,
    pub auto: bool,
    pub inner_data: InnerData,
}

impl CountView {
    /// The count of a day; a day without an entry counts zero.
    pub open spec fn value_at(self, day: int) -> nat {
        if self.stats.contains_key(day) {
            self.stats[day] as nat
        } else {
            0
        }
    }

    /// A day reaches the goal when it has an entry of at least the goal.
    pub open spec fn reached_goal(self, day: int) -> bool {
        self.stats.contains_key(day) && self.stats[day] >= self.goal
    }

    /// What a day still owes: nothing once the goal is reached, else the goal
    /// less the day's count.
    pub open spec fn remaining(self, day: int) -> nat {
        if self.reached_goal(day) {
            0
        } else {
            (self.goal - self.value_at(day)) as nat
        }
    }

    /// The habit after one step of progress on a day.
    ///
    /// An increment adds one, starting an entry at one, and leaves a count of
    /// `u32::MAX` as it is. A decrement takes one off; it leaves no zero
    /// behind but removes the entry, and does nothing to a day without one.
    pub open spec fn after(self, day: int, event: TrackEvent) -> CountView {
        let stats = match event {
            TrackEvent::Increment => if self.value_at(day) < u32::MAX {
                self.stats.insert(day, (self.value_at(day) + 1) as u32)
            } else {
                self.stats
            },
            TrackEvent::Decrement => if self.value_at(day) >= 2 {
                self.stats.insert(day, (self.value_at(day) - 1) as u32)
            } else {
                self.stats.remove(day)
            },
        };
        CountView { stats, ..self }
    }
}

impl View for Count {
    type V = CountView;

    closed spec fn view(&self) -> CountView {
        CountView {
            name: self.name@,
            stats: self.stats@,
            goal: self.goal,
            auto: self.auto,
            inner_data: self.inner_data,
        }
    }
}

impl Count {
    /// A habit without entries, its view in day mode on the current date.
    pub fn new(name: &str, goal: u32, auto: bool) -> (c: Count)
        ensures
            c@.name == name@,
            c@.stats == Map::<int, u32>::empty(),
            c@.goal == goal,
            c@.auto == auto,
            c@.inner_data.view_mode == crate::habit::ViewMode::Day,
    {
        Count {
            name: name.to_owned(),
            stats: Ledger::new(),
            goal,
            auto,
            inner_data: InnerData::new(),
        }
    }

    /// A habit without entries, its view in day mode on `today`.
    pub fn new_at(name: &str, goal: u32, auto: bool, today: Date) -> (c: Count)
        ensures
            c@ == (CountView {
                name: name@,
                stats: Map::empty(),
                goal,
                auto,
                inner_data: InnerData::starting(today),
            }),
    {
        Count {
            name: name.to_owned(),
            stats: Ledger::new(),
            goal,
            auto,
            inner_data: InnerData::new_at(today),
        }
    }
}

impl Count {
    /// All entries of the ledger, each date once, in no particular order.
    pub fn entries(&self) -> (out: Vec<(Date, u32)>)
        ensures
            lists(out@, self@.stats),
            out.len() == self@.stats.len(),
            forall|i: int, j: int|
                0 <= i < j < out.len() ==> (#[trigger] out[i]).0@ != (#[trigger] out[j]).0@,
    {
        self.stats.entries()
    }

    /// A habit read back from what was written of it: its ledger is the one
    /// that `entries` writes, its view starts in day mode on the current
    /// date.
    pub fn restore(name: &str, goal: u32, auto: bool, entries: &Vec<(Date, u32)>) -> (c: Count)
        ensures
            c@.name == name@,
            c@.stats == ledger_of(entries@),
            c@.goal == goal,
            c@.auto == auto,
            c@.inner_data.view_mode == crate::habit::ViewMode::Day,
    {
        Count::restore_at(name, goal, auto, entries, crate::date::today())
    }

    /// A habit read back from what was written of it: its ledger is the one
    /// that `entries` writes, its view starts in day mode on `today`.
    pub fn restore_at(name: &str, goal: u32, auto: bool, entries: &Vec<(Date, u32)>, today: Date) -> (c: Count)
        ensures
            c@ == (CountView {
                name: name@,
                stats: ledger_of(entries@),
                goal,
                auto,
                inner_data: InnerData::starting(today),
            }),
    {
        Count {
            name: name.to_owned(),
            stats: Ledger::from_entries(entries),
            goal,
            auto,
            inner_data: InnerData::new_at(today),
        }
    }
}

impl Habit for Count {
    type HabitType = u32;

    open spec fn as_wrapper(&self) -> HabitWrapperView {
        HabitWrapperView::Count(self@)
    }

    open spec fn entry(&self, day: int) -> Option<u32> {
        if self@.stats.contains_key(day) {
            Some(self@.stats[day])
        } else {
            None
        }
    }

    open spec fn kind_for(goal: u32) -> GoalKind {
        GoalKind::Count(goal)
    }

    fn name(&self) -> (r: String)
        ensures
            r@ == self@.name,
    {
        self.name.clone()
    }

    fn set_name(&mut self, n: &str)
        ensures
            final(self)@ == (CountView { name: n@, ..old(self)@ }),
    {
        self.name = n.to_owned();
    }

    fn kind(&self) -> (k: GoalKind)
        ensures
            k == GoalKind::Count(self@.goal),
    {
        GoalKind::Count(self.goal)
    }

    fn set_goal(&mut self, g: u32)
        ensures
            final(self)@ == (CountView { goal: g, ..old(self)@ }),
    {
        self.goal = g;
    }

    fn get_by_date(&self, date: Date) -> (r: Option<&u32>)
        ensures
            r is Some <==> self@.stats.contains_key(date@),
            r matches Some(v) ==> *v == self@.stats[date@],
    {
        self.stats.get(date)
    }

    fn insert_entry(&mut self, date: Date, val: u32)
        ensures
            final(self)@ == (CountView { stats: old(self)@.stats.insert(date@, val), ..old(self)@ }),
    {
        self.stats.insert(date, val);
    }

    fn reached_goal(&self, date: Date) -> (b: bool)
        ensures
            b == self@.reached_goal(date@),
    {
        match self.stats.get(date) {
            Some(val) => *val >= self.goal,
            None => false,
        }
    }

    fn remaining(&self, date: Date) -> (r: u32)
        ensures
            r == self@.remaining(date@),
    {
        match self.stats.get(date) {
            Some(val) => if *val >= self.goal {
                0
            } else {
                self.goal - *val
            },
            None => self.goal,
        }
    }

    fn goal(&self) -> (g: u32)
        ensures
            g == self@.goal,
    {
        self.goal
    }

    fn modify(&mut self, date: Date, event: TrackEvent)
        ensures
            final(self)@ == old(self)@.after(date@, event),
    {
        let current: Option<u32> = match self.stats.get(date) {
            Some(val) => Some(*val),
            None => None,
        };
        match event {
            TrackEvent::Increment => match current {
                Some(val) => if val < u32::MAX {
                    self.stats.insert(date, val + 1);
                },
                None => {
                    self.stats.insert(date, 1);
                },
            },
            TrackEvent::Decrement => match current {
                Some(val) => if val >= 2 {
                    self.stats.insert(date, val - 1);
                } else {
                    self.stats.remove(date);
                },
                None => {},
            },
        }
        assert(self@.stats =~= old(self)@.after(date@, event).stats);
    }

    fn inner_data_ref(&self) -> (r: &InnerData)
        ensures
            *r == self@.inner_data,
    {
        &self.inner_data
    }

    fn inner_data_mut_ref(&mut self) -> (r: &mut InnerData)
        ensures
            *r == old(self)@.inner_data,
            final(self)@ == (CountView { inner_data: *final(r), ..old(self)@ }),
    {
        &mut self.inner_data
    }

    fn is_auto(&self) -> (b: bool)
        ensures
            b == self@.auto,
    {
        self.auto
    }
}

/// While a day's count is below the goal, the count and what the day still
/// owes add up to the goal.
pub proof fn lemma_count_remaining_adds_up(v: CountView, day: int)
    requires
        v.stats.contains_key(day),
        v.stats[day] < v.goal,
    ensures
        v.remaining(day) + v.value_at(day) == v.goal,
{
}

/// A day owes nothing exactly when it has reached the goal. The one
/// exception is left out: a goal of zero on a day without an entry, which
/// owes nothing and yet has not reached the goal.
pub proof fn lemma_count_owes_nothing_iff_reached(v: CountView, day: int)
    requires
        v.goal > 0 || v.stats.contains_key(day),
    ensures
        v.remaining(day) == 0 <==> v.reached_goal(day),
{
}

/// A step up followed by a step down on the same day gives the day its
/// count back, and where the day had a count above zero, or no entry, the
/// whole habit is as before. A count of `u32::MAX`, which cannot step up, is
/// left out.
pub proof fn lemma_count_up_then_down(v: CountView, day: int)
    requires
        v.value_at(day) < u32::MAX,
    ensures
        v.after(day, TrackEvent::Increment).after(day, TrackEvent::Decrement).value_at(day)
            == v.value_at(day),
        v.value_at(day) > 0 || !v.stats.contains_key(day) ==> v.after(
            day,
            TrackEvent::Increment,
        ).after(day, TrackEvent::Decrement) == v,
{
    let there = v.after(day, TrackEvent::Increment);
    let back = there.after(day, TrackEvent::Decrement);
    if v.value_at(day) > 0 || !v.stats.contains_key(day) {
        assert(back.stats =~= v.stats);
    }
}

/// At the floor a step down changes no count: a day that counts zero counts
/// zero after it, a day without an entry leaves the habit as it was, and a
/// second step down changes nothing more.
pub proof fn lemma_count_down_at_floor(v: CountView, day: int)
    requires
        v.value_at(day) == 0,
    ensures
        v.after(day, TrackEvent::Decrement).value_at(day) == 0,
        !v.stats.contains_key(day) ==> v.after(day, TrackEvent::Decrement) == v,
        v.after(day, TrackEvent::Decrement).after(day, TrackEvent::Decrement) == v.after(
            day,
            TrackEvent::Decrement,
        ),
{
    let down = v.after(day, TrackEvent::Decrement);
    if !v.stats.contains_key(day) {
        assert(down.stats =~= v.stats);
    }
    assert(down.after(day, TrackEvent::Decrement).stats =~= down.stats);
}

/// Written down and read back, a habit is what it was but for its view,
/// which starts anew: the name, the goal, the ledger and the auto flag are
/// kept, in whatever order the entries were written.
pub proof fn lemma_count_survives_writing(v: CountView, entries: Seq<(Date, u32)>, today: Date)
    requires
        lists(entries, v.stats),
    ensures
        (CountView {
            name: v.name,
            stats: ledger_of(entries),
            goal: v.goal,
            auto: v.auto,
            inner_data: InnerData::starting(today),
        }) == (CountView { inner_data: InnerData::starting(today), ..v }),
{
    lemma_ledger_of_listing(entries, v.stats);
}

} // verus!
