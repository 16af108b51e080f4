//! Habits that are either done on a day or not.

use crate::command::GoalKind;
use crate::date::Date;
use crate::habit::prelude::TrackEvent;
use crate::habit::traits::Habit;
use crate::habit::wrapper::HabitWrapperView;
use crate::habit::InnerData;
use crate::ledger::{ledger_of, lemma_ledger_of_listing, lists, Ledger};
use vstd::prelude::*;
use vstd::std_specs::convert::FromSpecImpl;

verus! {

/// A ledger value of a [`Bit`] habit: done or not done.
#[derive(Clone, Copy, Debug, PartialEq, Eq, Structural)]
pub struct CustomBool(pub bool);

impl From<bool> for CustomBool {
    fn from(b: bool) -> (r: CustomBool) {
        CustomBool(b)
    }
}

impl FromSpecImpl<bool> for CustomBool {
    open spec fn obeys_from_spec() -> bool {
        true
    }

    open spec fn from_spec(b: bool) -> CustomBool {
        CustomBool(b)
    }
}

/// A habit whose goal is simply to have done it.
#[derive(Debug)]
pub struct Bit {
    name: String,
    stats: Ledger<CustomBool>,
    auto: bool,
    inner_data: InnerData,
}

/// A bit habit as a value: its name, ledger by day number, auto flag and
/// view state. Its goal is always "done".
pub struct BitView {
    pub name: Seq<char>,
    pub stats: Map<int, CustomBool>,
    pub auto: bool,
    pub inner_data: InnerData,
}

impl BitView {
    /// Whether a day is marked done; a day without an entry is not.
    pub open spec fn done_at(self, day: int) -> bool {
        self.stats.contains_key(day) && self.stats[day].0
    }

    /// A day reaches the goal when it is marked done.
    pub open spec fn reached_goal(self, day: int) -> bool {
        self.done_at(day)
    }

    /// What a day still owes: nothing when done, else one.
    pub open spec fn remaining(self, day: int) -> nat {
        if self.done_at(day) {
            0
        } else {
            1
        }
    }

    /// The habit after one step on a day: the day's mark flips, whichever way
    /// the step points, and a day without an entry becomes done.
    pub open spec fn after(self, day: int, event: TrackEvent) -> BitView {
        BitView { stats: self.stats.insert(day, CustomBool(!self.done_at(day))), ..self }
    }
}

impl View for Bit {
    type V = BitView;

    closed spec fn view(&self) -> BitView {
        BitView {
            name: self.name@,
            stats: self.stats@,
            auto: self.auto,
            inner_data: self.inner_data,
        }
    }
}

impl Bit {
    /// A habit without entries, its view in day mode on the current date.
    pub fn new(name: &str, auto: bool) -> (b: Bit)
        ensures
            b@.name == name@,
            b@.stats == Map::<int, CustomBool>::empty(),
            b@.auto == auto,
            b@.inner_data.view_mode == crate::habit::ViewMode::Day,
    {
        Bit { name: name.to_owned(), stats: Ledger::new(), auto, inner_data: InnerData::new() }
    }

    /// A habit without entries, its view in day mode on `today`.
    pub fn new_at(name: &str, auto: bool, today: Date) -> (b: Bit)
        ensures
            b@ == (BitView {
                name: name@,
                stats: Map::empty(),
                auto,
                inner_data: InnerData::starting(today),
            }),
    {
        Bit {
            name: name.to_owned(),
            stats: Ledger::new(),
            auto,
            inner_data: InnerData::new_at(today),
        }
    }
}

impl Bit {
    /// All entries of the ledger, each date once, in no particular order.
    pub fn entries(&self) -> (out: Vec<(Date, CustomBool)>)
        ensures
            lists(out@, self@.stats),
            out.len() == self@.stats.len(),
            forall|i: int, j: int|
                0 <= i < j < out.len() ==> (#[trigger] out[i]).0@ != (#[trigger] out[j]).0@,
    {
        self.stats.entries()
    }

    /// A habit read back from what was written of it: its ledger is the one
    /// that `entries` writes, its view starts in day mode on the current
    /// date.
    pub fn restore(name: &str, auto: bool, entries: &Vec<(Date, CustomBool)>) -> (c: Bit)
        ensures
            c@.name == name@,
            c@.stats == ledger_of(entries@),
            c@.auto == auto,
            c@.inner_data.view_mode == crate::habit::ViewMode::Day,
    {
        Bit::restore_at(name, auto, entries, crate::date::today())
    }

    /// A habit read back from what was written of it: its ledger is the one
    /// that `entries` writes, its view starts in day mode on `today`.
    pub fn restore_at(name: &str, auto: bool, entries: &Vec<(Date, CustomBool)>, today: Date) -> (c: Bit)
        ensures
            c@ == (BitView {
                name: name@,
                stats: ledger_of(entries@),
                auto,
                inner_data: InnerData::starting(today),
            }),
    {
        Bit {
            name: name.to_owned(),
            stats: Ledger::from_entries(entries),
            auto,
            inner_data: InnerData::new_at(today),
        }
    }
}

impl Habit for Bit {
    type HabitType = CustomBool;

    open spec fn as_wrapper(&self) -> HabitWrapperView {
        HabitWrapperView::Bit(self@)
    }

    open spec fn entry(&self, day: int) -> Option<CustomBool> {
        if self@.stats.contains_key(day) {
            Some(self@.stats[day])
        } else {
            None
        }
    }

    open spec fn kind_for(goal: CustomBool) -> GoalKind {
        GoalKind::Bit
    }

    fn name(&self) -> (r: String)
        ensures
            r@ == self@.name,
    {
        self.name.clone()
    }

    fn set_name(&mut self, n: &str)
        ensures
            final(self)@ == (BitView { name: n@, ..old(self)@ }),
    {
        self.name = n.to_owned();
    }

    fn kind(&self) -> (k: GoalKind)
        ensures
            k == GoalKind::Bit,
    {
        GoalKind::Bit
    }

    /// The goal of a bit habit is fixed: whatever is asked for, it stays
    /// "done".
    fn set_goal(&mut self, g: CustomBool)
        ensures
            final(self)@ == old(self)@,
    {
    }

    fn get_by_date(&self, date: Date) -> (r: Option<&CustomBool>)
        ensures
            r is Some <==> self@.stats.contains_key(date@),
            r matches Some(v) ==> *v == self@.stats[date@],
    {
        self.stats.get(date)
    }

    fn insert_entry(&mut self, date: Date, val: CustomBool)
        ensures
            final(self)@ == (BitView { stats: old(self)@.stats.insert(date@, val), ..old(self)@ }),
    {
        self.stats.insert(date, val);
    }

    fn reached_goal(&self, date: Date) -> (b: bool)
        ensures
            b == self@.reached_goal(date@),
    {
        match self.stats.get(date) {
            Some(val) => val.0,
            None => false,
        }
    }

    fn remaining(&self, date: Date) -> (r: u32)
        ensures
            r == self@.remaining(date@),
    {
        match self.stats.get(date) {
            Some(val) => if val.0 {
                0
            } else {
                1
            },
            None => 1,
        }
    }

    fn goal(&self) -> (g: u32)
        ensures
            g == 1,
    {
        1
    }

    fn modify(&mut self, date: Date, event: TrackEvent)
        ensures
            final(self)@ == old(self)@.after(date@, event),
    {
        let done = match self.stats.get(date) {
            Some(val) => val.0,
            None => false,
        };
        self.stats.insert(date, CustomBool(!done));
    }

    fn inner_data_ref(&self) -> (r: &InnerData)
        ensures
            *r == self@.inner_data,
    {
        &self.inner_data
    }

    fn inner_data_mut_ref(&mut self) -> (r: &mut InnerData)
        ensures
            *r == old(self)@.inner_data,
            final(self)@ == (BitView { inner_data: *final(r), ..old(self)@ }),
    {
        &mut self.inner_data
    }

    fn is_auto(&self) -> (b: bool)
        ensures
            b == self@.auto,
    {
        self.auto
    }
}

/// Two steps on the same day, whichever way they point, leave the day
/// marked as it was.
pub proof fn lemma_bit_two_steps_restore(v: BitView, day: int, first: TrackEvent, second: TrackEvent)
    ensures
        v.after(day, first).after(day, second).done_at(day) == v.done_at(day),
        v.stats.contains_key(day) ==> v.after(day, first).after(day, second) == v,
{
    let twice = v.after(day, first).after(day, second);
    if v.stats.contains_key(day) {
        assert(twice.stats =~= v.stats);
    }
}

/// Written down and read back, a habit is what it was but for its view,
/// which starts anew: the name, the goal, the ledger and the auto flag are
/// kept, in whatever order the entries were written.
pub proof fn lemma_bit_survives_writing(v: BitView, entries: Seq<(Date, CustomBool)>, today: Date)
    requires
        lists(entries, v.stats),
    ensures
        (BitView {
            name: v.name,
            stats: ledger_of(entries),
            auto: v.auto,
            inner_data: InnerData::starting(today),
        }) == (BitView { inner_data: InnerData::starting(today), ..v }),
{
    lemma_ledger_of_listing(entries, v.stats);
}

} // verus!
