//! Habits measured by a fractional quantity, kept in fixed point.

use crate::command::GoalKind;
use crate::date::Date;
use crate::habit::prelude::TrackEvent;
use crate::habit::traits::Habit;
use crate::habit::wrapper::HabitWrapperView;
use crate::habit::InnerData;
use crate::ledger::{ledger_of, lemma_ledger_of_listing, lists, Ledger};
use crate::text::{centered, centered_string, decimal, decimal_string};
use vstd::prelude::*;
use vstd::string::StringExecFns;

verus! {

/// A fixed-point quantity: an integer magnitude and the number of decimals
/// it is read with.
///
/// Quantities are ordered by magnitude first and by number of decimals
/// second.
#[derive(Clone, Copy, Debug, PartialEq, Eq, PartialOrd, Ord)]
pub struct FloatData {
    pub value: u32,
    pub precision: u8,
}

impl FloatData {
    /// Whether `self` comes at or after `other` in the order of quantities.
    pub open spec fn at_least(self, other: FloatData) -> bool {
        self.value > other.value || (self.value == other.value && self.precision
            >= other.precision)
    }

    /// `self` raised by `v` units of its last decimal.
    pub fn add(self, v: u32) -> (r: FloatData)
        requires
            self.value + v <= u32::MAX,
        ensures
            r == (FloatData { value: (self.value + v) as u32, precision: self.precision }),
    {
        self + FloatData { value: v, precision: self.precision }
    }

    /// `self` lowered by `v` units of its last decimal, stopping at zero.
    pub fn sub(self, v: u32) -> (r: FloatData)
        ensures
            r.precision == self.precision,
            r.value == if self.value >= v {
                self.value - v
            } else {
                0
            },
    {
        self - FloatData { value: v, precision: self.precision }
    }

    /// The quantity zero, without decimals.
    pub fn zero() -> (r: FloatData)
        ensures
            r == (FloatData { value: 0, precision: 0 }),
    {
        FloatData { value: 0, precision: 0 }
    }

    /// The quantity as a cell of a view shows it: the magnitude is cut at
    /// ten times the number of decimals into a part before the point and a
    /// part after it, a part that is zero is left out, and the text is
    /// centred in three columns.
    pub open spec fn text(self) -> Seq<char> {
        let unit = 10 * self.precision;
        let characteristic = (self.value / unit as u32) as nat;
        let mantissa = (self.value % unit as u32) as nat;
        centered(
            if characteristic == 0 {
                "."@ + decimal(mantissa)
            } else if mantissa == 0 {
                decimal(characteristic)
            } else {
                decimal(characteristic) + "."@ + decimal(mantissa)
            },
            3,
        )
    }

    /// The quantity as a cell of a view shows it.
    pub fn to_string(&self) -> (s: String)
        requires
            self.precision > 0,
        ensures
            s@ == self.text(),
    {
        let unit: u32 = 10 * self.precision as u32;
        let characteristic = self.value / unit;
        let mantissa = self.value % unit;
        let text = if characteristic == 0 {
            let mut t = String::from_str(".");
            t.append(decimal_string(mantissa as u128).as_str());
            t
        } else if mantissa == 0 {
            decimal_string(characteristic as u128)
        } else {
            let mut t = decimal_string(characteristic as u128);
            t.append(".");
            t.append(decimal_string(mantissa as u128).as_str());
            t
        };
        centered_string(text.as_str(), 3)
    }

    /// Whether `self` comes at or after `other` in the order of quantities.
    pub fn is_at_least(&self, other: &FloatData) -> (b: bool)
        ensures
            b == self.at_least(*other),
    {
        self.value > other.value || (self.value == other.value && self.precision
            >= other.precision)
    }
}

impl core::ops::Add for FloatData {
    type Output = FloatData;

    /// The sum of the magnitudes, with the decimals of the left side.
    fn add(self, other: FloatData) -> (r: FloatData) {
        FloatData { value: self.value + other.value, precision: self.precision }
    }
}

impl vstd::std_specs::ops::AddSpecImpl for FloatData {
    open spec fn obeys_add_spec() -> bool {
        true
    }

    open spec fn add_req(self, other: FloatData) -> bool {
        self.value + other.value <= u32::MAX
    }

    open spec fn add_spec(self, other: FloatData) -> FloatData {
        FloatData { value: (self.value + other.value) as u32, precision: self.precision }
    }
}

impl core::ops::Sub for FloatData {
    type Output = FloatData;

    /// The difference of the magnitudes, zero where the right side is the
    /// larger, with the decimals of the left side.
    fn sub(self, other: FloatData) -> (r: FloatData) {
        FloatData { value: self.value.saturating_sub(other.value), precision: self.precision }
    }
}

impl vstd::std_specs::ops::SubSpecImpl for FloatData {
    open spec fn obeys_sub_spec() -> bool {
        true
    }

    open spec fn sub_req(self, other: FloatData) -> bool {
        true
    }

    open spec fn sub_spec(self, other: FloatData) -> FloatData {
        FloatData {
            value: if self.value >= other.value {
                (self.value - other.value) as u32
            } else {
                0
            },
            precision: self.precision,
        }
    }
}

/// A habit that is done when a day's quantity reaches the goal.
#[derive(Debug)]
pub struct Float {
    name: String,
    stats: Ledger<FloatData>,
    goal: FloatData,
    precision: u8,
    auto: bool,
    inner_data: InnerData,
}

/// A float habit as a value: its name, ledger by day number, goal, the
/// number of decimals new entries get, auto flag and view state.
pub struct FloatView {
    pub name: Seq<char>,
    pub stats: Map<int, FloatData>,
    pub goal: FloatData,
    pub precision: u8,
    pub auto: bool,
    pub inner_data: InnerData,
}

impl FloatView {
    /// The magnitude of a day's quantity; a day without an entry has zero.
    pub open spec fn value_at(self, day: int) -> nat {
        if self.stats.contains_key(day) {
            self.stats[day].value as nat
        } else {
            0
        }
    }

    /// A day reaches the goal when it has an entry at or after the goal in
    /// the order of quantities.
    pub open spec fn reached_goal(self, day: int) -> bool {
        self.stats.contains_key(day) && self.stats[day].at_least(self.goal)
    }

    /// What a day still owes, in units of the last decimal: nothing once the
    /// goal is reached, else the goal's magnitude less the day's, and never
    /// less than nothing.
    pub open spec fn remaining(self, day: int) -> nat {
        if self.reached_goal(day) || self.value_at(day) >= self.goal.value {
            0
        } else {
            (self.goal.value - self.value_at(day)) as nat
        }
    }

    /// The habit after one step of progress on a day.
    ///
    /// An increment adds one unit of the last decimal, starting an entry at
    /// one unit with the habit's number of decimals, and leaves a magnitude
    /// of `u32::MAX` as it is. A decrement takes one unit off; it leaves no
    /// zero behind but removes the entry, and does nothing to a day without
    /// one.
    pub open spec fn after(self, day: int, event: TrackEvent) -> FloatView {
        let stats = match event {
            TrackEvent::Increment => if !self.stats.contains_key(day) {
                self.stats.insert(day, FloatData { value: 1, precision: self.precision })
            } else if self.stats[day].value < u32::MAX {
                self.stats.insert(
                    day,
                    FloatData {
                        value: (self.stats[day].value + 1) as u32,
                        precision: self.stats[day].precision,
                    },
                )
            } else {
                self.stats
            },
            TrackEvent::Decrement => if self.value_at(day) >= 2 {
                self.stats.insert(
                    day,
                    FloatData {
                        value: (self.stats[day].value - 1) as u32,
                        precision: self.stats[day].precision,
                    },
                )
            } else {
                self.stats.remove(day)
            },
        };
        FloatView { stats, ..self }
    }
}

impl View for Float {
    type V = FloatView;

    closed spec fn view(&self) -> FloatView {
        FloatView {
            name: self.name@,
            stats: self.stats@,
            goal: self.goal,
            precision: self.precision,
            auto: self.auto,
            inner_data: self.inner_data,
        }
    }
}

impl Float {
    /// A habit without entries, its view in day mode on the current date.
    pub fn new(name: &str, goal: u32, precision: u8, auto: bool) -> (f: Float)
        ensures
            f@.name == name@,
            f@.stats == Map::<int, FloatData>::empty(),
            f@.goal == (FloatData { value: goal, precision }),
            f@.precision == precision,
            f@.auto == auto,
            f@.inner_data.view_mode == crate::habit::ViewMode::Day,
    {
        Float {
            name: name.to_owned(),
            stats: Ledger::new(),
            goal: FloatData { value: goal, precision },
            precision,
            auto,
            inner_data: InnerData::new(),
        }
    }

    /// A habit without entries, its view in day mode on `today`.
    pub fn new_at(name: &str, goal: u32, precision: u8, auto: bool, today: Date) -> (f: Float)
        ensures
            f@ == (FloatView {
                name: name@,
                stats: Map::empty(),
                goal: FloatData { value: goal, precision },
                precision,
                auto,
                inner_data: InnerData::starting(today),
            }),
    {
        Float {
            name: name.to_owned(),
            stats: Ledger::new(),
            goal: FloatData { value: goal, precision },
            precision,
            auto,
            inner_data: InnerData::new_at(today),
        }
    }
}

impl Float {
    /// The goal as a quantity.
    pub fn goal_data(&self) -> (g: FloatData)
        ensures
            g == self@.goal,
    {
        self.goal
    }

    /// The number of decimals that the entries made by a first step up get.
    pub fn precision(&self) -> (p: u8)
        ensures
            p == self@.precision,
    {
        self.precision
    }

    /// All entries of the ledger, each date once, in no particular order.
    pub fn entries(&self) -> (out: Vec<(Date, FloatData)>)
        ensures
            lists(out@, self@.stats),
            out.len() == self@.stats.len(),
            forall|i: int, j: int|
                0 <= i < j < out.len() ==> (#[trigger] out[i]).0@ != (#[trigger] out[j]).0@,
    {
        self.stats.entries()
    }

    /// A habit read back from what was written of it: its ledger is the one
    /// that `entries` writes, its view starts in day mode on the current
    /// date.
    pub fn restore(name: &str, goal: FloatData, precision: u8, auto: bool, entries: &Vec<(Date, FloatData)>) -> (c: Float)
        ensures
            c@.name == name@,
            c@.stats == ledger_of(entries@),
            c@.goal == goal,
            c@.precision == precision,
            c@.auto == auto,
            c@.inner_data.view_mode == crate::habit::ViewMode::Day,
    {
        Float::restore_at(name, goal, precision, auto, entries, crate::date::today())
    }

    /// A habit read back from what was written of it: its ledger is the one
    /// that `entries` writes, its view starts in day mode on `today`.
    pub fn restore_at(name: &str, goal: FloatData, precision: u8, auto: bool, entries: &Vec<(Date, FloatData)>, today: Date) -> (c: Float)
        ensures
            c@ == (FloatView {
                name: name@,
                stats: ledger_of(entries@),
                goal,
                precision,
                auto,
                inner_data: InnerData::starting(today),
            }),
    {
        Float {
            name: name.to_owned(),
            stats: Ledger::from_entries(entries),
            goal,
            precision,
            auto,
            inner_data: InnerData::new_at(today),
        }
    }
}

impl Habit for Float {
    type HabitType = FloatData;

    open spec fn as_wrapper(&self) -> HabitWrapperView {
        HabitWrapperView::Float(self@)
    }

    open spec fn entry(&self, day: int) -> Option<FloatData> {
        if self@.stats.contains_key(day) {
            Some(self@.stats[day])
        } else {
            None
        }
    }

    open spec fn kind_for(goal: FloatData) -> GoalKind {
        GoalKind::Float(goal.value, goal.precision)
    }

    fn name(&self) -> (r: String)
        ensures
            r@ == self@.name,
    {
        self.name.clone()
    }

    fn set_name(&mut self, n: &str)
        ensures
            final(self)@ == (FloatView { name: n@, ..old(self)@ }),
    {
        self.name = n.to_owned();
    }

    fn kind(&self) -> (k: GoalKind)
        ensures
            k == GoalKind::Float(self@.goal.value, self@.goal.precision),
    {
        GoalKind::Float(self.goal.value, self.goal.precision)
    }

    fn set_goal(&mut self, g: FloatData)
        ensures
            final(self)@ == (FloatView { goal: g, ..old(self)@ }),
    {
        self.goal = g;
    }

    fn get_by_date(&self, date: Date) -> (r: Option<&FloatData>)
        ensures
            r is Some <==> self@.stats.contains_key(date@),
            r matches Some(v) ==> *v == self@.stats[date@],
    {
        self.stats.get(date)
    }

    fn insert_entry(&mut self, date: Date, val: FloatData)
        ensures
            final(self)@ == (FloatView { stats: old(self)@.stats.insert(date@, val), ..old(self)@ }),
    {
        self.stats.insert(date, val);
    }

    fn reached_goal(&self, date: Date) -> (b: bool)
        ensures
            b == self@.reached_goal(date@),
    {
        match self.stats.get(date) {
            Some(val) => val.is_at_least(&self.goal),
            None => false,
        }
    }

    fn remaining(&self, date: Date) -> (r: u32)
        ensures
            r == self@.remaining(date@),
    {
        match self.stats.get(date) {
            Some(val) => if val.is_at_least(&self.goal) {
                0
            } else {
                self.goal.sub(val.value).value
            },
            None => self.goal.value,
        }
    }

    fn goal(&self) -> (g: u32)
        ensures
            g == self@.goal.value,
    {
        self.goal.value
    }

    fn modify(&mut self, date: Date, event: TrackEvent)
        ensures
            final(self)@ == old(self)@.after(date@, event),
    {
        let current: Option<FloatData> = match self.stats.get(date) {
            Some(val) => Some(*val),
            None => None,
        };
        match event {
            TrackEvent::Increment => match current {
                Some(val) => if val.value < u32::MAX {
                    self.stats.insert(date, val.add(1));
                },
                None => {
                    self.stats.insert(date, FloatData { value: 1, precision: self.precision });
                },
            },
            TrackEvent::Decrement => match current {
                Some(val) => if val.value >= 2 {
                    self.stats.insert(date, val.sub(1));
                } else {
                    self.stats.remove(date);
                },
                None => {},
            },
        }
        assert(self@.stats =~= old(self)@.after(date@, event).stats);
    }

    fn inner_data_ref(&self) -> (r: &InnerData)
        ensures
            *r == self@.inner_data,
    {
        &self.inner_data
    }

    fn inner_data_mut_ref(&mut self) -> (r: &mut InnerData)
        ensures
            *r == old(self)@.inner_data,
            final(self)@ == (FloatView { inner_data: *final(r), ..old(self)@ }),
    {
        &mut self.inner_data
    }

    fn is_auto(&self) -> (b: bool)
        ensures
            b == self@.auto,
    {
        self.auto
    }
}

/// A step up followed by a step down on the same day gives the day its
/// magnitude back, and where the day had a magnitude above zero, or no
/// entry, the whole habit is as before. A magnitude of `u32::MAX`, which
/// cannot step up, is left out.
pub proof fn lemma_float_up_then_down(v: FloatView, day: int)
    requires
        v.value_at(day) < u32::MAX,
    ensures
        v.after(day, TrackEvent::Increment).after(day, TrackEvent::Decrement).value_at(day)
            == v.value_at(day),
        v.value_at(day) > 0 || !v.stats.contains_key(day) ==> v.after(
            day,
            TrackEvent::Increment,
        ).after(day, TrackEvent::Decrement) == v,
{
    let there = v.after(day, TrackEvent::Increment);
    let back = there.after(day, TrackEvent::Decrement);
    if v.value_at(day) > 0 || !v.stats.contains_key(day) {
        assert(back.stats =~= v.stats);
    }
}

/// At the floor a step down changes no magnitude: a day of magnitude zero
/// has magnitude zero after it, a day without an entry leaves the habit as
/// it was, and a second step down changes nothing more.
pub proof fn lemma_float_down_at_floor(v: FloatView, day: int)
    requires
        v.value_at(day) == 0,
    ensures
        v.after(day, TrackEvent::Decrement).value_at(day) == 0,
        !v.stats.contains_key(day) ==> v.after(day, TrackEvent::Decrement) == v,
        v.after(day, TrackEvent::Decrement).after(day, TrackEvent::Decrement) == v.after(
            day,
            TrackEvent::Decrement,
        ),
{
    let down = v.after(day, TrackEvent::Decrement);
    if !v.stats.contains_key(day) {
        assert(down.stats =~= v.stats);
    }
    assert(down.after(day, TrackEvent::Decrement).stats =~= down.stats);
}

/// Written down and read back, a habit is what it was but for its view,
/// which starts anew: the name, the goal, the ledger and the auto flag are
/// kept, in whatever order the entries were written.
pub proof fn lemma_float_survives_writing(v: FloatView, entries: Seq<(Date, FloatData)>, today: Date)
    requires
        lists(entries, v.stats),
    ensures
        (FloatView {
            name: v.name,
            stats: ledger_of(entries),
            goal: v.goal,
            precision: v.precision,
            auto: v.auto,
            inner_data: InnerData::starting(today),
        }) == (FloatView { inner_data: InnerData::starting(today), ..v }),
{
    lemma_ledger_of_listing(entries, v.stats);
}

} // verus!
