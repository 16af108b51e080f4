//! Any habit, whatever its kind.

use crate::command::GoalKind;
use crate::date::{today, Date, MAX_DAYS, MIN_DAYS};
use crate::event::{Event, EventResult, Key};
use crate::habit::bit::{Bit, BitView};
use crate::habit::count::{Count, CountView};
use crate::habit::float::{Float, FloatView};
use crate::habit::prelude::TrackEvent;
use crate::habit::traits::Habit;
use crate::habit::InnerData;
use crate::utils::VIEW_WIDTH;
use vstd::prelude::*;

verus! {

/// A habit of one of the three kinds, as the registry holds it.
#[derive(Debug)]
pub enum HabitWrapper {
    Count(Count),
    Bit(Bit),
    Float(Float),
}

/// The width of a progress bar, in cells.
pub const BAR_WIDTH: usize = VIEW_WIDTH - 8;

/// The progress of a habit over a run of days.
#[derive(Clone, Copy, Debug, PartialEq, Eq)]
pub struct Progress {
    /// The goal of all the days together.
    pub goal: u128,
    /// What the days together still owe.
    pub remaining: u128,
    /// How many cells of a progress bar are filled.
    pub bars: u128,
}

/// The day numbers of a list of dates.
pub open spec fn day_numbers(days: Seq<Date>) -> Seq<int> {
    days.map_values(|d: Date| d@)
}

/// A habit of any kind as a value.
pub enum HabitWrapperView {
    Count(CountView),
    Bit(BitView),
    Float(FloatView),
}

impl HabitWrapperView {
    pub open spec fn name(self) -> Seq<char> {
        match self {
            HabitWrapperView::Count(c) => c.name,
            HabitWrapperView::Bit(b) => b.name,
            HabitWrapperView::Float(f) => f.name,
        }
    }

    /// The magnitude of the goal; a bit habit's is one.
    pub open spec fn goal(self) -> nat {
        match self {
            HabitWrapperView::Count(c) => c.goal as nat,
            HabitWrapperView::Bit(b) => 1,
            HabitWrapperView::Float(f) => f.goal.value as nat,
        }
    }

    pub open spec fn kind(self) -> GoalKind {
        match self {
            HabitWrapperView::Count(c) => GoalKind::Count(c.goal),
            HabitWrapperView::Bit(b) => GoalKind::Bit,
            HabitWrapperView::Float(f) => GoalKind::Float(f.goal.value, f.goal.precision),
        }
    }

    pub open spec fn is_auto(self) -> bool {
        match self {
            HabitWrapperView::Count(c) => c.auto,
            HabitWrapperView::Bit(b) => b.auto,
            HabitWrapperView::Float(f) => f.auto,
        }
    }

    pub open spec fn inner_data(self) -> InnerData {
        match self {
            HabitWrapperView::Count(c) => c.inner_data,
            HabitWrapperView::Bit(b) => b.inner_data,
            HabitWrapperView::Float(f) => f.inner_data,
        }
    }

    /// The same habit under another name.
    pub open spec fn with_name(self, name: Seq<char>) -> HabitWrapperView {
        match self {
            HabitWrapperView::Count(c) => HabitWrapperView::Count(CountView { name, ..c }),
            HabitWrapperView::Bit(b) => HabitWrapperView::Bit(BitView { name, ..b }),
            HabitWrapperView::Float(f) => HabitWrapperView::Float(FloatView { name, ..f }),
        }
    }

    /// The same habit with other view state.
    pub open spec fn with_inner_data(self, inner_data: InnerData) -> HabitWrapperView {
        match self {
            HabitWrapperView::Count(c) => HabitWrapperView::Count(CountView { inner_data, ..c }),
            HabitWrapperView::Bit(b) => HabitWrapperView::Bit(BitView { inner_data, ..b }),
            HabitWrapperView::Float(f) => HabitWrapperView::Float(FloatView { inner_data, ..f }),
        }
    }

    /// Whether the ledger has an entry for a day.
    pub open spec fn has_entry(self, day: int) -> bool {
        match self {
            HabitWrapperView::Count(c) => c.stats.contains_key(day),
            HabitWrapperView::Bit(b) => b.stats.contains_key(day),
            HabitWrapperView::Float(f) => f.stats.contains_key(day),
        }
    }

    pub open spec fn reached_goal(self, day: int) -> bool {
        match self {
            HabitWrapperView::Count(c) => c.reached_goal(day),
            HabitWrapperView::Bit(b) => b.reached_goal(day),
            HabitWrapperView::Float(f) => f.reached_goal(day),
        }
    }

    pub open spec fn remaining(self, day: int) -> nat {
        match self {
            HabitWrapperView::Count(c) => c.remaining(day),
            HabitWrapperView::Bit(b) => b.remaining(day),
            HabitWrapperView::Float(f) => f.remaining(day),
        }
    }

    /// The habit after one step of progress on a day.
    pub open spec fn after(self, day: int, event: TrackEvent) -> HabitWrapperView {
        match self {
            HabitWrapperView::Count(c) => HabitWrapperView::Count(c.after(day, event)),
            HabitWrapperView::Bit(b) => HabitWrapperView::Bit(b.after(day, event)),
            HabitWrapperView::Float(f) => HabitWrapperView::Float(f.after(day, event)),
        }
    }

    /// What a run of days still owes together.
    pub open spec fn remaining_over(self, days: Seq<int>) -> nat
        decreases days.len(),
    {
        if days.len() == 0 {
            0
        } else {
            self.remaining_over(days.drop_last()) + self.remaining(days.last())
        }
    }

    /// The goal of a run of days together.
    pub open spec fn goal_over(self, days: Seq<int>) -> nat {
        self.goal() * days.len()
    }

    /// How many cells of a progress bar the days fill: the share that is
    /// done of the goal, in cells of a bar `BAR_WIDTH` wide, rounded down; an
    /// empty bar where there is no goal.
    pub open spec fn bars_over(self, days: Seq<int>) -> nat {
        if self.goal_over(days) > 0 {
            ((self.goal_over(days) - self.remaining_over(days)) * BAR_WIDTH / (self.goal_over(
                days,
            ) as int)) as nat
        } else {
            0
        }
    }

    /// The step of progress that an input event asks of a habit that takes
    /// direct input.
    pub open spec fn step_of(e: Event) -> Option<TrackEvent> {
        if e == Event::Key(Key::Enter) || e == Event::Char('n') {
            Some(TrackEvent::Increment)
        } else if e == Event::Key(Key::Backspace) || e == Event::Char('p') {
            Some(TrackEvent::Decrement)
        } else {
            None
        }
    }

    /// The habit after an input event on the day `today`.
    ///
    /// Enter and `n` step today's progress up, Backspace and `p` step it
    /// down. A habit driven from outside ignores all input.
    pub open spec fn after_event(self, e: Event, today: int) -> HabitWrapperView {
        match Self::step_of(e) {
            Some(step) if !self.is_auto() => self.after(today, step),
            _ => self,
        }
    }

    /// Whether an input event is acted on.
    pub open spec fn takes_event(self, e: Event) -> bool {
        !self.is_auto() && Self::step_of(e) is Some
    }
}

impl View for HabitWrapper {
    type V = HabitWrapperView;

    open spec fn view(&self) -> HabitWrapperView {
        match self {
            HabitWrapper::Count(c) => HabitWrapperView::Count(c@),
            HabitWrapper::Bit(b) => HabitWrapperView::Bit(b@),
            HabitWrapper::Float(f) => HabitWrapperView::Float(f@),
        }
    }
}

impl HabitWrapper {
    pub fn goal(&self) -> (g: u32)
        ensures
            g == self@.goal(),
    {
        match self {
            HabitWrapper::Count(c) => c.goal(),
            HabitWrapper::Bit(b) => b.goal(),
            HabitWrapper::Float(f) => f.goal(),
        }
    }

    pub fn kind(&self) -> (k: GoalKind)
        ensures
            k == self@.kind(),
    {
        match self {
            HabitWrapper::Count(c) => c.kind(),
            HabitWrapper::Bit(b) => b.kind(),
            HabitWrapper::Float(f) => f.kind(),
        }
    }

    pub fn modify(&mut self, date: Date, event: TrackEvent)
        ensures
            final(self)@ == old(self)@.after(date@, event),
    {
        match self {
            HabitWrapper::Count(c) => c.modify(date, event),
            HabitWrapper::Bit(b) => b.modify(date, event),
            HabitWrapper::Float(f) => f.modify(date, event),
        }
    }

    pub fn name(&self) -> (r: String)
        ensures
            r@ == self@.name(),
    {
        match self {
            HabitWrapper::Count(c) => c.name(),
            HabitWrapper::Bit(b) => b.name(),
            HabitWrapper::Float(f) => f.name(),
        }
    }

    pub fn reached_goal(&self, date: Date) -> (b: bool)
        ensures
            b == self@.reached_goal(date@),
    {
        match self {
            HabitWrapper::Count(c) => c.reached_goal(date),
            HabitWrapper::Bit(b) => b.reached_goal(date),
            HabitWrapper::Float(f) => f.reached_goal(date),
        }
    }

    pub fn remaining(&self, date: Date) -> (r: u32)
        ensures
            r == self@.remaining(date@),
    {
        match self {
            HabitWrapper::Count(c) => c.remaining(date),
            HabitWrapper::Bit(b) => b.remaining(date),
            HabitWrapper::Float(f) => f.remaining(date),
        }
    }

    pub fn inner_data_ref(&self) -> (r: &InnerData)
        ensures
            *r == self@.inner_data(),
    {
        match self {
            HabitWrapper::Count(c) => c.inner_data_ref(),
            HabitWrapper::Bit(b) => b.inner_data_ref(),
            HabitWrapper::Float(f) => f.inner_data_ref(),
        }
    }

    pub fn inner_data_mut_ref(&mut self) -> (r: &mut InnerData)
        ensures
            *r == old(self)@.inner_data(),
            final(self)@ == old(self)@.with_inner_data(*final(r)),
    {
        match self {
            HabitWrapper::Count(c) => c.inner_data_mut_ref(),
            HabitWrapper::Bit(b) => b.inner_data_mut_ref(),
            HabitWrapper::Float(f) => f.inner_data_mut_ref(),
        }
    }

    pub fn is_auto(&self) -> (b: bool)
        ensures
            b == self@.is_auto(),
    {
        match self {
            HabitWrapper::Count(c) => c.is_auto(),
            HabitWrapper::Bit(b) => b.is_auto(),
            HabitWrapper::Float(f) => f.is_auto(),
        }
    }

    /// The progress over a run of days, a week for one.
    pub fn progress_over(&self, days: &[Date]) -> (p: Progress)
        ensures
            p.goal == self@.goal_over(day_numbers(days@)),
            p.remaining == self@.remaining_over(day_numbers(days@)),
            p.bars == self@.bars_over(day_numbers(days@)),
            p.remaining <= p.goal,
            p.bars <= BAR_WIDTH,
    {
        let goal = self.goal() as u128;
        let ghost numbers = day_numbers(days@);
        let mut total: u128 = 0;
        let mut remaining: u128 = 0;
        let mut i: usize = 0;
        assert(numbers.take(0) =~= Seq::empty());
        while i < days.len()
            invariant
                i <= days.len(),
                numbers == day_numbers(days@),
                goal == self@.goal(),
                goal <= u32::MAX,
                total == goal * i,
                remaining == self@.remaining_over(numbers.take(i as int)),
                remaining <= total,
                total <= 0xffff_ffff * 0xffff_ffff_ffff_ffff,
            decreases days.len() - i,
        {
            assert(numbers.take(i + 1).drop_last() =~= numbers.take(i as int));
            assert(numbers.take(i + 1).last() == days[i as int]@);
            assert(goal * (i + 1) == goal * i + goal) by (nonlinear_arith);
            assert(goal * (i + 1) <= 0xffff_ffff * 0xffff_ffff_ffff_ffff) by (nonlinear_arith)
                requires
                    0 <= goal <= 0xffff_ffff,
                    0 <= i + 1 <= 0xffff_ffff_ffff_ffff,
            ;
            proof {
                lemma_remaining_within_goal(self@, days[i as int]@);
            }
            total = total + goal;
            remaining = remaining + self.remaining(days[i]) as u128;
            i += 1;
        }
        assert(numbers.take(i as int) =~= numbers);
        let bars: u128 = if total > 0 {
            let done = total - remaining;
            assert(done * BAR_WIDTH <= total * BAR_WIDTH) by (nonlinear_arith)
                requires
                    done <= total,
            ;
            assert(total * BAR_WIDTH <= 0xffff_ffff * 0xffff_ffff_ffff_ffff * 17) by (nonlinear_arith)
                requires
                    total <= 0xffff_ffff * 0xffff_ffff_ffff_ffff,
                    BAR_WIDTH == 17,
            ;
            assert((done * BAR_WIDTH) / (total as int) <= BAR_WIDTH) by (nonlinear_arith)
                requires
                    done <= total,
                    total > 0,
                    done >= 0,
            ;
            done * BAR_WIDTH as u128 / total
        } else {
            0
        };
        Progress { goal: total, remaining, bars }
    }

    /// Handles an input event, reading the clock for today.
    pub fn on_event(&mut self, e: Event) -> (r: EventResult)
        ensures
            r == EventResult::Consumed <==> old(self)@.takes_event(e),
            exists|t: int|
                MIN_DAYS <= t <= MAX_DAYS && final(self)@ == #[trigger] old(self)@.after_event(e, t),
    {
        let t = today();
        proof {
            use_type_invariant(&t);
        }
        self.on_event_at(e, t)
    }

    /// Handles an input event, with `today` as the current date.
    pub fn on_event_at(&mut self, e: Event, today: Date) -> (r: EventResult)
        ensures
            r == EventResult::Consumed <==> old(self)@.takes_event(e),
            r == EventResult::Ignored <==> !old(self)@.takes_event(e),
            final(self)@ == old(self)@.after_event(e, today@),
    {
        if self.is_auto() {
            return EventResult::Ignored;
        }
        if e == Event::Key(Key::Enter) || e == Event::Char('n') {
            self.modify(today, TrackEvent::Increment);
            EventResult::Consumed
        } else if e == Event::Key(Key::Backspace) || e == Event::Char('p') {
            self.modify(today, TrackEvent::Decrement);
            EventResult::Consumed
        } else {
            EventResult::Ignored
        }
    }
}

/// No habit owes more than its goal.
pub proof fn lemma_remaining_within_goal(h: HabitWrapperView, day: int)
    ensures
        h.remaining(day) <= h.goal(),
{
}

/// A day without an entry has not reached the goal and owes all of it: the
/// goal of a count or float habit, one for a bit habit.
pub proof fn lemma_untouched_day_owes_goal(h: HabitWrapperView, day: int)
    requires
        !h.has_entry(day),
    ensures
        !h.reached_goal(day),
        h.remaining(day) == h.goal(),
{
}

} // verus!
