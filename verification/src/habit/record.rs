//! What is written of a habit, and what is read back.

use crate::date::{today, Date};
use crate::habit::bit::{Bit, BitView, CustomBool};
use crate::habit::count::{Count, CountView};
use crate::habit::float::{Float, FloatData, FloatView};
use crate::habit::traits::Habit;
use crate::habit::wrapper::{HabitWrapper, HabitWrapperView};
use crate::habit::InnerData;
use crate::ledger::{ledger_of, lemma_ledger_of_listing};
use vstd::prelude::*;

verus! {

/// What is written of a habit: its kind, name, goal, ledger and auto flag.
/// The state of its view is not written.
#[derive(Debug, PartialEq, Eq)]
pub enum HabitRecord {
    Count { name: String, stats: Vec<(Date, u32)>, goal: u32, auto: bool },
    Bit { name: String, stats: Vec<(Date, CustomBool)>, auto: bool },
    Float { name: String, stats: Vec<(Date, FloatData)>, goal: FloatData, precision: u8, auto: bool },
}

/// A record as a value. The ledger is the one that the record's entries
/// write; the order they stand in makes no difference.
pub enum HabitRecordView {
    Count { name: Seq<char>, stats: Map<int, u32>, goal: u32, auto: bool },
    Bit { name: Seq<char>, stats: Map<int, CustomBool>, auto: bool },
    Float {
        name: Seq<char>,
        stats: Map<int, FloatData>,
        goal: FloatData,
        precision: u8,
        auto: bool,
    },
}

impl View for HabitRecord {
    type V = HabitRecordView;

    open spec fn view(&self) -> HabitRecordView {
        match self {
            HabitRecord::Count { name, stats, goal, auto } => HabitRecordView::Count {
                name: name@,
                stats: ledger_of(stats@),
                goal: *goal,
                auto: *auto,
            },
            HabitRecord::Bit { name, stats, auto } => HabitRecordView::Bit {
                name: name@,
                stats: ledger_of(stats@),
                auto: *auto,
            },
            HabitRecord::Float { name, stats, goal, precision, auto } => HabitRecordView::Float {
                name: name@,
                stats: ledger_of(stats@),
                goal: *goal,
                precision: *precision,
                auto: *auto,
            },
        }
    }
}

impl HabitWrapperView {
    /// What is written of the habit: all of it but the state of its view.
    pub open spec fn record(self) -> HabitRecordView {
        match self {
            HabitWrapperView::Count(c) => HabitRecordView::Count {
                name: c.name,
                stats: c.stats,
                goal: c.goal,
                auto: c.auto,
            },
            HabitWrapperView::Bit(b) => HabitRecordView::Bit {
                name: b.name,
                stats: b.stats,
                auto: b.auto,
            },
            HabitWrapperView::Float(f) => HabitRecordView::Float {
                name: f.name,
                stats: f.stats,
                goal: f.goal,
                precision: f.precision,
                auto: f.auto,
            },
        }
    }
}

impl HabitRecordView {
    /// The habit that is read back from the record on the day `today`: what
    /// was written, with a view that starts in day mode on `today`.
    pub open spec fn habit(self, today: Date) -> HabitWrapperView {
        let inner_data = InnerData::starting(today);
        match self {
            HabitRecordView::Count { name, stats, goal, auto } => HabitWrapperView::Count(
                CountView { name, stats, goal, auto, inner_data },
            ),
            HabitRecordView::Bit { name, stats, auto } => HabitWrapperView::Bit(
                BitView { name, stats, auto, inner_data },
            ),
            HabitRecordView::Float { name, stats, goal, precision, auto } => HabitWrapperView::Float(
                FloatView { name, stats, goal, precision, auto, inner_data },
            ),
        }
    }

    /// Whether the record is of a habit driven from outside.
    pub open spec fn is_auto(self) -> bool {
        match self {
            HabitRecordView::Count { auto, .. } => auto,
            HabitRecordView::Bit { auto, .. } => auto,
            HabitRecordView::Float { auto, .. } => auto,
        }
    }
}

/// Written and read back, a habit is what it was but for the state of its
/// view, which is that of a habit new on the day of reading; and a record
/// read and written again is the same record.
pub proof fn lemma_record_round_trip(h: HabitWrapperView, r: HabitRecordView, today: Date)
    ensures
        h.record().habit(today) == h.with_inner_data(InnerData::starting(today)),
        h.record().habit(today).record() == h.record(),
        r.habit(today).record() == r,
        r.habit(today).inner_data() == InnerData::starting(today),
        h.record().is_auto() == h.is_auto(),
{
}

impl HabitWrapper {
    /// What is to be written of the habit.
    pub fn to_record(&self) -> (r: HabitRecord)
        ensures
            r@ == self@.record(),
    {
        match self {
            HabitWrapper::Count(c) => {
                let stats = c.entries();
                proof {
                    lemma_ledger_of_listing(stats@, c@.stats);
                }
                HabitRecord::Count { name: c.name(), stats, goal: c.goal(), auto: c.is_auto() }
            },
            HabitWrapper::Bit(b) => {
                let stats = b.entries();
                proof {
                    lemma_ledger_of_listing(stats@, b@.stats);
                }
                HabitRecord::Bit { name: b.name(), stats, auto: b.is_auto() }
            },
            HabitWrapper::Float(f) => {
                let stats = f.entries();
                proof {
                    lemma_ledger_of_listing(stats@, f@.stats);
                }
                HabitRecord::Float {
                    name: f.name(),
                    stats,
                    goal: f.goal_data(),
                    precision: f.precision(),
                    auto: f.is_auto(),
                }
            },
        }
    }
}

impl HabitRecord {
    /// The habit read back from the record, its view starting on the
    /// current date.
    pub fn to_habit(&self) -> (h: HabitWrapper)
        ensures
            h@.record() == self@,
            h@.inner_data().view_mode == crate::habit::ViewMode::Day,
            exists|t: Date| t.in_range() && h@ == #[trigger] self@.habit(t),
    {
        let t = today();
        proof {
            use_type_invariant(&t);
        }
        self.to_habit_at(t)
    }

    /// The habit read back from the record on the day `today`.
    pub fn to_habit_at(&self, today: Date) -> (h: HabitWrapper)
        ensures
            h@ == self@.habit(today),
    {
        match self {
            HabitRecord::Count { name, stats, goal, auto } => HabitWrapper::Count(
                Count::restore_at(name.as_str(), *goal, *auto, stats, today),
            ),
            HabitRecord::Bit { name, stats, auto } => HabitWrapper::Bit(
                Bit::restore_at(name.as_str(), *auto, stats, today),
            ),
            HabitRecord::Float { name, stats, goal, precision, auto } => HabitWrapper::Float(
                Float::restore_at(name.as_str(), *goal, *precision, *auto, stats, today),
            ),
        }
    }
}

} // verus!
