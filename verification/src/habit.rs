//! Habits: a name, a ledger of daily progress, a goal, and the state of the
//! view that shows them.

use crate::cursor::{small_seek_spec, Absolute, Cursor};
use crate::date::{Date, MAX_DAYS, MIN_DAYS};
use vstd::prelude::*;

mod bit;
mod count;
mod float;
mod prelude;
mod record;
mod traits;
mod wrapper;

pub use bit::{lemma_bit_survives_writing, lemma_bit_two_steps_restore, Bit, BitView, CustomBool};
pub use count::{
    lemma_count_down_at_floor, lemma_count_owes_nothing_iff_reached,
    lemma_count_remaining_adds_up, lemma_count_survives_writing, lemma_count_up_then_down, Count,
    CountView,
};
pub use float::{
    lemma_float_down_at_floor, lemma_float_survives_writing, lemma_float_up_then_down, Float,
    FloatData, FloatView,
};
pub use prelude::{default_auto, TrackEvent, ViewMode};
pub use record::{lemma_record_round_trip, HabitRecord, HabitRecordView};
pub use traits::Habit;
pub use wrapper::{
    day_numbers, lemma_remaining_within_goal, lemma_untouched_day_owes_goal, HabitWrapper,
    HabitWrapperView, Progress, BAR_WIDTH,
};

verus! {

/// What a habit's view remembers between frames; none of it is persisted.
#[derive(Clone, Copy, Debug)]
pub struct InnerData {
    pub cursor: Cursor,
    pub view_mode: ViewMode,
}

impl InnerData {
    /// View state on the current date, in day mode.
    pub fn new() -> (d: InnerData)
        ensures
            d.view_mode == ViewMode::Day,
    {
        InnerData { cursor: Cursor::new(), view_mode: ViewMode::Day }
    }

    /// The view state a habit starts with: on `today`, in day mode.
    pub open spec fn starting(today: Date) -> InnerData {
        InnerData { cursor: Cursor(today), view_mode: ViewMode::Day }
    }

    /// View state on `today`, in day mode.
    pub fn new_at(today: Date) -> (d: InnerData)
        ensures
            d == InnerData::starting(today),
    {
        InnerData { cursor: Cursor(today), view_mode: ViewMode::Day }
    }

    /// Moves the cursor by a day or a week, reading the clock for today.
    pub fn move_cursor(&mut self, d: Absolute)
        ensures
            final(self).view_mode == old(self).view_mode,
            exists|t: int|
                MIN_DAYS <= t <= MAX_DAYS && final(self).cursor@ == #[trigger] small_seek_spec(
                    old(self).cursor@,
                    d,
                    t,
                ),
    {
        self.cursor.small_seek(d);
    }

    /// Moves the cursor by a day or a week, with `today` as the current date.
    pub fn move_cursor_at(&mut self, d: Absolute, today: Date)
        ensures
            final(self).view_mode == old(self).view_mode,
            final(self).cursor@ == small_seek_spec(old(self).cursor@, d, today@),
    {
        self.cursor.small_seek_at(d, today);
    }

    pub fn cursor(&self) -> (c: Cursor)
        ensures
            c == self.cursor,
    {
        self.cursor
    }

    pub fn set_view_mode(&mut self, mode: ViewMode)
        ensures
            *final(self) == (InnerData { view_mode: mode, ..*old(self) }),
    {
        self.view_mode = mode;
    }

    pub fn view_mode(&self) -> (m: ViewMode)
        ensures
            m == self.view_mode,
    {
        self.view_mode
    }
}

impl Default for InnerData {
    fn default() -> (d: InnerData)
        ensures
            d.view_mode == ViewMode::Day,
    {
        InnerData::new()
    }
}

} // verus!
