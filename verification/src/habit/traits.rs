//! What every kind of habit can do.

use crate::command::GoalKind;
use crate::date::Date;
use crate::habit::prelude::TrackEvent;
use crate::habit::wrapper::HabitWrapperView;
use crate::habit::InnerData;
use vstd::prelude::*;

verus! {

/// The capabilities shared by all habits.
///
/// The trait says what holds of a habit of any kind, over the habit seen as
/// one of any kind; each kind adds, on its own implementation, what its own
/// view has to say.
pub trait Habit {
    /// What the ledger records for a day.
    type HabitType;

    /// The habit as a habit of any kind.
    spec fn as_wrapper(&self) -> HabitWrapperView;

    /// What the ledger holds for a day, if anything.
    spec fn entry(&self, day: int) -> Option<Self::HabitType>;

    /// The kind of goal that a goal value stands for.
    spec fn kind_for(goal: Self::HabitType) -> GoalKind;

    /// The value recorded on `date`, if there is one.
    fn get_by_date(&self, date: Date) -> (r: Option<&Self::HabitType>)
        ensures
            r is Some <==> self.as_wrapper().has_entry(date@),
            match r {
                Some(v) => self.entry(date@) == Some(*v),
                None => self.entry(date@) is None,
            },
    ;

    /// The magnitude of the goal.
    fn goal(&self) -> (g: u32)
        ensures
            g == self.as_wrapper().goal(),
    ;

    /// Records `val` on `date`, replacing what was there.
    fn insert_entry(&mut self, date: Date, val: Self::HabitType)
        ensures
            final(self).entry(date@) == Some(val),
            forall|day: int| day != date@ ==> final(self).entry(day) == old(self).entry(day),
            final(self).as_wrapper().name() == old(self).as_wrapper().name(),
            final(self).as_wrapper().kind() == old(self).as_wrapper().kind(),
            final(self).as_wrapper().is_auto() == old(self).as_wrapper().is_auto(),
            final(self).as_wrapper().inner_data() == old(self).as_wrapper().inner_data(),
    ;

    /// Records one step of progress on `date`.
    fn modify(&mut self, date: Date, event: TrackEvent)
        ensures
            final(self).as_wrapper() == old(self).as_wrapper().after(date@, event),
    ;

    fn name(&self) -> (r: String)
        ensures
            r@ == self.as_wrapper().name(),
    ;

    /// Whether `date` has reached the goal.
    fn reached_goal(&self, date: Date) -> (b: bool)
        ensures
            b == self.as_wrapper().reached_goal(date@),
    ;

    /// What `date` still owes.
    fn remaining(&self, date: Date) -> (r: u32)
        ensures
            r == self.as_wrapper().remaining(date@),
    ;

    /// Sets the goal; a kind whose goal is fixed keeps it.
    fn set_goal(&mut self, goal: Self::HabitType)
        ensures
            final(self).as_wrapper().kind() == Self::kind_for(goal),
            forall|day: int| final(self).entry(day) == old(self).entry(day),
            final(self).as_wrapper().name() == old(self).as_wrapper().name(),
            final(self).as_wrapper().is_auto() == old(self).as_wrapper().is_auto(),
            final(self).as_wrapper().inner_data() == old(self).as_wrapper().inner_data(),
    ;

    /// Renames the habit. Whether the name is free is for the caller to see.
    fn set_name(&mut self, name: &str)
        ensures
            final(self).as_wrapper() == old(self).as_wrapper().with_name(name@),
    ;

    fn kind(&self) -> (k: GoalKind)
        ensures
            k == self.as_wrapper().kind(),
    ;

    fn inner_data_ref(&self) -> (r: &InnerData)
        ensures
            *r == self.as_wrapper().inner_data(),
    ;

    fn inner_data_mut_ref(&mut self) -> (r: &mut InnerData)
        ensures
            *r == old(self).as_wrapper().inner_data(),
            final(self).as_wrapper() == old(self).as_wrapper().with_inner_data(*final(r)),
    ;

    /// Whether the habit is driven from outside rather than by direct input.
    fn is_auto(&self) -> (b: bool)
        ensures
            b == self.as_wrapper().is_auto(),
    ;
}

} // verus!
