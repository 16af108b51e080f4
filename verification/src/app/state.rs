//! The registry and its two lists on disk: habits tracked by hand, and
//! habits driven from outside.

use crate::app::{views, App, AppView};
use crate::cursor::Cursor;
use crate::date::{today, Date};
use crate::habit::{
    lemma_record_round_trip, HabitRecord, HabitRecordView, HabitWrapper, HabitWrapperView, InnerData,
};
use crate::message::{startup_text, Message, MessageKind, MessageView};
use vstd::prelude::*;

verus! {

/// The habits of `habits` that are driven from outside (`auto` true) or are
/// not (`auto` false), in order.
pub open spec fn those_driven(habits: Seq<HabitWrapperView>, auto: bool) -> Seq<HabitWrapperView>
    decreases habits.len(),
{
    if habits.len() == 0 {
        habits
    } else if habits[0].is_auto() == auto {
        seq![habits[0]] + those_driven(habits.drop_first(), auto)
    } else {
        those_driven(habits.drop_first(), auto)
    }
}

/// The values of a list of borrowed habits.
pub open spec fn borrowed_views(habits: Seq<&HabitWrapper>) -> Seq<HabitWrapperView> {
    habits.map_values(|h: &HabitWrapper| h@)
}

/// A habit added at the end is kept at the end, or not at all.
pub proof fn lemma_those_driven_push(habits: Seq<HabitWrapperView>, h: HabitWrapperView, auto: bool)
    ensures
        those_driven(habits.push(h), auto) == if h.is_auto() == auto {
            those_driven(habits, auto).push(h)
        } else {
            those_driven(habits, auto)
        },
    decreases habits.len(),
{
    if habits.len() == 0 {
        assert(habits.push(h).drop_first() =~= habits);
        assert(seq![h] + Seq::<HabitWrapperView>::empty() =~= Seq::<HabitWrapperView>::empty().push(
            h,
        ));
    } else {
        assert(habits.push(h).drop_first() =~= habits.drop_first().push(h));
        lemma_those_driven_push(habits.drop_first(), h, auto);
        if h.is_auto() == auto && habits[0].is_auto() == auto {
            assert(seq![habits[0]] + those_driven(habits.drop_first(), auto).push(h) =~= (
            seq![habits[0]] + those_driven(habits.drop_first(), auto)).push(h));
        }
    }
}

/// Splitting a list by who drives the habits and joining the parts again
/// loses no habit and makes none up: the joined list holds every habit
/// exactly as often as the list that was split.
pub proof fn lemma_split_and_join_keeps_habits(habits: Seq<HabitWrapperView>)
    ensures
        (those_driven(habits, false) + those_driven(habits, true)).to_multiset()
            == habits.to_multiset(),
    decreases habits.len(),
{
    broadcast use vstd::seq_lib::group_to_multiset_ensures;

    let regular = those_driven(habits, false);
    let auto = those_driven(habits, true);
    vstd::seq_lib::lemma_multiset_commutative(regular, auto);
    if habits.len() == 0 {
        assert(regular + auto =~= habits);
    } else {
        let rest = habits.drop_first();
        let first = seq![habits[0]];
        lemma_split_and_join_keeps_habits(rest);
        vstd::seq_lib::lemma_multiset_commutative(
            those_driven(rest, false),
            those_driven(rest, true),
        );
        vstd::seq_lib::lemma_multiset_commutative(first, rest);
        assert(first + rest =~= habits);
        if habits[0].is_auto() {
            vstd::seq_lib::lemma_multiset_commutative(first, those_driven(rest, true));
        } else {
            vstd::seq_lib::lemma_multiset_commutative(first, those_driven(rest, false));
        }
        assert((regular + auto).to_multiset() =~= habits.to_multiset());
    }
}

/// The records of a list of habits, in order.
pub open spec fn records(habits: Seq<HabitWrapperView>) -> Seq<HabitRecordView> {
    Seq::new(habits.len(), |i: int| habits[i].record())
}

/// The habits read back from a list of records on the day `today`, in
/// order.
pub open spec fn habits_of(records: Seq<HabitRecordView>, today: Date) -> Seq<HabitWrapperView> {
    Seq::new(records.len(), |i: int| records[i].habit(today))
}

/// The values of a list of records.
pub open spec fn record_views(records: Seq<HabitRecord>) -> Seq<HabitRecordView> {
    Seq::new(records.len(), |i: int| records[i]@)
}

/// The registry that is read from two documents on the day `today`: the
/// habits of the first, then those of the second, each with a view new on
/// that day; the focus on the first place, the cursor on `today`, and the
/// message that greets a user.
pub open spec fn loaded(
    regular: Seq<HabitRecordView>,
    auto: Seq<HabitRecordView>,
    today: Date,
) -> AppView {
    AppView {
        habits: habits_of(regular + auto, today),
        focus: 0,
        cursor: Cursor(today),
        message: MessageView { msg: startup_text(), kind: MessageKind::Info },
    }
}

/// The two written lists together hold the record of every habit exactly
/// as often as the registry holds the habit.
pub proof fn lemma_written_lists_hold_every_record(habits: Seq<HabitWrapperView>)
    ensures
        (records(those_driven(habits, false)) + records(those_driven(habits, true))).to_multiset()
            == records(habits).to_multiset(),
    decreases habits.len(),
{
    broadcast use vstd::seq_lib::group_to_multiset_ensures;

    let regular = records(those_driven(habits, false));
    let auto = records(those_driven(habits, true));
    vstd::seq_lib::lemma_multiset_commutative(regular, auto);
    if habits.len() == 0 {
        assert(regular + auto =~= records(habits));
    } else {
        let rest = habits.drop_first();
        let first = seq![habits[0].record()];
        let rest_regular = records(those_driven(rest, false));
        let rest_auto = records(those_driven(rest, true));
        lemma_written_lists_hold_every_record(rest);
        vstd::seq_lib::lemma_multiset_commutative(rest_regular, rest_auto);
        vstd::seq_lib::lemma_multiset_commutative(first, records(rest));
        assert(first + records(rest) =~= records(habits));
        if habits[0].is_auto() {
            assert(regular =~= rest_regular);
            assert(auto =~= first + rest_auto);
            vstd::seq_lib::lemma_multiset_commutative(first, rest_auto);
        } else {
            assert(regular =~= first + rest_regular);
            assert(auto =~= rest_auto);
            vstd::seq_lib::lemma_multiset_commutative(first, rest_regular);
        }
        assert((regular + auto).to_multiset() =~= records(habits).to_multiset());
    }
}

/// Written and read back, a registry holds the habits it held, as records:
/// none is lost, none is added and none is altered, though those driven from
/// outside now come last. Nothing of the views survives: the focus is on the
/// first place, the cursor is on the day of reading, and every habit's view
/// is new on that day.
pub proof fn lemma_written_and_read_back(app: AppView, today: Date)
    ensures
        ({
            let back = loaded(app.saved().0, app.saved().1, today);
            &&& records(back.habits).to_multiset() == records(app.habits).to_multiset()
            &&& back.habits.len() == app.habits.len()
            &&& back.focus == 0
            &&& back.cursor == Cursor(today)
            &&& back.wf()
            &&& back.in_step()
            &&& forall|i: int|
                0 <= i < back.habits.len() ==> (#[trigger] back.habits[i]).inner_data()
                    == InnerData::starting(today)
        }),
{
    let written = app.saved().0 + app.saved().1;
    let back = loaded(app.saved().0, app.saved().1, today);
    assert forall|i: int| 0 <= i < back.habits.len() implies (#[trigger] back.habits[i]).inner_data()
        == InnerData::starting(today) && records(back.habits)[i] == written[i] by {
        lemma_record_round_trip(back.habits[i], written[i], today);
    }
    assert(records(back.habits) =~= written);
    lemma_written_lists_hold_every_record(app.habits);
    vstd::seq_lib::lemma_multiset_commutative(app.saved().0, app.saved().1);
    records(app.habits).to_multiset_ensures();
    written.to_multiset_ensures();
}

impl AppView {
    /// What is written of the registry: the records of the habits tracked by
    /// hand, and the records of the habits driven from outside, each in the
    /// registry's order.
    pub open spec fn saved(self) -> (Seq<HabitRecordView>, Seq<HabitRecordView>) {
        (records(those_driven(self.habits, false)), records(those_driven(self.habits, true)))
    }

    /// The registry after the habits driven from outside were read anew:
    /// those it had are gone, the ones read come last. A focus that the list
    /// no longer reaches is put on the first place.
    pub open spec fn with_auto_replaced(self, auto: Seq<HabitWrapperView>) -> AppView {
        let habits = those_driven(self.habits, false) + auto;
        AppView {
            habits,
            focus: if self.focus < habits.len() {
                self.focus
            } else {
                0
            },
            ..self
        }
    }
}

impl App {
    /// A registry of the habits of two lists, first those tracked by hand,
    /// then those driven from outside; its cursor is on the current date and
    /// its message greets a user.
    pub fn with_habits(regular: Vec<HabitWrapper>, auto: Vec<HabitWrapper>) -> (app: App)
        ensures
            app@.habits == views(regular@) + views(auto@),
            app@.focus == 0,
            app@.message == (MessageView { msg: startup_text(), kind: MessageKind::Info }),
            app@.wf(),
    {
        let t = today();
        App::with_habits_at(regular, auto, t)
    }

    /// A registry of the habits of two lists, first those tracked by hand,
    /// then those driven from outside; its cursor is on `today` and its
    /// message greets a user.
    pub fn with_habits_at(regular: Vec<HabitWrapper>, auto: Vec<HabitWrapper>, today: Date) -> (app:
        App)
        ensures
            app@ == (AppView {
                habits: views(regular@) + views(auto@),
                focus: 0,
                cursor: Cursor(today),
                message: MessageView { msg: startup_text(), kind: MessageKind::Info },
            }),
            app@.wf(),
    {
        let ghost joined = views(regular@) + views(auto@);
        let mut habits = regular;
        let mut auto = auto;
        habits.append(&mut auto);
        assert(views(habits@) =~= joined);
        App { habits, focus: 0, cursor: Cursor(today), message: Message::startup() }
    }

    /// The habits to write to the two lists: first those tracked by hand,
    /// then those driven from outside, each in the registry's order.
    pub fn partition(&self) -> (lists: (Vec<&HabitWrapper>, Vec<&HabitWrapper>))
        ensures
            borrowed_views(lists.0@) == those_driven(self@.habits, false),
            borrowed_views(lists.1@) == those_driven(self@.habits, true),
    {
        let mut regular: Vec<&HabitWrapper> = Vec::new();
        let mut auto: Vec<&HabitWrapper> = Vec::new();
        let ghost all = self@.habits;
        let mut i: usize = 0;
        assert(all.take(0) =~= Seq::empty());
        assert(borrowed_views(regular@) =~= Seq::empty());
        assert(borrowed_views(auto@) =~= Seq::empty());
        while i < self.habits.len()
            invariant
                i <= self.habits.len(),
                all == self@.habits,
                all.len() == self.habits.len(),
                borrowed_views(regular@) == those_driven(all.take(i as int), false),
                borrowed_views(auto@) == those_driven(all.take(i as int), true),
            decreases self.habits.len() - i,
        {
            let h = &self.habits[i];
            proof {
                assert(all.take(i + 1) =~= all.take(i as int).push(h@));
                lemma_those_driven_push(all.take(i as int), h@, false);
                lemma_those_driven_push(all.take(i as int), h@, true);
            }
            let ghost regular_before = borrowed_views(regular@);
            let ghost auto_before = borrowed_views(auto@);
            if h.is_auto() {
                auto.push(h);
                assert(borrowed_views(auto@) =~= auto_before.push(h@));
            } else {
                regular.push(h);
                assert(borrowed_views(regular@) =~= regular_before.push(h@));
            }
            i += 1;
        }
        assert(all.take(i as int) =~= all);
        (regular, auto)
    }

    /// What is to be written to the two documents: the records of the
    /// habits tracked by hand, and the records of the habits driven from
    /// outside.
    pub fn save_state(&self) -> (documents: (Vec<HabitRecord>, Vec<HabitRecord>))
        ensures
            record_views(documents.0@) == self@.saved().0,
            record_views(documents.1@) == self@.saved().1,
    {
        let (regular, auto) = self.partition();
        (write_all(&regular), write_all(&auto))
    }

    /// The registry read from two documents, its cursor on the current
    /// date.
    pub fn load_state(regular: &Vec<HabitRecord>, auto: &Vec<HabitRecord>) -> (app: App)
        ensures
            app@.wf(),
            exists|t: Date|
                t.in_range() && app@ == #[trigger] loaded(
                    record_views(regular@),
                    record_views(auto@),
                    t,
                ),
    {
        let t = today();
        proof {
            use_type_invariant(&t);
        }
        App::load_state_at(regular, auto, t)
    }

    /// The registry read from two documents on the day `today`.
    pub fn load_state_at(regular: &Vec<HabitRecord>, auto: &Vec<HabitRecord>, today: Date) -> (app:
        App)
        ensures
            app@ == loaded(record_views(regular@), record_views(auto@), today),
            app@.wf(),
    {
        let first = read_all(regular, today);
        let second = read_all(auto, today);
        let app = App::with_habits_at(first, second, today);
        assert(app@.habits =~= habits_of(record_views(regular@) + record_views(auto@), today));
        app
    }

    /// Replaces the habits driven from outside by those of `auto`, which
    /// come last.
    pub fn replace_auto(&mut self, auto: Vec<HabitWrapper>)
        ensures
            final(self)@ == old(self)@.with_auto_replaced(views(auto@)),
            final(self)@.wf(),
    {
        let ghost all = views(self.habits@);
        let mut i: usize = 0;
        assert(views(self.habits@).take(0) =~= Seq::empty());
        assert(views(self.habits@).skip(0) =~= all);
        assert(Seq::<HabitWrapperView>::empty() + those_driven(all, false) =~= those_driven(
            all,
            false,
        ));
        while i < self.habits.len()
            invariant
                i <= self.habits.len(),
                self.focus == old(self).focus,
                self.cursor == old(self).cursor,
                self.message == old(self).message,
                those_driven(all, false) == views(self.habits@).take(i as int) + those_driven(
                    views(self.habits@).skip(i as int),
                    false,
                ),
            decreases self.habits.len() - i,
        {
            let ghost before = views(self.habits@);
            assert(before.skip(i as int)[0] == self.habits[i as int]@);
            if self.habits[i].is_auto() {
                self.habits.remove(i);
                assert(views(self.habits@).take(i as int) =~= before.take(i as int));
                assert(views(self.habits@).skip(i as int) =~= before.skip(i as int).drop_first());
            } else {
                assert(before.take(i + 1) =~= before.take(i as int) + seq![before[i as int]]);
                assert(before.skip(i + 1) =~= before.skip(i as int).drop_first());
                assert(before.take(i as int) + (seq![before[i as int]] + those_driven(
                    before.skip(i + 1),
                    false,
                )) =~= before.take(i + 1) + those_driven(before.skip(i + 1), false));
                i += 1;
            }
        }
        assert(views(self.habits@).take(i as int) =~= views(self.habits@));
        assert(views(self.habits@).skip(i as int) =~= Seq::empty());
        assert(views(self.habits@) + Seq::<HabitWrapperView>::empty() =~= views(self.habits@));
        let ghost joined = views(self.habits@) + views(auto@);
        let mut auto = auto;
        self.habits.append(&mut auto);
        assert(views(self.habits@) =~= joined);
        if self.focus >= self.habits.len() {
            self.focus = 0;
        }
    }
}

/// The records of a list of habits.
fn write_all(habits: &Vec<&HabitWrapper>) -> (out: Vec<HabitRecord>)
    ensures
        record_views(out@) == records(borrowed_views(habits@)),
{
    let mut out: Vec<HabitRecord> = Vec::new();
    let mut i: usize = 0;
    while i < habits.len()
        invariant
            i <= habits.len(),
            out.len() == i,
            forall|k: int| 0 <= k < i ==> (#[trigger] out[k])@ == habits[k]@.record(),
        decreases habits.len() - i,
    {
        out.push(habits[i].to_record());
        i += 1;
    }
    assert(record_views(out@) =~= records(borrowed_views(habits@)));
    out
}

/// The habits read back from a list of records on the day `today`.
fn read_all(records: &Vec<HabitRecord>, today: Date) -> (out: Vec<HabitWrapper>)
    ensures
        views(out@) == habits_of(record_views(records@), today),
{
    let mut out: Vec<HabitWrapper> = Vec::new();
    let mut i: usize = 0;
    while i < records.len()
        invariant
            i <= records.len(),
            out.len() == i,
            forall|k: int| 0 <= k < i ==> (#[trigger] out[k])@ == records[k]@.habit(today),
        decreases records.len() - i,
    {
        out.push(records[i].to_habit_at(today));
        i += 1;
    }
    assert(views(out@) =~= habits_of(record_views(records@), today));
    out
}

} // verus!
