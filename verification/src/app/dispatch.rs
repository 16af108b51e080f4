//! Carrying out commands.

use crate::app::{views, App, AppView};
use crate::command::{Command, CommandLineError, CommandLineErrorView, CommandView, GoalKind};
use crate::cursor::{month_backward_spec, month_forward_spec, Cursor};
use crate::date::{today, Date};
use crate::habit::{
    Bit, BitView, Count, CountView, Float, FloatData, FloatView, HabitWrapper, HabitWrapperView,
    InnerData, TrackEvent,
};
use crate::message::{MessageKind, MessageView};
use crate::text::same_text;
use vstd::prelude::*;
use vstd::string::StringExecFns;

verus! {

/// What carrying out a command leaves for the caller to do.
#[derive(Clone, Copy, Debug, PartialEq, Eq, Structural)]
pub enum Effect {
    /// Nothing.
    Nothing,
    /// The registry is to be written to its files.
    Save,
    /// The registry is to be written to its files, and the program is to
    /// end.
    SaveAndQuit,
}

/// The habits of `habits` that are not named `name`, in order.
pub open spec fn without_name(habits: Seq<HabitWrapperView>, name: Seq<char>) -> Seq<
    HabitWrapperView,
>
    decreases habits.len(),
{
    if habits.len() == 0 {
        habits
    } else if habits[0].name() == name {
        without_name(habits.drop_first(), name)
    } else {
        seq![habits[0]] + without_name(habits.drop_first(), name)
    }
}

/// The place of the first habit named `name` that is driven from outside;
/// the number of habits where there is none.
pub open spec fn first_auto_named(habits: Seq<HabitWrapperView>, name: Seq<char>) -> nat
    decreases habits.len(),
{
    if habits.len() == 0 {
        0
    } else if habits[0].name() == name && habits[0].is_auto() {
        0
    } else {
        1 + first_auto_named(habits.drop_first(), name)
    }
}

/// Whether a habit goes by the name `name`.
pub open spec fn has_name(habits: Seq<HabitWrapperView>, name: Seq<char>) -> bool {
    exists|i: int| 0 <= i < habits.len() && (#[trigger] habits[i]).name() == name
}

/// The habit that an `add` command makes: of the kind of its goal, a count
/// with goal zero where no goal is given or the goal is one to stay under;
/// without entries, its view in day mode on `today`.
pub open spec fn new_habit(name: Seq<char>, goal: Option<GoalKind>, auto: bool, today: Date)
    -> HabitWrapperView {
    let inner_data = InnerData::starting(today);
    match goal {
        Some(GoalKind::Bit) => HabitWrapperView::Bit(
            BitView { name, stats: Map::empty(), auto, inner_data },
        ),
        Some(GoalKind::Count(v)) => HabitWrapperView::Count(
            CountView { name, stats: Map::empty(), goal: v, auto, inner_data },
        ),
        Some(GoalKind::Float(v, p)) => HabitWrapperView::Float(
            FloatView {
                name,
                stats: Map::empty(),
                goal: FloatData { value: v, precision: p },
                precision: p,
                auto,
                inner_data,
            },
        ),
        _ => HabitWrapperView::Count(
            CountView { name, stats: Map::empty(), goal: 0, auto, inner_data },
        ),
    }
}

/// What `help` says on a topic, and without one.
pub open spec fn help_text(topic: Option<Seq<char>>) -> Seq<char> {
    match topic {
        None => "help <command>|commands|keys"@,
        Some(t) => if t == "a"@ || t == "add"@ {
            "add <habit-name> [goal]     (alias: a)"@
        } else if t == "aa"@ || t == "add-auto"@ {
            "add-auto <habit-name> [goal]     (alias: aa)"@
        } else if t == "d"@ || t == "delete"@ {
            "delete <habit-name>     (alias: d)"@
        } else if t == "mprev"@ || t == "month-prev"@ {
            "month-prev     (alias: mprev)"@
        } else if t == "mnext"@ || t == "month-next"@ {
            "month-next     (alias: mnext)"@
        } else if t == "tup"@ || t == "track-up"@ {
            "track-up <auto-habit-name>     (alias: tup)"@
        } else if t == "tdown"@ || t == "track-down"@ {
            "track-down <auto-habit-name>     (alias: tdown)"@
        } else if t == "q"@ || t == "quit"@ {
            "quit dijo"@
        } else if t == "w"@ || t == "write"@ {
            "write current state to disk   (alias: w)"@
        } else if t == "h"@ || t == "?"@ || t == "help"@ {
            "help [<command>|commands|keys]     (aliases: h, ?)"@
        } else if t == "cmds"@ || t == "commands"@ {
            "add, add-auto, delete, month-{prev,next}, track-{up,down}, help, quit"@
        } else if t == "keys"@ {
            "TODO"@
        } else if t == "wq"@ {
            "write current state to disk and quit dijo"@
        } else {
            "unknown command or help topic."@
        },
    }
}

impl AppView {
    /// The registry with a message of kind error.
    pub open spec fn with_error(self, msg: Seq<char>) -> AppView {
        AppView { message: MessageView { msg, kind: MessageKind::Error }, ..self }
    }

    /// The registry after a deletion by name: the habits of that name are
    /// gone and the focus is on the first place. Where no habit went by the
    /// name, the message says so, as an error.
    pub open spec fn without(self, name: Seq<char>) -> AppView {
        let habits = without_name(self.habits, name);
        let left = AppView { habits, focus: 0, ..self };
        if habits.len() == self.habits.len() {
            left.with_error("Could not delete habit `"@ + name + "`"@)
        } else {
            left
        }
    }

    /// The registry after a step of progress, on the day `day`, for the
    /// first habit named `name` that is driven from outside; unchanged where
    /// there is none.
    pub open spec fn after_track(self, name: Seq<char>, event: TrackEvent, day: int) -> AppView {
        let i = first_auto_named(self.habits, name) as int;
        if i < self.habits.len() {
            AppView { habits: self.habits.update(i, self.habits[i].after(day, event)), ..self }
        } else {
            self
        }
    }

    /// The registry after an `add` command: a name in use is refused with an
    /// error message; otherwise the new habit comes last.
    pub open spec fn after_add(
        self,
        name: Seq<char>,
        goal: Option<GoalKind>,
        auto: bool,
        today: Date,
    ) -> AppView {
        if has_name(self.habits, name) {
            self.with_error("Habit `"@ + name + "` already exist"@)
        } else {
            AppView { habits: self.habits.push(new_habit(name, goal, auto, today)), ..self }
        }
    }

    /// The registry after a line of input on the day `today`: the message
    /// is emptied, then the line is read and carried out.
    pub open spec fn after_line(self, input: Seq<char>, today: Date) -> AppView {
        (AppView { message: MessageView { msg: Seq::empty(), ..self.message }, ..self }).after_command(
            crate::command::parse_command(input),
            today,
        )
    }

    /// The registry after a line of input was read and carried out on the
    /// day `today`.
    ///
    /// Steps of progress are recorded on `today`, wherever the cursor is. A
    /// line that is no command leaves its error as the message.
    pub open spec fn after_command(
        self,
        result: Result<CommandView, CommandLineErrorView>,
        today: Date,
    ) -> AppView {
        match result {
            Ok(CommandView::Add(name, goal, auto)) => self.after_add(name, goal, auto, today),
            Ok(CommandView::Delete(name)) => self.without(name),
            Ok(CommandView::TrackUp(name)) => self.after_track(
                name,
                TrackEvent::Increment,
                today@,
            ),
            Ok(CommandView::TrackDown(name)) => self.after_track(
                name,
                TrackEvent::Decrement,
                today@,
            ),
            Ok(CommandView::Help(topic)) => AppView {
                message: MessageView { msg: help_text(topic), ..self.message },
                ..self
            },
            Ok(CommandView::MonthNext) => self.with_cursor(
                Cursor::on_day(month_forward_spec(self.cursor@, today@)),
            ),
            Ok(CommandView::MonthPrev) => self.with_cursor(
                Cursor::on_day(month_backward_spec(self.cursor@, today@)),
            ),
            Ok(CommandView::Quit) | Ok(CommandView::Write) | Ok(CommandView::WriteAndQuit) | Ok(
                CommandView::Blank,
            ) => self,
            Err(e) => self.with_error(e.text()),
        }
    }
}

/// Whether no two habits share a name.
pub open spec fn names_apart(habits: Seq<HabitWrapperView>) -> bool {
    forall|i: int, j: int|
        0 <= i < j < habits.len() ==> (#[trigger] habits[i]).name() != (#[trigger] habits[j]).name()
}

/// An `add` command never makes two habits share a name: where names were
/// apart before it, they are apart after it.
pub proof fn lemma_add_keeps_names_apart(
    app: AppView,
    name: Seq<char>,
    goal: Option<GoalKind>,
    auto: bool,
    today: Date,
)
    requires
        names_apart(app.habits),
    ensures
        names_apart(app.after_add(name, goal, auto, today).habits),
{
    if !has_name(app.habits, name) {
        let added = new_habit(name, goal, auto, today);
        let after = app.habits.push(added);
        assert(added.name() == name);
        assert forall|i: int, j: int| 0 <= i < j < after.len() implies (#[trigger] after[i]).name()
            != (#[trigger] after[j]).name() by {
            if j == app.habits.len() {
                assert(after[i] == app.habits[i]);
            } else {
                assert(after[i] == app.habits[i] && after[j] == app.habits[j]);
            }
        }
    }
}

/// What a command leaves for the caller to do: `write` asks for a save,
/// `quit` and `writeandquit` for a save and the end of the program.
pub open spec fn effect_of(result: Result<CommandView, CommandLineErrorView>) -> Effect {
    match result {
        Ok(CommandView::Write) => Effect::Save,
        Ok(CommandView::Quit) | Ok(CommandView::WriteAndQuit) => Effect::SaveAndQuit,
        _ => Effect::Nothing,
    }
}

/// The habit that an `add` command makes.
fn make_habit(name: &str, goal: Option<GoalKind>, auto: bool, today: Date) -> (h: HabitWrapper)
    ensures
        h@ == new_habit(name@, goal, auto, today),
{
    match goal {
        Some(GoalKind::Bit) => HabitWrapper::Bit(Bit::new_at(name, auto, today)),
        Some(GoalKind::Count(v)) => HabitWrapper::Count(Count::new_at(name, v, auto, today)),
        Some(GoalKind::Float(v, p)) => HabitWrapper::Float(Float::new_at(name, v, p, auto, today)),
        _ => HabitWrapper::Count(Count::new_at(name, 0, auto, today)),
    }
}

/// What `help` says on a topic.
fn help_on(t: &str) -> (s: &'static str)
    ensures
        s@ == help_text(Some(t@)),
{
    if same_text(t, "a") || same_text(t, "add") {
        "add <habit-name> [goal]     (alias: a)"
    } else if same_text(t, "aa") || same_text(t, "add-auto") {
        "add-auto <habit-name> [goal]     (alias: aa)"
    } else if same_text(t, "d") || same_text(t, "delete") {
        "delete <habit-name>     (alias: d)"
    } else if same_text(t, "mprev") || same_text(t, "month-prev") {
        "month-prev     (alias: mprev)"
    } else if same_text(t, "mnext") || same_text(t, "month-next") {
        "month-next     (alias: mnext)"
    } else if same_text(t, "tup") || same_text(t, "track-up") {
        "track-up <auto-habit-name>     (alias: tup)"
    } else if same_text(t, "tdown") || same_text(t, "track-down") {
        "track-down <auto-habit-name>     (alias: tdown)"
    } else if same_text(t, "q") || same_text(t, "quit") {
        "quit dijo"
    } else if same_text(t, "w") || same_text(t, "write") {
        "write current state to disk   (alias: w)"
    } else if same_text(t, "h") || same_text(t, "?") || same_text(t, "help") {
        "help [<command>|commands|keys]     (aliases: h, ?)"
    } else if same_text(t, "cmds") || same_text(t, "commands") {
        "add, add-auto, delete, month-{prev,next}, track-{up,down}, help, quit"
    } else if same_text(t, "keys") {
        "TODO"
    } else if same_text(t, "wq") {
        "write current state to disk and quit dijo"
    } else {
        "unknown command or help topic."
    }
}

impl App {
    /// Whether a habit goes by the name `name`.
    pub fn has_habit(&self, name: &str) -> (found: bool)
        ensures
            found == has_name(self@.habits, name@),
    {
        let mut i: usize = 0;
        while i < self.habits.len()
            invariant
                i <= self.habits.len(),
                forall|k: int| 0 <= k < i ==> (#[trigger] self.habits[k])@.name() != name@,
            decreases self.habits.len() - i,
        {
            let habit_name = self.habits[i].name();
            if same_text(habit_name.as_str(), name) {
                assert(self@.habits[i as int].name() == name@);
                return true;
            }
            i += 1;
        }
        assert forall|k: int| 0 <= k < self@.habits.len() implies (#[trigger] self@.habits[k]).name()
            != name@ by {
            assert(self@.habits[k] == self.habits[k]@);
        }
        false
    }

    /// Removes the habits named `name` and puts the focus on the first
    /// place. Where there is none of that name, says so in the message.
    pub fn delete_by_name(&mut self, name: &str)
        ensures
            final(self)@ == old(self)@.without(name@),
            final(self)@.wf(),
    {
        let old_len = self.habits.len();
        self.focus = 0;
        let ghost all = views(self.habits@);
        let mut i: usize = 0;
        assert(views(self.habits@).take(0) =~= Seq::empty());
        assert(views(self.habits@).skip(0) =~= all);
        assert(Seq::<HabitWrapperView>::empty() + without_name(all, name@) =~= without_name(
            all,
            name@,
        ));
        while i < self.habits.len()
            invariant
                i <= self.habits.len(),
                self.habits.len() <= old_len,
                self.focus == 0,
                self.cursor == old(self).cursor,
                self.message == old(self).message,
                without_name(all, name@) == views(self.habits@).take(i as int) + without_name(
                    views(self.habits@).skip(i as int),
                    name@,
                ),
            decreases self.habits.len() - i,
        {
            let ghost before = views(self.habits@);
            assert(before.skip(i as int)[0] == self.habits[i as int]@);
            let habit_name = self.habits[i].name();
            if same_text(habit_name.as_str(), name) {
                self.habits.remove(i);
                assert(views(self.habits@).take(i as int) =~= before.take(i as int));
                assert(views(self.habits@).skip(i as int) =~= before.skip(i as int).drop_first());
            } else {
                assert(before.take(i + 1) =~= before.take(i as int) + seq![before[i as int]]);
                assert(before.skip(i + 1) =~= before.skip(i as int).drop_first());
                assert(before.take(i as int) + (seq![before[i as int]] + without_name(
                    before.skip(i + 1),
                    name@,
                )) =~= before.take(i + 1) + without_name(before.skip(i + 1), name@));
                i += 1;
            }
        }
        assert(views(self.habits@).take(i as int) =~= views(self.habits@));
        assert(views(self.habits@).skip(i as int) =~= Seq::empty());
        assert(views(self.habits@) + Seq::<HabitWrapperView>::empty() =~= views(self.habits@));
        if old_len == self.habits.len() {
            let mut text = String::from_str("Could not delete habit `");
            text.append(name);
            text.append("`");
            self.message.set_message(text.as_str());
            self.message.set_kind(MessageKind::Error);
        }
    }

    /// Records a step of progress on `today` for the first habit named
    /// `name` that is driven from outside, if there is one.
    pub fn track_at(&mut self, name: &str, event: TrackEvent, today: Date)
        ensures
            final(self)@ == old(self)@.after_track(name@, event, today@),
            old(self)@.wf() ==> final(self)@.wf(),
    {
        let ghost all = views(self.habits@);
        let mut i: usize = 0;
        assert(all.skip(0) =~= all);
        while i < self.habits.len()
            invariant
                i <= self.habits.len(),
                *self == *old(self),
                all == views(self.habits@),
                first_auto_named(all, name@) == i + first_auto_named(all.skip(i as int), name@),
            decreases self.habits.len() - i,
        {
            assert(all.skip(i as int)[0] == self.habits[i as int]@);
            assert(all.skip(i as int).drop_first() =~= all.skip(i + 1));
            let habit_name = self.habits[i].name();
            if same_text(habit_name.as_str(), name) && self.habits[i].is_auto() {
                self.habits[i].modify(today, event);
                assert(views(self.habits@) =~= all.update(
                    i as int,
                    all[i as int].after(today@, event),
                ));
                return ;
            }
            i += 1;
        }
    }

    /// Carries out what a line of input asked for, reading the clock for
    /// today, and says whether the registry is to be saved.
    pub fn parse_command(&mut self, result: Result<Command, CommandLineError>) -> (effect: Effect)
        ensures
            effect == effect_of(crate::command::result_view(result)),
            old(self)@.wf() ==> final(self)@.wf(),
            exists|t: Date|
                t.in_range() && final(self)@ == #[trigger] old(self)@.after_command(
                    crate::command::result_view(result),
                    t,
                ),
    {
        let t = today();
        proof {
            use_type_invariant(&t);
        }
        self.parse_command_at(result, t)
    }

    /// Carries out what a line of input asked for, with `today` as the
    /// current date, and says whether the registry is to be saved.
    pub fn parse_command_at(&mut self, result: Result<Command, CommandLineError>, today: Date) -> (effect:
        Effect)
        ensures
            final(self)@ == old(self)@.after_command(crate::command::result_view(result), today),
            effect == effect_of(crate::command::result_view(result)),
            old(self)@.wf() ==> final(self)@.wf(),
    {
        match result {
            Ok(c) => match c {
                Command::Add(name, goal, auto) => {
                    if self.has_habit(name.as_str()) {
                        let mut text = String::from_str("Habit `");
                        text.append(name.as_str());
                        text.append("` already exist");
                        self.message.set_kind(MessageKind::Error);
                        self.message.set_message(text.as_str());
                    } else {
                        self.add_habit(make_habit(name.as_str(), goal, auto, today));
                    }
                    Effect::Nothing
                },
                Command::Delete(name) => {
                    self.delete_by_name(name.as_str());
                    Effect::Nothing
                },
                Command::TrackUp(name) => {
                    self.track_at(name.as_str(), TrackEvent::Increment, today);
                    Effect::Nothing
                },
                Command::TrackDown(name) => {
                    self.track_at(name.as_str(), TrackEvent::Decrement, today);
                    Effect::Nothing
                },
                Command::Help(input) => {
                    match input {
                        Some(topic) => self.message.set_message(help_on(topic.as_str())),
                        None => self.message.set_message("help <command>|commands|keys"),
                    }
                    Effect::Nothing
                },
                Command::Write => Effect::Save,
                Command::Quit | Command::WriteAndQuit => Effect::SaveAndQuit,
                Command::MonthNext => {
                    self.sift_forward_at(today);
                    Effect::Nothing
                },
                Command::MonthPrev => {
                    self.sift_backward_at(today);
                    Effect::Nothing
                },
                Command::Blank => Effect::Nothing,
            },
            Err(e) => {
                let text = e.to_string();
                self.message.set_message(text.as_str());
                self.message.set_kind(MessageKind::Error);
                Effect::Nothing
            },
        }
    }

    /// Reads a line of input and carries it out, reading the clock for
    /// today. The message of before is emptied first.
    pub fn call(&mut self, input: &str) -> (effect: Effect)
        ensures
            effect == effect_of(crate::command::parse_command(input@)),
            old(self)@.wf() ==> final(self)@.wf(),
            exists|t: Date|
                t.in_range() && final(self)@ == #[trigger] old(self)@.after_line(input@, t),
    {
        let t = today();
        proof {
            use_type_invariant(&t);
        }
        self.call_at(input, t)
    }

    /// Reads a line of input and carries it out, with `today` as the
    /// current date. The message of before is emptied first.
    pub fn call_at(&mut self, input: &str, today: Date) -> (effect: Effect)
        ensures
            final(self)@ == old(self)@.after_line(input@, today),
            effect == effect_of(crate::command::parse_command(input@)),
            old(self)@.wf() ==> final(self)@.wf(),
    {
        let command = Command::from_string(input);
        self.clear_message();
        self.parse_command_at(command, today)
    }
}

} // verus!
