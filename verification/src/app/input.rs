//! Handling input events.

use crate::app::{views, App, AppView};
use crate::cursor::{month_backward_spec, month_forward_spec, small_seek_spec, Absolute, Cursor};
use crate::date::{today, Date};
use crate::event::{Event, EventResult, Key};
use crate::habit::ViewMode;
use crate::message::{MessageKind, MessageView};
use crate::utils::{AppConfig, KeyBindings};
use vstd::prelude::*;

verus! {

/// What an input event asks of the registry.
#[derive(Clone, Copy, Debug, PartialEq, Eq, Structural)]
pub enum Intent {
    /// Move the focus over the grid.
    Focus(Absolute),
    /// Move the cursors by a day or a week.
    Seek(Absolute),
    /// Move the cursors four weeks back.
    MonthBackward,
    /// Move the cursors four weeks forward.
    MonthForward,
    /// Empty the status message.
    ClearMessage,
    /// Switch the habit in focus between week mode and day mode.
    ToggleWeek,
    /// Put every habit in week mode.
    AllWeek,
    /// Put every habit in day mode and the cursors on today.
    Escape,
    /// Nothing of the registry itself: the event goes to the habit in focus.
    Habit,
}

/// What an input event asks for under the given key bindings. Where a key
/// is bound twice, the meaning listed first here wins.
pub open spec fn intent_of(e: Event, keys: KeyBindings) -> Intent {
    if e == Event::Key(Key::Up) || e == Event::Char(keys.up) {
        Intent::Focus(Absolute::Up)
    } else if e == Event::Key(Key::Down) || e == Event::Char(keys.down) {
        Intent::Focus(Absolute::Down)
    } else if e == Event::Key(Key::Left) || e == Event::Shift(Key::Tab) || e == Event::Char(
        keys.left,
    ) {
        Intent::Focus(Absolute::Left)
    } else if e == Event::Key(Key::Right) || e == Event::Key(Key::Tab) || e == Event::Char(
        keys.right,
    ) {
        Intent::Focus(Absolute::Right)
    } else if e == Event::Char(keys.prev_day) {
        Intent::Seek(Absolute::Left)
    } else if e == Event::Char(keys.next_day) {
        Intent::Seek(Absolute::Right)
    } else if e == Event::Char(keys.prev_week) {
        Intent::Seek(Absolute::Up)
    } else if e == Event::Char(keys.next_week) {
        Intent::Seek(Absolute::Down)
    } else if e == Event::Char(keys.prev_month) {
        Intent::MonthBackward
    } else if e == Event::Char(keys.next_month) {
        Intent::MonthForward
    } else if e == Event::CtrlChar(keys.clear_message) {
        Intent::ClearMessage
    } else if e == Event::Char(keys.weekly_stats) {
        Intent::ToggleWeek
    } else if e == Event::Char(keys.monthly_stats) {
        Intent::AllWeek
    } else if e == Event::Key(Key::Esc) {
        Intent::Escape
    } else {
        Intent::Habit
    }
}

/// What an input event asks for under the given configuration.
pub fn intent(e: Event, config: &AppConfig) -> (i: Intent)
    ensures
        i == intent_of(e, config.keybindings),
{
    if e == Event::Key(Key::Up) || e == Event::Char(config.move_up()) {
        Intent::Focus(Absolute::Up)
    } else if e == Event::Key(Key::Down) || e == Event::Char(config.move_down()) {
        Intent::Focus(Absolute::Down)
    } else if e == Event::Key(Key::Left) || e == Event::Shift(Key::Tab) || e == Event::Char(
        config.move_left(),
    ) {
        Intent::Focus(Absolute::Left)
    } else if e == Event::Key(Key::Right) || e == Event::Key(Key::Tab) || e == Event::Char(
        config.move_right(),
    ) {
        Intent::Focus(Absolute::Right)
    } else if e == Event::Char(config.move_prev_day()) {
        Intent::Seek(Absolute::Left)
    } else if e == Event::Char(config.move_next_day()) {
        Intent::Seek(Absolute::Right)
    } else if e == Event::Char(config.move_prev_week()) {
        Intent::Seek(Absolute::Up)
    } else if e == Event::Char(config.move_next_week()) {
        Intent::Seek(Absolute::Down)
    } else if e == Event::Char(config.move_prev_month()) {
        Intent::MonthBackward
    } else if e == Event::Char(config.move_next_month()) {
        Intent::MonthForward
    } else if e == Event::CtrlChar(config.clear_msg()) {
        Intent::ClearMessage
    } else if e == Event::Char(config.show_weekly_stats()) {
        Intent::ToggleWeek
    } else if e == Event::Char(config.show_monthly_stats()) {
        Intent::AllWeek
    } else if e == Event::Key(Key::Esc) {
        Intent::Escape
    } else {
        Intent::Habit
    }
}

impl AppView {
    /// The registry after an input event on the day `today`.
    ///
    /// A registry without habits ignores all input. An event that means
    /// nothing to the registry goes to the habit in focus.
    pub open spec fn after_event(self, e: Event, keys: KeyBindings, today: Date) -> AppView {
        if self.habits.len() == 0 {
            self
        } else {
            match intent_of(e, keys) {
                Intent::Focus(d) => AppView { focus: self.focus_after(d), ..self },
                Intent::Seek(d) => self.with_cursor(
                    Cursor::on_day(small_seek_spec(self.cursor@, d, today@)),
                ),
                Intent::MonthBackward => self.with_cursor(
                    Cursor::on_day(month_backward_spec(self.cursor@, today@)),
                ),
                Intent::MonthForward => self.with_cursor(
                    Cursor::on_day(month_forward_spec(self.cursor@, today@)),
                ),
                Intent::ClearMessage => AppView {
                    message: MessageView { msg: Seq::empty(), kind: MessageKind::Info },
                    ..self
                },
                Intent::ToggleWeek => if self.mode() == ViewMode::Week {
                    self.with_mode(ViewMode::Day)
                } else {
                    self.with_mode(ViewMode::Week)
                },
                Intent::AllWeek => self.with_all_modes(ViewMode::Week),
                Intent::Escape => self.with_all_modes(ViewMode::Day).with_cursor(Cursor(today)),
                Intent::Habit => if self.focus < self.habits.len() {
                    AppView {
                        habits: self.habits.update(
                            self.focus as int,
                            self.habits[self.focus as int].after_event(e, today@),
                        ),
                        ..self
                    }
                } else {
                    self
                },
            }
        }
    }

    /// Whether an input event is acted on: any that means something to a
    /// registry with habits, and any that the habit in focus takes.
    pub open spec fn takes_event(self, e: Event, keys: KeyBindings) -> bool {
        self.habits.len() > 0 && (intent_of(e, keys) != Intent::Habit || (self.focus
            < self.habits.len() && self.habits[self.focus as int].takes_event(e)))
    }
}

impl App {
    /// Handles an input event, reading the clock for today.
    pub fn on_event(&mut self, e: Event, config: &AppConfig) -> (r: EventResult)
        ensures
            r == EventResult::Consumed <==> old(self)@.takes_event(e, config.keybindings),
            r == EventResult::Ignored <==> !old(self)@.takes_event(e, config.keybindings),
            old(self)@.wf() ==> final(self)@.wf(),
            exists|t: Date|
                t.in_range() && final(self)@ == #[trigger] old(self)@.after_event(
                    e,
                    config.keybindings,
                    t,
                ),
    {
        let t = today();
        proof {
            use_type_invariant(&t);
        }
        self.on_event_at(e, config, t)
    }

    /// Handles an input event, with `today` as the current date.
    pub fn on_event_at(&mut self, e: Event, config: &AppConfig, today: Date) -> (r: EventResult)
        ensures
            final(self)@ == old(self)@.after_event(e, config.keybindings, today),
            r == EventResult::Consumed <==> old(self)@.takes_event(e, config.keybindings),
            r == EventResult::Ignored <==> !old(self)@.takes_event(e, config.keybindings),
            old(self)@.wf() ==> final(self)@.wf(),
    {
        if self.habits.len() == 0 {
            return EventResult::Ignored;
        }
        match intent(e, config) {
            Intent::Focus(d) => {
                self.set_focus(d);
                EventResult::Consumed
            },
            Intent::Seek(d) => {
                self.move_cursor_at(d, today);
                EventResult::Consumed
            },
            Intent::MonthBackward => {
                self.sift_backward_at(today);
                EventResult::Consumed
            },
            Intent::MonthForward => {
                self.sift_forward_at(today);
                EventResult::Consumed
            },
            Intent::ClearMessage => {
                self.message.clear();
                self.message.set_kind(MessageKind::Info);
                EventResult::Consumed
            },
            Intent::ToggleWeek => {
                if self.get_mode() == ViewMode::Week {
                    self.set_mode(ViewMode::Day);
                } else {
                    self.set_mode(ViewMode::Week);
                }
                EventResult::Consumed
            },
            Intent::AllWeek => {
                self.set_all_modes(ViewMode::Week);
                EventResult::Consumed
            },
            Intent::Escape => {
                self.set_all_modes(ViewMode::Day);
                self.reset_cursor_at(today);
                EventResult::Consumed
            },
            Intent::Habit => {
                if self.focus < self.habits.len() {
                    let focus = self.focus;
                    let r = self.habits[focus].on_event_at(e, today);
                    assert(views(self.habits@) =~= views(old(self).habits@).update(
                        focus as int,
                        old(self).habits[focus as int]@.after_event(e, today@),
                    ));
                    r
                } else {
                    EventResult::Ignored
                }
            },
        }
    }
}

} // verus!
