//! The registry: the habits in the order they were added, which of them has
//! the focus, the shared cursor and the status message.

use crate::cursor::{month_backward_spec, month_forward_spec, small_seek_spec, Absolute, Cursor};
use crate::date::{today, Date, MAX_DAYS, MIN_DAYS};
use crate::habit::{HabitWrapper, HabitWrapperView, InnerData, ViewMode};
use crate::message::{startup_text, Message, MessageKind, MessageView};
use crate::utils::{GRID_WIDTH, VIEW_HEIGHT, VIEW_WIDTH};
use vstd::prelude::*;

pub mod dispatch;
pub mod input;
pub mod state;
pub mod status;

verus! {

/// The registry of habits.
#[derive(Debug)]
pub struct App {
    habits: Vec<HabitWrapper>,
    focus: usize,
    cursor: Cursor,
    message: Message,
}

/// The registry as a value.
pub struct AppView {
    pub habits: Seq<HabitWrapperView>,
    pub focus: nat,
    pub cursor: Cursor,
    pub message: MessageView,
}

/// The values of a list of habits.
pub open spec fn views(habits: Seq<HabitWrapper>) -> Seq<HabitWrapperView> {
    habits.map_values(|h: HabitWrapper| h@)
}

/// A habit with its cursor put on `cursor`.
pub open spec fn turned_to(h: HabitWrapperView, cursor: Cursor) -> HabitWrapperView {
    h.with_inner_data(InnerData { cursor, view_mode: h.inner_data().view_mode })
}

/// A habit with its view put in `mode`.
pub open spec fn shown_in(h: HabitWrapperView, mode: ViewMode) -> HabitWrapperView {
    h.with_inner_data(InnerData { cursor: h.inner_data().cursor, view_mode: mode })
}

impl AppView {
    /// The focus is on a habit, or on the first place while there is none.
    pub open spec fn wf(self) -> bool {
        self.focus < self.habits.len() || self.focus == 0
    }

    /// The names of the habits, in order.
    pub open spec fn names(self) -> Seq<Seq<char>> {
        Seq::new(self.habits.len(), |i: int| self.habits[i].name())
    }

    /// The view mode of the habit in focus; day mode where there is none.
    pub open spec fn mode(self) -> ViewMode {
        if self.focus < self.habits.len() {
            self.habits[self.focus as int].inner_data().view_mode
        } else {
            ViewMode::Day
        }
    }

    /// The registry with the view of the habit in focus put in `mode`.
    pub open spec fn with_mode(self, mode: ViewMode) -> AppView {
        if self.focus < self.habits.len() {
            AppView {
                habits: self.habits.update(
                    self.focus as int,
                    shown_in(self.habits[self.focus as int], mode),
                ),
                ..self
            }
        } else {
            self
        }
    }

    /// The registry with every habit's view put in `mode`.
    pub open spec fn with_all_modes(self, mode: ViewMode) -> AppView {
        AppView {
            habits: Seq::new(self.habits.len(), |i: int| shown_in(self.habits[i], mode)),
            ..self
        }
    }

    /// The registry with its cursor on `cursor`, and every habit's with it.
    pub open spec fn with_cursor(self, cursor: Cursor) -> AppView {
        AppView {
            cursor,
            habits: Seq::new(self.habits.len(), |i: int| turned_to(self.habits[i], cursor)),
            ..self
        }
    }

    /// Whether every habit's cursor is where the registry's is.
    pub open spec fn in_step(self) -> bool {
        forall|i: int|
            0 <= i < self.habits.len() ==> (#[trigger] self.habits[i]).inner_data().cursor
                == self.cursor
    }

    /// Where the focus goes on a grid `GRID_WIDTH` wide.
    ///
    /// Right and Left step by one and stop at the ends. Down steps a row
    /// ahead, and to the last habit where the row ends before; Up steps a
    /// row back, and to the first habit where there is no row before.
    pub open spec fn focus_after(self, d: Absolute) -> nat {
        if self.habits.len() == 0 {
            self.focus
        } else {
            match d {
                Absolute::Right => if self.focus + 1 < self.habits.len() {
                    self.focus + 1
                } else {
                    self.focus
                },
                Absolute::Left => if self.focus != 0 {
                    (self.focus - 1) as nat
                } else {
                    self.focus
                },
                Absolute::Down => if self.focus + GRID_WIDTH < self.habits.len() - 1 {
                    self.focus + GRID_WIDTH as nat
                } else {
                    (self.habits.len() - 1) as nat
                },
                Absolute::Up => if self.focus >= GRID_WIDTH {
                    (self.focus - GRID_WIDTH) as nat
                } else {
                    0
                },
                Absolute::Still => self.focus,
            }
        }
    }
}

/// The number of rows that a grid `GRID_WIDTH` wide needs for `n` habits.
pub open spec fn grid_rows(n: nat) -> nat {
    (n + GRID_WIDTH - 1) as nat / GRID_WIDTH as nat
}

/// The height of the grid for `n` habits and of the two lines below it, for
/// the status and for commands; no more than a `usize` holds.
pub open spec fn grid_height(n: nat) -> nat {
    if VIEW_HEIGHT * grid_rows(n) + 2 <= usize::MAX {
        (VIEW_HEIGHT * grid_rows(n) + 2) as nat
    } else {
        usize::MAX as nat
    }
}

impl View for App {
    type V = AppView;

    closed spec fn view(&self) -> AppView {
        AppView {
            habits: views(self.habits@),
            focus: self.focus as nat,
            cursor: self.cursor,
            message: self.message@,
        }
    }
}

impl App {
    /// A registry without habits, its cursor on the current date, with the
    /// message that greets a user.
    pub fn new() -> (app: App)
        ensures
            app@.habits.len() == 0,
            app@.focus == 0,
            app@.message == (MessageView { msg: startup_text(), kind: MessageKind::Info }),
            app@.wf(),
    {
        App { habits: Vec::new(), focus: 0, cursor: Cursor::new(), message: Message::startup() }
    }

    /// A registry without habits, its cursor on `today`, with the message
    /// that greets a user.
    pub fn new_at(today: Date) -> (app: App)
        ensures
            app@ == (AppView {
                habits: Seq::empty(),
                focus: 0,
                cursor: Cursor(today),
                message: MessageView { msg: startup_text(), kind: MessageKind::Info },
            }),
    {
        let app = App {
            habits: Vec::new(),
            focus: 0,
            cursor: Cursor(today),
            message: Message::startup(),
        };
        assert(app@.habits =~= Seq::empty());
        app
    }

    /// Appends a habit.
    pub fn add_habit(&mut self, h: HabitWrapper)
        ensures
            final(self)@ == (AppView { habits: old(self)@.habits.push(h@), ..old(self)@ }),
            old(self)@.wf() ==> final(self)@.wf(),
    {
        self.habits.push(h);
        assert(views(self.habits@) =~= views(old(self).habits@).push(h@));
    }

    /// The names of the habits, in order.
    pub fn list_habits(&self) -> (names: Vec<String>)
        ensures
            crate::command::words::texts(names@) == self@.names(),
    {
        let mut names: Vec<String> = Vec::new();
        let mut i: usize = 0;
        while i < self.habits.len()
            invariant
                i <= self.habits.len(),
                names.len() == i,
                forall|k: int| 0 <= k < i ==> (#[trigger] names[k])@ == self.habits[k]@.name(),
            decreases self.habits.len() - i,
        {
            names.push(self.habits[i].name());
            i += 1;
        }
        assert(crate::command::words::texts(names@) =~= self@.names());
        names
    }

    /// The view mode of the habit in focus; day mode where there is none.
    pub fn get_mode(&self) -> (mode: ViewMode)
        ensures
            mode == self@.mode(),
    {
        if self.focus < self.habits.len() {
            self.habits[self.focus].inner_data_ref().view_mode()
        } else {
            ViewMode::Day
        }
    }

    /// Puts the view of the habit in focus in `mode`.
    pub fn set_mode(&mut self, mode: ViewMode)
        ensures
            final(self)@ == old(self)@.with_mode(mode),
            old(self)@.wf() ==> final(self)@.wf(),
    {
        if self.focus < self.habits.len() {
            let focus = self.focus;
            self.habits[focus].inner_data_mut_ref().set_view_mode(mode);
            assert(views(self.habits@) =~= views(old(self).habits@).update(
                focus as int,
                shown_in(old(self).habits[focus as int]@, mode),
            ));
        }
    }

    /// Puts every habit's view in `mode`.
    pub fn set_all_modes(&mut self, mode: ViewMode)
        ensures
            final(self)@ == old(self)@.with_all_modes(mode),
            old(self)@.wf() ==> final(self)@.wf(),
    {
        let mut i: usize = 0;
        while i < self.habits.len()
            invariant
                i <= self.habits.len(),
                self.habits.len() == old(self).habits.len(),
                self.focus == old(self).focus,
                self.cursor == old(self).cursor,
                self.message == old(self).message,
                forall|k: int| 0 <= k < i ==> (#[trigger] self.habits[k])@ == shown_in(old(self).habits[k]@, mode),
                forall|k: int| i <= k < self.habits.len() ==> (#[trigger] self.habits[k]) == old(self).habits[k],
            decreases self.habits.len() - i,
        {
            self.habits[i].inner_data_mut_ref().set_view_mode(mode);
            i += 1;
        }
        assert(self@.habits =~= old(self)@.with_all_modes(mode).habits);
    }

    /// Puts the registry's cursor, and every habit's with it, on `cursor`.
    fn set_cursor(&mut self, cursor: Cursor)
        ensures
            final(self)@ == old(self)@.with_cursor(cursor),
            old(self)@.wf() ==> final(self)@.wf(),
            final(self)@.in_step(),
    {
        self.cursor = cursor;
        let mut i: usize = 0;
        while i < self.habits.len()
            invariant
                i <= self.habits.len(),
                self.habits.len() == old(self).habits.len(),
                self.focus == old(self).focus,
                self.cursor == cursor,
                self.message == old(self).message,
                forall|k: int| 0 <= k < i ==> (#[trigger] self.habits[k])@ == turned_to(old(self).habits[k]@, cursor),
                forall|k: int| i <= k < self.habits.len() ==> (#[trigger] self.habits[k]) == old(self).habits[k],
            decreases self.habits.len() - i,
        {
            self.habits[i].inner_data_mut_ref().cursor = cursor;
            i += 1;
        }
        assert(self@.habits =~= old(self)@.with_cursor(cursor).habits);
    }

    /// Moves all cursors four weeks back, reading the clock for today.
    pub fn sift_backward(&mut self)
        ensures
            old(self)@.wf() ==> final(self)@.wf(),
            final(self)@.in_step(),
            exists|t: int|
                MIN_DAYS <= t <= MAX_DAYS && final(self)@ == old(self)@.with_cursor(
                    Cursor::on_day(#[trigger] month_backward_spec(old(self)@.cursor@, t)),
                ),
    {
        let t = today();
        proof {
            use_type_invariant(&t);
        }
        self.sift_backward_at(t);
    }

    /// Moves all cursors four weeks back, with `today` as the current date.
    pub fn sift_backward_at(&mut self, today: Date)
        ensures
            final(self)@ == old(self)@.with_cursor(
                Cursor::on_day(month_backward_spec(old(self)@.cursor@, today@)),
            ),
            old(self)@.wf() ==> final(self)@.wf(),
            final(self)@.in_step(),
    {
        let mut cursor = self.cursor;
        cursor.month_backward_at(today);
        proof {
            use_type_invariant(&cursor.0);
            cursor.lemma_on_own_day();
        }
        self.set_cursor(cursor);
    }

    /// Moves all cursors four weeks forward, but not past today, reading the
    /// clock for today.
    pub fn sift_forward(&mut self)
        ensures
            old(self)@.wf() ==> final(self)@.wf(),
            final(self)@.in_step(),
            exists|t: int|
                MIN_DAYS <= t <= MAX_DAYS && final(self)@ == old(self)@.with_cursor(
                    Cursor::on_day(#[trigger] month_forward_spec(old(self)@.cursor@, t)),
                ),
    {
        let t = today();
        proof {
            use_type_invariant(&t);
        }
        self.sift_forward_at(t);
    }

    /// Moves all cursors four weeks forward, but not past `today`.
    pub fn sift_forward_at(&mut self, today: Date)
        ensures
            final(self)@ == old(self)@.with_cursor(
                Cursor::on_day(month_forward_spec(old(self)@.cursor@, today@)),
            ),
            old(self)@.wf() ==> final(self)@.wf(),
            final(self)@.in_step(),
    {
        let mut cursor = self.cursor;
        cursor.month_forward_at(today);
        proof {
            use_type_invariant(&cursor.0);
            cursor.lemma_on_own_day();
        }
        self.set_cursor(cursor);
    }

    /// Puts all cursors on the current date.
    pub fn reset_cursor(&mut self)
        ensures
            old(self)@.wf() ==> final(self)@.wf(),
            final(self)@.in_step(),
            final(self)@ == old(self)@.with_cursor(final(self)@.cursor),
    {
        let t = today();
        self.reset_cursor_at(t);
    }

    /// Puts all cursors on `today`.
    pub fn reset_cursor_at(&mut self, today: Date)
        ensures
            final(self)@ == old(self)@.with_cursor(Cursor(today)),
            old(self)@.wf() ==> final(self)@.wf(),
            final(self)@.in_step(),
    {
        self.set_cursor(Cursor(today));
    }

    /// Moves all cursors by a day or a week, reading the clock for today.
    pub fn move_cursor(&mut self, d: Absolute)
        ensures
            old(self)@.wf() ==> final(self)@.wf(),
            final(self)@.in_step(),
            exists|t: int|
                MIN_DAYS <= t <= MAX_DAYS && final(self)@ == old(self)@.with_cursor(
                    Cursor::on_day(#[trigger] small_seek_spec(old(self)@.cursor@, d, t)),
                ),
    {
        let t = today();
        proof {
            use_type_invariant(&t);
        }
        self.move_cursor_at(d, t);
    }

    /// Moves all cursors by a day or a week, with `today` as the current
    /// date.
    pub fn move_cursor_at(&mut self, d: Absolute, today: Date)
        ensures
            final(self)@ == old(self)@.with_cursor(
                Cursor::on_day(small_seek_spec(old(self)@.cursor@, d, today@)),
            ),
            old(self)@.wf() ==> final(self)@.wf(),
            final(self)@.in_step(),
    {
        let mut cursor = self.cursor;
        cursor.small_seek_at(d, today);
        proof {
            use_type_invariant(&cursor.0);
            cursor.lemma_on_own_day();
        }
        self.set_cursor(cursor);
    }

    /// Moves the focus over the grid.
    pub fn set_focus(&mut self, d: Absolute)
        ensures
            final(self)@ == (AppView { focus: old(self)@.focus_after(d), ..old(self)@ }),
            old(self)@.wf() ==> final(self)@.wf(),
    {
        let len = self.habits.len();
        if len == 0 {
            return ;
        }
        match d {
            Absolute::Right => {
                if self.focus < len - 1 {
                    self.focus += 1;
                }
            },
            Absolute::Left => {
                if self.focus != 0 {
                    self.focus -= 1;
                }
            },
            Absolute::Down => {
                if self.focus < len - 1 && len - 1 - self.focus > GRID_WIDTH {
                    self.focus += GRID_WIDTH;
                } else {
                    self.focus = len - 1;
                }
            },
            Absolute::Up => {
                if self.focus >= GRID_WIDTH {
                    self.focus -= GRID_WIDTH;
                } else {
                    self.focus = 0;
                }
            },
            Absolute::Still => {},
        }
    }

    /// The height of the grid and of the two lines below it.
    fn height(&self) -> (h: usize)
        ensures
            h == grid_height(self@.habits.len()),
    {
        let n = self.habits.len();
        let rows: usize = n / GRID_WIDTH + if n % GRID_WIDTH != 0 {
            1
        } else {
            0
        };
        assert(rows == grid_rows(n as nat));
        let height: u128 = VIEW_HEIGHT as u128 * rows as u128 + 2;
        if height <= usize::MAX as u128 {
            height as usize
        } else {
            usize::MAX
        }
    }

    /// The size the registry is drawn in, width first: a grid of views
    /// `GRID_WIDTH` wide, and two lines below it.
    pub fn max_size(&self) -> (size: (usize, usize))
        ensures
            size.0 == GRID_WIDTH * VIEW_WIDTH,
            size.1 == grid_height(self@.habits.len()),
    {
        (GRID_WIDTH * VIEW_WIDTH, self.height())
    }

    /// The size the registry asks for, width first: as `max_size`, with two
    /// columns more for each view.
    pub fn required_size(&self) -> (size: (usize, usize))
        ensures
            size.0 == GRID_WIDTH * (VIEW_WIDTH + 2),
            size.1 == grid_height(self@.habits.len()),
    {
        (GRID_WIDTH * (VIEW_WIDTH + 2), self.height())
    }

    /// The habit at place `i`, if there is one.
    pub fn habit(&self, i: usize) -> (h: Option<&HabitWrapper>)
        ensures
            h is Some <==> i < self@.habits.len(),
            h matches Some(habit) ==> habit@ == self@.habits[i as int],
    {
        if i < self.habits.len() {
            Some(&self.habits[i])
        } else {
            None
        }
    }

    /// The number of habits.
    pub fn len(&self) -> (n: usize)
        ensures
            n == self@.habits.len(),
    {
        self.habits.len()
    }

    /// The place of the habit in focus.
    pub fn focus(&self) -> (i: usize)
        ensures
            i == self@.focus,
    {
        self.focus
    }

    /// The registry's cursor.
    pub fn cursor(&self) -> (c: Cursor)
        ensures
            c == self@.cursor,
    {
        self.cursor
    }

    /// The status message.
    pub fn message(&self) -> (m: &Message)
        ensures
            m@ == self@.message,
    {
        &self.message
    }

    /// Empties the status message.
    pub fn clear_message(&mut self)
        ensures
            final(self)@ == (AppView {
                message: MessageView { msg: Seq::empty(), ..old(self)@.message },
                ..old(self)@
            }),
    {
        self.message.clear();
    }
}

impl Default for App {
    fn default() -> (app: App)
        ensures
            app@.habits.len() == 0,
            app@.focus == 0,
            app@.wf(),
    {
        App::new()
    }
}

} // verus!
