//! A habit tracker's state model: per-day ledgers of progress, goals, a date
//! cursor that never shows the future, a small command language and the
//! registry that ties them together.

pub mod app;
pub mod command;
pub mod cursor;
pub mod date;
pub mod event;
pub mod habit;
pub mod keybinds;
pub mod ledger;
pub mod message;
pub mod text;
pub mod utils;

pub use app::dispatch::Effect;
pub use app::input::Intent;
pub use app::status::StatusLine;
pub use app::App;
pub use command::{
    get_command_completion, get_habit_completion, Command, CommandLineError, GoalKind,
};
pub use cursor::{Absolute, Cursor};
pub use date::{Date, MAX_DAYS, MIN_DAYS};
pub use event::{Event, EventResult, Key};
pub use habit::{
    default_auto, Bit, Count, CustomBool, Float, FloatData, Habit, HabitRecord, HabitWrapper,
    InnerData, TrackEvent, ViewMode,
};
pub use keybinds::{Bind, KeyBinds, Movement};
pub use ledger::{ledger_of, lists, Ledger};
pub use message::{Message, MessageKind};
pub use utils::{AppConfig, Characters, Colors, KeyBindings, GRID_WIDTH, VIEW_HEIGHT, VIEW_WIDTH};
