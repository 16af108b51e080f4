//! Layout constants and the configuration of looks, colours and keys.

use vstd::prelude::*;
use vstd::string::StringExecFns;

verus! {

/// Width of one habit's view, in cells.
pub const VIEW_WIDTH: usize = 25;

/// Height of one habit's view, in cells.
pub const VIEW_HEIGHT: usize = 8;

/// Number of habit views in one row of the grid.
pub const GRID_WIDTH: usize = 3;

/// The characters a view is drawn with, and what is drawn bold.
#[derive(Clone, Copy, Debug, PartialEq, Eq)]
pub struct Characters {
    pub true_chr: char,
    pub false_chr: char,
    pub future_chr: char,
    pub bold_future: bool,
    pub bold_today: bool,
    pub bold_past: bool,
}

/// The character that stands for a day unless another is configured.
pub fn base_char() -> (c: char)
    ensures
        c == '\u{8def}',
{
    '\u{8def}'
}

pub fn return_true() -> (b: bool)
    ensures
        b,
{
    true
}

pub fn return_false() -> (b: bool)
    ensures
        !b,
{
    false
}

impl Default for Characters {
    fn default() -> (c: Characters)
        ensures
            c == (Characters {
                true_chr: '\u{8def}',
                false_chr: '\u{8def}',
                future_chr: '\u{8def}',
                bold_future: true,
                bold_today: true,
                bold_past: false,
            }),
    {
        Characters {
            true_chr: base_char(),
            false_chr: base_char(),
            future_chr: base_char(),
            bold_future: return_true(),
            bold_today: return_true(),
            bold_past: return_false(),
        }
    }
}

/// The colours of a view, by name.
#[derive(Debug, PartialEq, Eq)]
pub struct Colors {
    pub reached: String,
    pub todo: String,
    pub inactive: String,
    pub future: String,
    pub cursor: String,
    pub today: String,
    pub stats_bar_bg: String,
    pub stats_bar_fg: String,
}

pub fn cyan() -> (s: String)
    ensures
        s@ == "cyan"@,
{
    String::from_str("cyan")
}

pub fn magenta() -> (s: String)
    ensures
        s@ == "magenta"@,
{
    String::from_str("magenta")
}

pub fn light_black() -> (s: String)
    ensures
        s@ == "light black"@,
{
    String::from_str("light black")
}

pub fn dark_white() -> (s: String)
    ensures
        s@ == "dark white"@,
{
    String::from_str("dark white")
}

/// The colour of today's cell unless another is configured; despite the
/// name it is dark white.
pub fn dark_red() -> (s: String)
    ensures
        s@ == "dark white"@,
{
    String::from_str("dark white")
}

impl Default for Colors {
    fn default() -> (c: Colors)
        ensures
            c.reached@ == "cyan"@,
            c.todo@ == "magenta"@,
            c.inactive@ == "light black"@,
            c.future@ == "magenta"@,
            c.cursor@ == "light black"@,
            c.today@ == "dark white"@,
            c.stats_bar_bg@ == "light black"@,
            c.stats_bar_fg@ == "light black"@,
    {
        Colors {
            reached: cyan(),
            todo: magenta(),
            inactive: light_black(),
            future: magenta(),
            cursor: light_black(),
            today: dark_red(),
            stats_bar_bg: light_black(),
            stats_bar_fg: light_black(),
        }
    }
}

/// The character keys of the interface.
#[derive(Clone, Copy, Debug, PartialEq, Eq)]
pub struct KeyBindings {
    pub up: char,
    pub down: char,
    pub left: char,
    pub right: char,
    pub prev_day: char,
    pub next_day: char,
    pub prev_week: char,
    pub next_week: char,
    pub prev_month: char,
    pub next_month: char,
    pub weekly_stats: char,
    pub monthly_stats: char,
    pub clear_message: char,
    pub command_mode: char,
}

pub fn up() -> (c: char)
    ensures
        c == 'k',
{
    'k'
}

pub fn down() -> (c: char)
    ensures
        c == 'j',
{
    'j'
}

pub fn left() -> (c: char)
    ensures
        c == 'h',
{
    'h'
}

pub fn right() -> (c: char)
    ensures
        c == 'l',
{
    'l'
}

pub fn prev_day() -> (c: char)
    ensures
        c == 'H',
{
    'H'
}

pub fn next_day() -> (c: char)
    ensures
        c == 'L',
{
    'L'
}

pub fn prev_week() -> (c: char)
    ensures
        c == 'K',
{
    'K'
}

pub fn next_week() -> (c: char)
    ensures
        c == 'J',
{
    'J'
}

pub fn prev_month() -> (c: char)
    ensures
        c == '[',
{
    '['
}

pub fn next_month() -> (c: char)
    ensures
        c == ']',
{
    ']'
}

pub fn weekly_stats() -> (c: char)
    ensures
        c == 'v',
{
    'v'
}

pub fn monthly_stats() -> (c: char)
    ensures
        c == 'V',
{
    'V'
}

pub fn clear_message() -> (c: char)
    ensures
        c == 'l',
{
    'l'
}

pub fn command_mode() -> (c: char)
    ensures
        c == ':',
{
    ':'
}

/// The keys in use unless others are configured.
pub open spec fn default_keys() -> KeyBindings {
    KeyBindings {
        up: 'k',
        down: 'j',
        left: 'h',
        right: 'l',
        prev_day: 'H',
        next_day: 'L',
        prev_week: 'K',
        next_week: 'J',
        prev_month: '[',
        next_month: ']',
        weekly_stats: 'v',
        monthly_stats: 'V',
        clear_message: 'l',
        command_mode: ':',
    }
}

impl Default for KeyBindings {
    fn default() -> (k: KeyBindings)
        ensures
            k == default_keys(),
    {
        KeyBindings {
            up: up(),
            down: down(),
            left: left(),
            right: right(),
            prev_day: prev_day(),
            next_day: next_day(),
            prev_week: prev_week(),
            next_week: next_week(),
            prev_month: prev_month(),
            next_month: next_month(),
            weekly_stats: weekly_stats(),
            monthly_stats: monthly_stats(),
            clear_message: clear_message(),
            command_mode: command_mode(),
        }
    }
}

/// The whole configuration.
#[derive(Debug, PartialEq, Eq)]
pub struct AppConfig {
    pub look: Characters,
    pub colors: Colors,
    pub keybindings: KeyBindings,
}

impl Default for AppConfig {
    fn default() -> (c: AppConfig)
        ensures
            c.keybindings == default_keys(),
            c.look.bold_future && c.look.bold_today && !c.look.bold_past,
            c.look.true_chr == '\u{8def}',
            c.look.false_chr == '\u{8def}',
            c.look.future_chr == '\u{8def}',
            c.colors.reached@ == "cyan"@,
            c.colors.todo@ == "magenta"@,
            c.colors.inactive@ == "light black"@,
            c.colors.future@ == "magenta"@,
            c.colors.cursor@ == "light black"@,
            c.colors.today@ == "dark white"@,
            c.colors.stats_bar_bg@ == "light black"@,
            c.colors.stats_bar_fg@ == "light black"@,
    {
        AppConfig {
            look: Characters::default(),
            colors: Colors::default(),
            keybindings: KeyBindings::default(),
        }
    }
}

impl AppConfig {
    pub fn move_up(&self) -> (c: char)
        ensures
            c == self.keybindings.up,
    {
        self.keybindings.up
    }

    pub fn move_down(&self) -> (c: char)
        ensures
            c == self.keybindings.down,
    {
        self.keybindings.down
    }

    pub fn move_left(&self) -> (c: char)
        ensures
            c == self.keybindings.left,
    {
        self.keybindings.left
    }

    pub fn move_right(&self) -> (c: char)
        ensures
            c == self.keybindings.right,
    {
        self.keybindings.right
    }

    pub fn move_prev_day(&self) -> (c: char)
        ensures
            c == self.keybindings.prev_day,
    {
        self.keybindings.prev_day
    }

    pub fn move_next_day(&self) -> (c: char)
        ensures
            c == self.keybindings.next_day,
    {
        self.keybindings.next_day
    }

    pub fn move_prev_week(&self) -> (c: char)
        ensures
            c == self.keybindings.prev_week,
    {
        self.keybindings.prev_week
    }

    pub fn move_next_week(&self) -> (c: char)
        ensures
            c == self.keybindings.next_week,
    {
        self.keybindings.next_week
    }

    pub fn move_prev_month(&self) -> (c: char)
        ensures
            c == self.keybindings.prev_month,
    {
        self.keybindings.prev_month
    }

    pub fn move_next_month(&self) -> (c: char)
        ensures
            c == self.keybindings.next_month,
    {
        self.keybindings.next_month
    }

    pub fn show_weekly_stats(&self) -> (c: char)
        ensures
            c == self.keybindings.weekly_stats,
    {
        self.keybindings.weekly_stats
    }

    pub fn show_monthly_stats(&self) -> (c: char)
        ensures
            c == self.keybindings.monthly_stats,
    {
        self.keybindings.monthly_stats
    }

    pub fn clear_msg(&self) -> (c: char)
        ensures
            c == self.keybindings.clear_message,
    {
        self.keybindings.clear_message
    }

    pub fn cmd_mode(&self) -> (c: char)
        ensures
            c == self.keybindings.command_mode,
    {
        self.keybindings.command_mode
    }
}

} // verus!
