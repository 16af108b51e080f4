//! The command language: what a line of input asks the registry to do.

use crate::text::{decimal, decimal_string, same_text, starts_with};
use vstd::prelude::*;
use vstd::string::{StrSliceExecFns, StringExecFns};

pub mod goal;
pub mod words;

use goal::parse_goal;
use words::{arguments, command_name, split_line, texts, trim, trimmed};

verus! {

/// The kind of goal a habit is measured against.
#[derive(Clone, Copy, Debug, PartialEq, Eq, Structural)]
pub enum GoalKind {
    /// Reach a count.
    Count(u32),
    /// Do it or not.
    Bit,
    /// Reach a fixed-point quantity: magnitude and number of decimals.
    Float(u32, u8),
    /// Stay under a count.
    Addiction(u32),
}

/// Why a line of input is no command.
#[derive(Debug, PartialEq, Eq)]
pub enum CommandLineError {
    /// No command goes by this name.
    InvalidCommand(String),
    /// The argument at this position is not acceptable.
    InvalidArg(u32),
    /// The named command needs at least this many arguments.
    NotEnoughArgs(String, u32),
    /// This is no goal expression.
    InvalidGoal(String),
}

/// An error as a value.
pub enum CommandLineErrorView {
    InvalidCommand(Seq<char>),
    InvalidArg(u32),
    NotEnoughArgs(Seq<char>, u32),
    InvalidGoal(Seq<char>),
}

impl View for CommandLineError {
    type V = CommandLineErrorView;

    open spec fn view(&self) -> CommandLineErrorView {
        match self {
            CommandLineError::InvalidCommand(s) => CommandLineErrorView::InvalidCommand(s@),
            CommandLineError::InvalidArg(p) => CommandLineErrorView::InvalidArg(*p),
            CommandLineError::NotEnoughArgs(s, n) => CommandLineErrorView::NotEnoughArgs(s@, *n),
            CommandLineError::InvalidGoal(s) => CommandLineErrorView::InvalidGoal(s@),
        }
    }
}

impl CommandLineErrorView {
    /// The message that tells a user of the error.
    pub open spec fn text(self) -> Seq<char> {
        match self {
            CommandLineErrorView::InvalidCommand(s) => "Invalid command: `"@ + s + "`"@,
            CommandLineErrorView::InvalidArg(p) => "Invalid argument at position "@ + decimal(
                p as nat,
            ),
            CommandLineErrorView::NotEnoughArgs(s, n) => "Command `"@ + s + "` requires atleast "@
                + decimal(n as nat) + " argument(s)!"@,
            CommandLineErrorView::InvalidGoal(s) => "Invalid goal expression: `"@ + s + "`"@,
        }
    }
}

impl CommandLineError {
    /// The message that tells a user of the error.
    pub fn to_string(&self) -> (s: String)
        ensures
            s@ == self@.text(),
    {
        match self {
            CommandLineError::InvalidCommand(name) => {
                let mut s = String::from_str("Invalid command: `");
                s.append(name.as_str());
                s.append("`");
                s
            },
            CommandLineError::InvalidArg(p) => {
                let mut s = String::from_str("Invalid argument at position ");
                let digits = decimal_string(*p as u128);
                s.append(digits.as_str());
                s
            },
            CommandLineError::NotEnoughArgs(name, n) => {
                let mut s = String::from_str("Command `");
                s.append(name.as_str());
                s.append("` requires atleast ");
                let digits = decimal_string(*n as u128);
                s.append(digits.as_str());
                s.append(" argument(s)!");
                s
            },
            CommandLineError::InvalidGoal(goal) => {
                let mut s = String::from_str("Invalid goal expression: `");
                s.append(goal.as_str());
                s.append("`");
                s
            },
        }
    }
}

/// What a line of input asks for.
#[derive(Debug, PartialEq)]
pub enum Command {
    /// Add a habit: its name, its goal if one was given, and whether it is
    /// driven from outside.
    Add(String, Option<GoalKind>, bool),
    MonthPrev,
    MonthNext,
    Delete(String),
    TrackUp(String),
    TrackDown(String),
    Help(Option<String>),
    Write,
    Quit,
    Blank,
    WriteAndQuit,
}

/// A command as a value.
pub enum CommandView {
    Add(Seq<char>, Option<GoalKind>, bool),
    MonthPrev,
    MonthNext,
    Delete(Seq<char>),
    TrackUp(Seq<char>),
    TrackDown(Seq<char>),
    Help(Option<Seq<char>>),
    Write,
    Quit,
    Blank,
    WriteAndQuit,
}

impl View for Command {
    type V = CommandView;

    open spec fn view(&self) -> CommandView {
        match self {
            Command::Add(name, goal, auto) => CommandView::Add(name@, *goal, *auto),
            Command::MonthPrev => CommandView::MonthPrev,
            Command::MonthNext => CommandView::MonthNext,
            Command::Delete(name) => CommandView::Delete(name@),
            Command::TrackUp(name) => CommandView::TrackUp(name@),
            Command::TrackDown(name) => CommandView::TrackDown(name@),
            Command::Help(topic) => CommandView::Help(
                match topic {
                    Some(t) => Some(t@),
                    None => None,
                },
            ),
            Command::Write => CommandView::Write,
            Command::Quit => CommandView::Quit,
            Command::Blank => CommandView::Blank,
            Command::WriteAndQuit => CommandView::WriteAndQuit,
        }
    }
}

/// The outcome of reading a line, as a value.
pub open spec fn result_view(r: Result<Command, CommandLineError>) -> Result<
    CommandView,
    CommandLineErrorView,
> {
    match r {
        Ok(c) => Ok(c@),
        Err(e) => Err(e@),
    }
}

/// What an `add` command means: the first argument names the habit, the
/// second, if there is one, is its goal expression.
pub open spec fn parse_add(name: Seq<char>, args: Seq<Seq<char>>, auto: bool) -> Result<
    CommandView,
    CommandLineErrorView,
> {
    if args.len() < 1 {
        Err(CommandLineErrorView::NotEnoughArgs(name, 1))
    } else if args.len() < 2 {
        Ok(CommandView::Add(args[0], None, auto))
    } else {
        match parse_goal(args[1]) {
            Ok(goal) => Ok(CommandView::Add(args[0], Some(goal), auto)),
            Err(e) => Err(e),
        }
    }
}

/// Whether a word names a command, in full or by its alias.
pub open spec fn is_command_word(name: Seq<char>) -> bool {
    name == "add"@ || name == "a"@ || name == "add-auto"@ || name == "aa"@ || name == "delete"@
        || name == "d"@ || name == "track-up"@ || name == "tup"@ || name == "track-down"@ || name
        == "tdown"@ || name == "h"@ || name == "?"@ || name == "help"@ || name == "mprev"@ || name
        == "month-prev"@ || name == "mnext"@ || name == "month-next"@ || name == "wq"@ || name
        == "writeandquit"@ || name == "q"@ || name == "quit"@ || name == "w"@ || name == "write"@
}

/// What a line of input means.
///
/// The line is trimmed. What stands before its first space is the command
/// name, taken as typed: it names a command in full or by its alias, or it
/// is empty, which is the blank command, or it is refused as it stands. What
/// follows the first space is cut into the arguments, where double quotes
/// keep an argument with spaces together. Arguments beyond the ones a command
/// reads are ignored.
pub open spec fn parse_command(input: Seq<char>) -> Result<CommandView, CommandLineErrorView> {
    let name = command_name(trim(input));
    let args = arguments(trim(input));
    if name == "add"@ || name == "a"@ {
        parse_add(name, args, false)
    } else if name == "add-auto"@ || name == "aa"@ {
        parse_add(name, args, true)
    } else if name == "delete"@ || name == "d"@ {
        if args.len() < 1 {
            Err(CommandLineErrorView::NotEnoughArgs(name, 1))
        } else {
            Ok(CommandView::Delete(args[0]))
        }
    } else if name == "track-up"@ || name == "tup"@ {
        if args.len() < 1 {
            Err(CommandLineErrorView::NotEnoughArgs(name, 1))
        } else {
            Ok(CommandView::TrackUp(args[0]))
        }
    } else if name == "track-down"@ || name == "tdown"@ {
        if args.len() < 1 {
            Err(CommandLineErrorView::NotEnoughArgs(name, 1))
        } else {
            Ok(CommandView::TrackDown(args[0]))
        }
    } else if name == "h"@ || name == "?"@ || name == "help"@ {
        if args.len() < 1 {
            Ok(CommandView::Help(None))
        } else {
            Ok(CommandView::Help(Some(args[0])))
        }
    } else if name == "mprev"@ || name == "month-prev"@ {
        Ok(CommandView::MonthPrev)
    } else if name == "mnext"@ || name == "month-next"@ {
        Ok(CommandView::MonthNext)
    } else if name == "wq"@ || name == "writeandquit"@ {
        Ok(CommandView::WriteAndQuit)
    } else if name == "q"@ || name == "quit"@ {
        Ok(CommandView::Quit)
    } else if name == "w"@ || name == "write"@ {
        Ok(CommandView::Write)
    } else if name.len() == 0 {
        Ok(CommandView::Blank)
    } else {
        Err(CommandLineErrorView::InvalidCommand(name))
    }
}

/// No command goes by the empty name.
pub proof fn lemma_command_words_are_not_empty(name: Seq<char>)
    requires
        is_command_word(name),
    ensures
        name.len() > 0,
{
    reveal_strlit("add");
    reveal_strlit("a");
    reveal_strlit("add-auto");
    reveal_strlit("aa");
    reveal_strlit("delete");
    reveal_strlit("d");
    reveal_strlit("track-up");
    reveal_strlit("tup");
    reveal_strlit("track-down");
    reveal_strlit("tdown");
    reveal_strlit("h");
    reveal_strlit("?");
    reveal_strlit("help");
    reveal_strlit("mprev");
    reveal_strlit("month-prev");
    reveal_strlit("mnext");
    reveal_strlit("month-next");
    reveal_strlit("wq");
    reveal_strlit("writeandquit");
    reveal_strlit("q");
    reveal_strlit("quit");
    reveal_strlit("w");
    reveal_strlit("write");
}

/// A line is the blank command exactly when nothing stands before its first
/// space, once it is trimmed.
pub proof fn lemma_blank_iff_no_command_name(input: Seq<char>)
    ensures
        parse_command(input) == Ok::<CommandView, CommandLineErrorView>(CommandView::Blank)
            <==> command_name(trim(input)).len() == 0,
{
    let name = command_name(trim(input));
    if is_command_word(name) {
        lemma_command_words_are_not_empty(name);
    }
}

/// A command name that is not empty and names no command is refused with
/// the name as it was typed, whatever follows it.
pub proof fn lemma_unknown_command_name_is_refused(input: Seq<char>)
    requires
        command_name(trim(input)).len() > 0,
        !is_command_word(command_name(trim(input))),
    ensures
        parse_command(input) == Err::<CommandView, CommandLineErrorView>(
            CommandLineErrorView::InvalidCommand(command_name(trim(input))),
        ),
{
}

/// Reads an `add` command from its name and arguments.
fn add_from_words(name: &str, args: &Vec<String>, auto: bool) -> (r: Result<
    Command,
    CommandLineError,
>)
    ensures
        result_view(r) == parse_add(name@, texts(args@), auto),
{
    if args.len() < 1 {
        return Err(CommandLineError::NotEnoughArgs(name.to_owned(), 1));
    }
    if args.len() < 2 {
        return Ok(Command::Add(args[0].clone(), None, auto));
    }
    match GoalKind::from_str(args[1].as_str()) {
        Ok(goal) => Ok(Command::Add(args[0].clone(), Some(goal), auto)),
        Err(e) => Err(e),
    }
}

impl Command {
    /// Reads a line of input.
    ///
    /// Every line is either a command or an error that says why it is none.
    pub fn from_string(input: &str) -> (r: Result<Command, CommandLineError>)
        ensures
            result_view(r) == parse_command(input@),
    {
        let (name, args) = split_line(trimmed(input));
        assert(args.len() >= 1 ==> args[0]@ == texts(args@)[0]);
        if same_text(name, "add") || same_text(name, "a") {
            add_from_words(name, &args, false)
        } else if same_text(name, "add-auto") || same_text(name, "aa") {
            add_from_words(name, &args, true)
        } else if same_text(name, "delete") || same_text(name, "d") {
            if args.len() < 1 {
                Err(CommandLineError::NotEnoughArgs(name.to_owned(), 1))
            } else {
                Ok(Command::Delete(args[0].clone()))
            }
        } else if same_text(name, "track-up") || same_text(name, "tup") {
            if args.len() < 1 {
                Err(CommandLineError::NotEnoughArgs(name.to_owned(), 1))
            } else {
                Ok(Command::TrackUp(args[0].clone()))
            }
        } else if same_text(name, "track-down") || same_text(name, "tdown") {
            if args.len() < 1 {
                Err(CommandLineError::NotEnoughArgs(name.to_owned(), 1))
            } else {
                Ok(Command::TrackDown(args[0].clone()))
            }
        } else if same_text(name, "h") || same_text(name, "?") || same_text(name, "help") {
            if args.len() < 1 {
                Ok(Command::Help(None))
            } else {
                Ok(Command::Help(Some(args[0].clone())))
            }
        } else if same_text(name, "mprev") || same_text(name, "month-prev") {
            Ok(Command::MonthPrev)
        } else if same_text(name, "mnext") || same_text(name, "month-next") {
            Ok(Command::MonthNext)
        } else if same_text(name, "wq") || same_text(name, "writeandquit") {
            Ok(Command::WriteAndQuit)
        } else if same_text(name, "q") || same_text(name, "quit") {
            Ok(Command::Quit)
        } else if same_text(name, "w") || same_text(name, "write") {
            Ok(Command::Write)
        } else if name.unicode_len() == 0 {
            Ok(Command::Blank)
        } else {
            Err(CommandLineError::InvalidCommand(name.to_owned()))
        }
    }
}

/// The names of the commands, in the order in which completion offers them.
pub open spec fn command_names() -> Seq<Seq<char>> {
    seq![
        "add"@,
        "add-auto"@,
        "delete"@,
        "track-up"@,
        "track-down"@,
        "month-prev"@,
        "month-next"@,
        "quit"@,
        "write"@,
        "help"@,
        "writeandquit"@,
    ]
}

/// The first of `names` that begins with `prefix`, if any does.
pub open spec fn first_with_prefix(names: Seq<Seq<char>>, prefix: Seq<char>) -> Option<
    Seq<char>,
>
    decreases names.len(),
{
    if names.len() == 0 {
        None
    } else if prefix.is_prefix_of(names[0]) {
        Some(names[0])
    } else {
        first_with_prefix(names.drop_first(), prefix)
    }
}

/// The text of a string that may be missing.
pub open spec fn option_text(s: Option<String>) -> Option<Seq<char>> {
    match s {
        Some(s) => Some(s@),
        None => None,
    }
}

/// The texts of a list of string literals.
pub open spec fn literal_texts(v: Seq<&'static str>) -> Seq<Seq<char>> {
    v.map_values(|s: &'static str| s@)
}

/// The command names as a list.
fn command_list() -> (names: Vec<&'static str>)
    ensures
        literal_texts(names@) == command_names(),
{
    let mut names: Vec<&'static str> = Vec::new();
    names.push("add");
    names.push("add-auto");
    names.push("delete");
    names.push("track-up");
    names.push("track-down");
    names.push("month-prev");
    names.push("month-next");
    names.push("quit");
    names.push("write");
    names.push("help");
    names.push("writeandquit");
    assert(literal_texts(names@) =~= command_names());
    names
}

/// The first command name that begins with `prefix`.
pub fn get_command_completion(prefix: &str) -> (r: Option<String>)
    ensures
        option_text(r) == first_with_prefix(command_names(), prefix@),
{
    let names = command_list();
    let ghost all = literal_texts(names@);
    let mut i: usize = 0;
    assert(all.skip(0) =~= all);
    while i < names.len()
        invariant
            i <= names.len(),
            all == literal_texts(names@),
            all == command_names(),
            first_with_prefix(all, prefix@) == first_with_prefix(all.skip(i as int), prefix@),
        decreases names.len() - i,
    {
        assert(all.skip(i as int)[0] == names[i as int]@);
        assert(all.skip(i as int).drop_first() =~= all.skip(i + 1));
        if starts_with(names[i], prefix) {
            return Some(String::from_str(names[i]));
        }
        i += 1;
    }
    None
}

/// The first habit name that begins with `prefix`.
pub fn get_habit_completion(prefix: &str, habit_names: &[String]) -> (r: Option<String>)
    ensures
        option_text(r) == first_with_prefix(texts(habit_names@), prefix@),
{
    let ghost all = texts(habit_names@);
    let mut i: usize = 0;
    assert(all.skip(0) =~= all);
    while i < habit_names.len()
        invariant
            i <= habit_names.len(),
            all == texts(habit_names@),
            first_with_prefix(all, prefix@) == first_with_prefix(all.skip(i as int), prefix@),
        decreases habit_names.len() - i,
    {
        assert(all.skip(i as int)[0] == habit_names[i as int]@);
        assert(all.skip(i as int).drop_first() =~= all.skip(i + 1));
        if starts_with(habit_names[i].as_str(), prefix) {
            return Some(habit_names[i].clone());
        }
        i += 1;
    }
    None
}

/// The part of `s` after its last space; all of `s` where it has none.
pub open spec fn last_word(s: Seq<char>) -> Seq<char>
    decreases s.len(),
{
    if s.len() == 0 || s.last() == ' ' {
        Seq::empty()
    } else {
        last_word(s.drop_last()).push(s.last())
    }
}

/// What a command line becomes when it is completed.
///
/// A line without a space is a command name in the making: it becomes the
/// first command name that begins with it. In any other line the last word
/// is a habit name in the making: the line is filled up to the first habit
/// name that begins with that word. Where nothing begins so, there is no
/// completion.
pub open spec fn completed_line(contents: Seq<char>, habit_names: Seq<Seq<char>>) -> Option<
    Seq<char>,
> {
    if !contents.contains(' ') {
        first_with_prefix(command_names(), contents)
    } else {
        match first_with_prefix(habit_names, last_word(contents)) {
            Some(name) => Some(contents + name.skip(last_word(contents).len() as int)),
            None => None,
        }
    }
}

/// Completes a command line.
pub fn complete_line(contents: &str, habit_names: &[String]) -> (r: Option<String>)
    ensures
        option_text(r) == completed_line(contents@, texts(habit_names@)),
{
    let n = contents.unicode_len();
    let mut start: usize = n;
    assert(contents@.take(n as int) =~= contents@);
    assert(contents@.subrange(n as int, n as int) =~= Seq::empty());
    assert(last_word(contents@) + Seq::<char>::empty() =~= last_word(contents@));
    while start > 0 && contents.get_char(start - 1) != ' '
        invariant
            n == contents@.len(),
            start <= n,
            last_word(contents@) == last_word(contents@.take(start as int)) + contents@.subrange(
                start as int,
                n as int,
            ),
            forall|k: int| start <= k < n ==> contents@[k] != ' ',
        decreases start,
    {
        let ghost head = contents@.take(start as int);
        assert(head.drop_last() =~= contents@.take(start - 1));
        assert(last_word(head.drop_last()).push(head.last()) + contents@.subrange(
            start as int,
            n as int,
        ) =~= last_word(head.drop_last()) + contents@.subrange(start - 1, n as int));
        start -= 1;
    }
    if start == 0 {
        assert(!contents@.contains(' '));
        return get_command_completion(contents);
    }
    assert(contents@[start - 1] == ' ');
    assert(contents@.take(start as int).last() == ' ');
    assert(Seq::<char>::empty() + contents@.subrange(start as int, n as int)
        =~= contents@.subrange(start as int, n as int));
    let word = contents.substring_char(start, n);
    match get_habit_completion(word, habit_names) {
        Some(name) => {
            proof {
                lemma_first_with_prefix_begins(texts(habit_names@), word@);
            }
            let mut line = contents.to_owned();
            let rest = name.as_str().substring_char(n - start, name.as_str().unicode_len());
            assert(rest@ =~= name@.skip(word@.len() as int));
            line.append(rest);
            Some(line)
        },
        None => None,
    }
}

/// What `first_with_prefix` finds begins with the prefix.
pub proof fn lemma_first_with_prefix_begins(names: Seq<Seq<char>>, prefix: Seq<char>)
    ensures
        first_with_prefix(names, prefix) matches Some(name) ==> prefix.is_prefix_of(name),
    decreases names.len(),
{
    if names.len() > 0 && !prefix.is_prefix_of(names[0]) {
        lemma_first_with_prefix_begins(names.drop_first(), prefix);
    }
}

} // verus!
