use dijo::command::goal::parse_number;
use dijo::command::words::{is_whitespace_char, split_line, split_words, trimmed};
use dijo::command::complete_line;
use dijo::{get_command_completion, get_habit_completion, Command, CommandLineError, GoalKind};

fn add(name: &str, goal: Option<GoalKind>, auto: bool) -> Result<Command, CommandLineError> {
    Ok(Command::Add(name.to_string(), goal, auto))
}

fn bad_goal(s: &str) -> Result<Command, CommandLineError> {
    Err(CommandLineError::InvalidGoal(s.to_string()))
}

#[test]
fn add_with_a_quoted_name_and_a_count() {
    assert_eq!(
        Command::from_string("add \"eat healthy\" 5"),
        add("eat healthy", Some(GoalKind::Count(5)), false)
    );
}

#[test]
fn add_auto_sets_the_flag() {
    assert_eq!(Command::from_string("add-auto eat 2"), add("eat", Some(GoalKind::Count(2)), true));
    assert_eq!(Command::from_string("aa eat 2"), add("eat", Some(GoalKind::Count(2)), true));
    assert_eq!(Command::from_string("a eat 2"), add("eat", Some(GoalKind::Count(2)), false));
}

#[test]
fn add_without_a_goal() {
    assert_eq!(Command::from_string("add eat"), add("eat", None, false));
    assert_eq!(Command::from_string("add-auto eat"), add("eat", None, true));
}

#[test]
fn a_plain_number_is_a_count_whatever_it_is() {
    assert_eq!(Command::from_string("add x 1"), add("x", Some(GoalKind::Count(1)), false));
    assert_eq!(Command::from_string("add x 0"), add("x", Some(GoalKind::Count(0)), false));
    assert_eq!(Command::from_string("add x +5"), add("x", Some(GoalKind::Count(5)), false));
    assert_eq!(Command::from_string("add x 007"), add("x", Some(GoalKind::Count(7)), false));
    assert_eq!(
        Command::from_string("add x 4294967295"),
        add("x", Some(GoalKind::Count(u32::MAX)), false)
    );
}

#[test]
fn goals_to_stay_under() {
    assert_eq!(Command::from_string("add x <3"), add("x", Some(GoalKind::Addiction(3)), false));
    assert_eq!(Command::from_string("add x <+3"), add("x", Some(GoalKind::Addiction(3)), false));
    assert_eq!(Command::from_string("add x <"), bad_goal("<"));
    assert_eq!(Command::from_string("add x <x"), bad_goal("<x"));
    assert_eq!(Command::from_string("add x <1.5"), bad_goal("<1.5"));
    assert_eq!(Command::from_string("add x <4294967296"), bad_goal("<4294967296"));
}

#[test]
fn fixed_point_goals() {
    assert_eq!(Command::from_string("add x 1.5"), add("x", Some(GoalKind::Float(15, 1)), false));
    assert_eq!(Command::from_string("add x 2.50"), add("x", Some(GoalKind::Float(250, 2)), false));
    assert_eq!(Command::from_string("add x 1."), add("x", Some(GoalKind::Float(1, 0)), false));
    assert_eq!(Command::from_string("add x .5"), add("x", Some(GoalKind::Float(5, 1)), false));
    assert_eq!(Command::from_string("add x 0.125"), add("x", Some(GoalKind::Float(125, 3)), false));
    assert_eq!(Command::from_string("add x a.5"), add("x", Some(GoalKind::Float(5, 1)), false));
    assert_eq!(Command::from_string("add x 1.2.3"), add("x", Some(GoalKind::Float(123, 3)), false));
    assert_eq!(Command::from_string("add x ."), bad_goal("."));
    assert_eq!(Command::from_string("add x a.b"), bad_goal("a.b"));
    assert_eq!(Command::from_string("add x 42949672.96"), bad_goal("42949672.96"));
    assert_eq!(
        Command::from_string("add x 42949672.95"),
        add("x", Some(GoalKind::Float(u32::MAX, 2)), false)
    );
}

#[test]
fn the_number_of_decimals_is_kept_to_eight_bits() {
    let goal = format!("1.{}", "x".repeat(300));
    assert_eq!(GoalKind::from_str(&goal), Ok(GoalKind::Float(1, 44)));
    let goal = format!("1.{}", "x".repeat(256));
    assert_eq!(GoalKind::from_str(&goal), Ok(GoalKind::Float(1, 0)));
    let goal = format!("1.{}", "x".repeat(255));
    assert_eq!(GoalKind::from_str(&goal), Ok(GoalKind::Float(1, 255)));
}

#[test]
fn invalid_goals() {
    assert_eq!(Command::from_string("add x abc"), bad_goal("abc"));
    assert_eq!(Command::from_string("add x -1"), bad_goal("-1"));
    assert_eq!(Command::from_string("add x +"), bad_goal("+"));
    assert_eq!(Command::from_string("add x ++1"), bad_goal("++1"));
    assert_eq!(Command::from_string("add x 1x"), bad_goal("1x"));
    assert_eq!(Command::from_string("add x 4294967296"), bad_goal("4294967296"));
    assert_eq!(Command::from_string("add x 99999999999999999999999"), bad_goal("99999999999999999999999"));
    assert_eq!(Command::from_string("add  x"), bad_goal("x"));
    assert_eq!(GoalKind::from_str(""), Err(CommandLineError::InvalidGoal(String::new())));
}

#[test]
fn goal_expressions_alone() {
    assert_eq!(GoalKind::from_str("5"), Ok(GoalKind::Count(5)));
    assert_eq!(GoalKind::from_str("1"), Ok(GoalKind::Count(1)));
    assert_eq!(GoalKind::from_str("<5"), Ok(GoalKind::Addiction(5)));
    assert_eq!(GoalKind::from_str("1.5"), Ok(GoalKind::Float(15, 1)));
}

#[test]
fn numbers_read_as_the_standard_library_reads_them() {
    for s in [
        "", "0", "1", "+1", "-1", "+", "-", "++1", "+-1", "12a", "a12", " 1", "1 ", "00012",
        "4294967295", "4294967296", "+4294967295", "42949672950", "18446744073709551616",
        "\u{661}", "1_000", "0x10",
    ] {
        assert_eq!(parse_number(s), s.parse::<u32>().ok(), "{:?}", s);
    }
}

#[test]
fn commands_that_need_a_name() {
    assert_eq!(Command::from_string("delete eat"), Ok(Command::Delete("eat".to_string())));
    assert_eq!(Command::from_string("d eat"), Ok(Command::Delete("eat".to_string())));
    assert_eq!(Command::from_string("track-up eat"), Ok(Command::TrackUp("eat".to_string())));
    assert_eq!(Command::from_string("tup eat"), Ok(Command::TrackUp("eat".to_string())));
    assert_eq!(Command::from_string("track-down eat"), Ok(Command::TrackDown("eat".to_string())));
    assert_eq!(Command::from_string("tdown eat"), Ok(Command::TrackDown("eat".to_string())));
    assert_eq!(Command::from_string("delete eat more"), Ok(Command::Delete("eat".to_string())));
}

#[test]
fn missing_arguments() {
    for name in ["add", "a", "add-auto", "aa", "delete", "d", "track-up", "tup", "track-down", "tdown"] {
        assert_eq!(
            Command::from_string(name),
            Err(CommandLineError::NotEnoughArgs(name.to_string(), 1))
        );
    }
}

#[test]
fn help_with_and_without_a_topic() {
    for name in ["help", "h", "?"] {
        assert_eq!(Command::from_string(name), Ok(Command::Help(None)));
        assert_eq!(
            Command::from_string(&format!("{} add", name)),
            Ok(Command::Help(Some("add".to_string())))
        );
    }
}

#[test]
fn commands_without_arguments() {
    assert_eq!(Command::from_string("month-prev"), Ok(Command::MonthPrev));
    assert_eq!(Command::from_string("mprev"), Ok(Command::MonthPrev));
    assert_eq!(Command::from_string("month-next"), Ok(Command::MonthNext));
    assert_eq!(Command::from_string("mnext"), Ok(Command::MonthNext));
    assert_eq!(Command::from_string("quit"), Ok(Command::Quit));
    assert_eq!(Command::from_string("q"), Ok(Command::Quit));
    assert_eq!(Command::from_string("write"), Ok(Command::Write));
    assert_eq!(Command::from_string("w"), Ok(Command::Write));
    assert_eq!(Command::from_string("writeandquit"), Ok(Command::WriteAndQuit));
    assert_eq!(Command::from_string("wq"), Ok(Command::WriteAndQuit));
    assert_eq!(Command::from_string("q now"), Ok(Command::Quit));
}

#[test]
fn blank_input_is_the_blank_command() {
    assert_eq!(Command::from_string(""), Ok(Command::Blank));
    assert_eq!(Command::from_string("   "), Ok(Command::Blank));
    assert_eq!(Command::from_string("\t\n"), Ok(Command::Blank));
    assert_eq!(Command::from_string(" \u{2003} "), Ok(Command::Blank));
}

#[test]
fn a_quote_in_the_command_name_is_a_character_like_any_other() {
    for (line, name) in [
        ("\"", "\""),
        ("\"\"", "\"\""),
        ("\"quit\"", "\"quit\""),
        ("q\"", "q\""),
        ("\"add\" x", "\"add\""),
        ("\"x y\" z", "\"x"),
        ("\"add x\"", "\"add"),
        ("  \"q\"  ", "\"q\""),
    ] {
        assert_eq!(
            Command::from_string(line),
            Err(CommandLineError::InvalidCommand(name.to_string())),
            "{:?}",
            line
        );
    }
}

#[test]
fn the_command_name_ends_at_the_first_space() {
    assert_eq!(split_line(""), ("", vec![]));
    assert_eq!(split_line("q"), ("q", vec![]));
    assert_eq!(split_line("a b"), ("a", vec!["b".to_string()]));
    assert_eq!(split_line("a  b"), ("a", vec!["".to_string(), "b".to_string()]));
    assert_eq!(split_line(" a"), ("", vec!["a".to_string()]));
    assert_eq!(split_line("a\"b c\" \"d e\" f"), ("a\"b", vec!["c d".to_string(), "e f".to_string()]));
    assert_eq!(split_line("\"a b\" c"), ("\"a", vec!["b c".to_string()]));
    for line in ["", "a", "a b c", "a  b ", "x y  z   "] {
        let (name, args) = split_line(line);
        let mut all = vec![name.to_string()];
        all.extend(args);
        let expected: Vec<&str> = line.split(' ').collect();
        assert_eq!(all, expected, "{:?}", line);
    }
}

#[test]
fn unknown_commands() {
    assert_eq!(
        Command::from_string("frobnicate x"),
        Err(CommandLineError::InvalidCommand("frobnicate".to_string()))
    );
    assert_eq!(
        Command::from_string("ADD x"),
        Err(CommandLineError::InvalidCommand("ADD".to_string()))
    );
    assert_eq!(
        Command::from_string("addx"),
        Err(CommandLineError::InvalidCommand("addx".to_string()))
    );
}

#[test]
fn white_space_around_a_line_is_dropped() {
    assert_eq!(Command::from_string("  q  "), Ok(Command::Quit));
    assert_eq!(Command::from_string("\tq\r\n"), Ok(Command::Quit));
    assert_eq!(Command::from_string("\u{a0}q\u{3000}"), Ok(Command::Quit));
    assert_eq!(
        Command::from_string("\u{200b}q"),
        Err(CommandLineError::InvalidCommand("\u{200b}q".to_string()))
    );
    assert_eq!(
        Command::from_string("q\tnow"),
        Err(CommandLineError::InvalidCommand("q\tnow".to_string()))
    );
}

#[test]
fn white_space_is_what_the_standard_library_calls_so() {
    for code in 0..0x3100u32 {
        if let Some(c) = char::from_u32(code) {
            assert_eq!(is_whitespace_char(c), c.is_whitespace(), "{:?}", c);
        }
    }
    for s in ["", " ", "  a  ", "a b", "\u{2003}a\u{2003}b\u{2003}", "\n\ta", "a\u{85}", "\u{1680}"] {
        assert_eq!(trimmed(s), s.trim(), "{:?}", s);
    }
}

#[test]
fn words_are_cut_at_single_spaces() {
    assert_eq!(split_words(""), vec![""]);
    assert_eq!(split_words("a"), vec!["a"]);
    assert_eq!(split_words("a b"), vec!["a", "b"]);
    assert_eq!(split_words("a  b"), vec!["a", "", "b"]);
    assert_eq!(split_words(" a "), vec!["", "a", ""]);
    assert_eq!(split_words("a\tb"), vec!["a\tb"]);
    for s in ["", "a", "a b c", "  ", "a  b ", "x y  z   "] {
        let expected: Vec<&str> = s.split(' ').collect();
        assert_eq!(split_words(s), expected, "{:?}", s);
    }
}

#[test]
fn quotes_keep_words_together() {
    assert_eq!(split_words("\"a b\" c"), vec!["a b", "c"]);
    assert_eq!(split_words("a\"b c\"d e"), vec!["ab cd", "e"]);
    assert_eq!(split_words("\"a b"), vec!["a b"]);
    assert_eq!(split_words("\"\" x"), vec!["", "x"]);
    assert_eq!(split_words("\"a\" \"b\""), vec!["a", "b"]);
    assert_eq!(
        Command::from_string("delete \"morning run\""),
        Ok(Command::Delete("morning run".to_string()))
    );
    assert_eq!(
        Command::from_string("track-up \"a b"),
        Ok(Command::TrackUp("a b".to_string()))
    );
    assert_eq!(
        Command::from_string("add \"eat healthy\" \"1.5\""),
        add("eat healthy", Some(GoalKind::Float(15, 1)), false)
    );
}

#[test]
fn errors_say_what_is_wrong() {
    assert_eq!(
        CommandLineError::InvalidCommand("foo".to_string()).to_string(),
        "Invalid command: `foo`"
    );
    assert_eq!(CommandLineError::InvalidArg(3).to_string(), "Invalid argument at position 3");
    assert_eq!(
        CommandLineError::InvalidArg(u32::MAX).to_string(),
        "Invalid argument at position 4294967295"
    );
    assert_eq!(
        CommandLineError::NotEnoughArgs("add".to_string(), 1).to_string(),
        "Command `add` requires atleast 1 argument(s)!"
    );
    assert_eq!(
        CommandLineError::NotEnoughArgs("x".to_string(), 120).to_string(),
        "Command `x` requires atleast 120 argument(s)!"
    );
    assert_eq!(
        CommandLineError::InvalidGoal("1..".to_string()).to_string(),
        "Invalid goal expression: `1..`"
    );
}

#[test]
fn command_names_complete_in_their_order() {
    assert_eq!(get_command_completion(""), Some("add".to_string()));
    assert_eq!(get_command_completion("a"), Some("add".to_string()));
    assert_eq!(get_command_completion("add"), Some("add".to_string()));
    assert_eq!(get_command_completion("add-"), Some("add-auto".to_string()));
    assert_eq!(get_command_completion("d"), Some("delete".to_string()));
    assert_eq!(get_command_completion("t"), Some("track-up".to_string()));
    assert_eq!(get_command_completion("track-d"), Some("track-down".to_string()));
    assert_eq!(get_command_completion("m"), Some("month-prev".to_string()));
    assert_eq!(get_command_completion("month-n"), Some("month-next".to_string()));
    assert_eq!(get_command_completion("q"), Some("quit".to_string()));
    assert_eq!(get_command_completion("w"), Some("write".to_string()));
    assert_eq!(get_command_completion("writea"), Some("writeandquit".to_string()));
    assert_eq!(get_command_completion("h"), Some("help".to_string()));
    assert_eq!(get_command_completion("x"), None);
    assert_eq!(get_command_completion("addd"), None);
}

#[test]
fn habit_names_complete_in_their_order() {
    let names = vec!["eat".to_string(), "pushups".to_string(), "pullups".to_string()];
    assert_eq!(get_habit_completion("p", &names), Some("pushups".to_string()));
    assert_eq!(get_habit_completion("pul", &names), Some("pullups".to_string()));
    assert_eq!(get_habit_completion("", &names), Some("eat".to_string()));
    assert_eq!(get_habit_completion("x", &names), None);
    assert_eq!(get_habit_completion("eats", &names), None);
    assert_eq!(get_habit_completion("e", &[]), None);
}

#[test]
fn lines_complete_by_command_or_habit() {
    let names = vec!["eat".to_string(), "pushups".to_string()];
    assert_eq!(complete_line("de", &names), Some("delete".to_string()));
    assert_eq!(complete_line("pu", &names), None);
    assert_eq!(complete_line("track-up pu", &names), Some("track-up pushups".to_string()));
    assert_eq!(complete_line("track-up ", &names), Some("track-up eat".to_string()));
    assert_eq!(complete_line("track-up x", &names), None);
    assert_eq!(complete_line("a b e", &names), Some("a b eat".to_string()));
    assert_eq!(complete_line("", &names), Some("add".to_string()));
}

#[test]
fn goal_expressions_parse_as_text_does() {
    assert_eq!("5".parse::<GoalKind>(), Ok(GoalKind::Count(5)));
    assert_eq!("<5".parse::<GoalKind>(), Ok(GoalKind::Addiction(5)));
    assert_eq!("x".parse::<GoalKind>(), Err(CommandLineError::InvalidGoal("x".to_string())));
}
