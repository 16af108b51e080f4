use dijo::text::{centered_string, decimal_string, same_text, signed_decimal_string, starts_with};
use dijo::utils::{
    base_char, clear_message, command_mode, cyan, dark_red, dark_white, down, left, light_black,
    magenta, monthly_stats, next_day, next_month, next_week, prev_day, prev_month, prev_week,
    return_false, return_true, right, up, weekly_stats,
};
use dijo::{
    default_auto, AppConfig, Characters, Colors, Date, InnerData, KeyBindings, Ledger, Message,
    MessageKind, ViewMode, GRID_WIDTH, VIEW_HEIGHT, VIEW_WIDTH,
};

#[test]
fn numbers_in_decimal() {
    for n in [0u128, 1, 9, 10, 11, 99, 100, 101, 4294967295, 18446744073709551616, u128::MAX] {
        assert_eq!(decimal_string(n), n.to_string());
    }
    for n in [0i64, 1, -1, 9, -9, 10, -10, 365, -365, i64::MAX, i64::MIN] {
        assert_eq!(signed_decimal_string(n), n.to_string());
    }
}

#[test]
fn texts_are_centred_with_the_odd_space_behind() {
    for s in ["", "a", "ab", "abc", "abcd", "\u{e9}", "\u{8def}"] {
        for width in 0..7usize {
            assert_eq!(centered_string(s, width), format!("{:^1$}", s, width), "{:?} {}", s, width);
        }
    }
}

#[test]
fn texts_compare_by_their_characters() {
    assert!(same_text("", ""));
    assert!(same_text("add", "add"));
    assert!(!same_text("add", "ad"));
    assert!(!same_text("ad", "add"));
    assert!(!same_text("add", "adc"));
    assert!(same_text("\u{e9}t\u{e9}", "\u{e9}t\u{e9}"));
    assert!(starts_with("add-auto", "add"));
    assert!(starts_with("add", "add"));
    assert!(starts_with("add", ""));
    assert!(!starts_with("ad", "add"));
    assert!(!starts_with("bdd", "a"));
    assert!(!starts_with("", "a"));
}

#[test]
fn view_modes_have_names() {
    assert_eq!(ViewMode::Day.to_string(), "DAY");
    assert_eq!(ViewMode::Week.to_string(), "WEEK");
    assert_eq!(ViewMode::Month.to_string(), "MONTH");
    assert_eq!(ViewMode::Year.to_string(), "YEAR");
    assert_eq!(ViewMode::default(), ViewMode::Day);
    assert!(!default_auto());
}

#[test]
fn inner_data_starts_in_day_mode() {
    let today = Date::from_days(738_000).unwrap();
    let mut data = InnerData::new_at(today);
    assert_eq!(data.cursor().0, today);
    assert_eq!(data.view_mode(), ViewMode::Day);
    data.set_view_mode(ViewMode::Year);
    assert_eq!(data.view_mode(), ViewMode::Year);
    data.move_cursor_at(dijo::Absolute::Left, today);
    assert_eq!(data.cursor().0.days(), 737_999);
    data.move_cursor_at(dijo::Absolute::Right, today);
    data.move_cursor_at(dijo::Absolute::Right, today);
    assert_eq!(data.cursor().0, today);
    assert_eq!(data.view_mode(), ViewMode::Year);
    let mut live = InnerData::new();
    assert_eq!(live.view_mode(), ViewMode::Day);
    let now = live.cursor().0;
    live.move_cursor(dijo::Absolute::Up);
    assert_eq!(live.cursor().0.days(), now.days() - 7);
    assert_eq!(InnerData::default().view_mode(), ViewMode::Day);
}

#[test]
fn messages() {
    let mut m = Message::startup();
    assert_eq!(m.contents(), "Type :add <habit-name> <goal> to get started, Ctrl-L to dismiss");
    assert_eq!(m.kind(), MessageKind::Info);
    m.set_kind(MessageKind::Hint);
    m.set_message("hello");
    assert_eq!(m.contents(), "hello");
    assert_eq!(m.kind(), MessageKind::Hint);
    m.clear();
    assert_eq!(m.contents(), "");
    assert_eq!(m.kind(), MessageKind::Hint);
    let from = Message::from("note");
    assert_eq!(from.contents(), "note");
    assert_eq!(from.kind(), MessageKind::Info);
    let empty = Message::default();
    assert_eq!(empty.contents(), "");
    assert_eq!(empty.kind(), MessageKind::Info);
}

#[test]
fn ledgers() {
    let a = Date::from_days(10).unwrap();
    let b = Date::from_days(-10).unwrap();
    let mut l: Ledger<u32> = Ledger::new();
    assert_eq!(l.len(), 0);
    assert_eq!(l.get(a), None);
    assert!(!l.contains(a));
    l.insert(a, 1);
    l.insert(b, 2);
    l.insert(a, 3);
    assert_eq!(l.len(), 2);
    assert_eq!(l.get(a), Some(&3));
    assert_eq!(l.get(b), Some(&2));
    assert!(l.contains(b));
    let mut entries = l.entries();
    entries.sort();
    assert_eq!(entries, vec![(b, 2), (a, 3)]);
    l.remove(a);
    l.remove(a);
    assert_eq!(l.len(), 1);
    assert_eq!(l.get(a), None);
    assert_eq!(l.entries(), vec![(b, 2)]);
}

#[test]
fn layout_constants() {
    assert_eq!(VIEW_WIDTH, 25);
    assert_eq!(VIEW_HEIGHT, 8);
    assert_eq!(GRID_WIDTH, 3);
}

#[test]
fn default_looks() {
    let look = Characters::default();
    assert_eq!(look.true_chr, '\u{8def}');
    assert_eq!(look.false_chr, '\u{8def}');
    assert_eq!(look.future_chr, '\u{8def}');
    assert!(look.bold_future);
    assert!(look.bold_today);
    assert!(!look.bold_past);
    assert_eq!(base_char(), '\u{8def}');
    assert!(return_true());
    assert!(!return_false());
}

#[test]
fn default_colours() {
    let c = Colors::default();
    assert_eq!(c.reached, "cyan");
    assert_eq!(c.todo, "magenta");
    assert_eq!(c.inactive, "light black");
    assert_eq!(c.future, "magenta");
    assert_eq!(c.cursor, "light black");
    assert_eq!(c.today, "dark white");
    assert_eq!(c.stats_bar_bg, "light black");
    assert_eq!(c.stats_bar_fg, "light black");
    assert_eq!(cyan(), "cyan");
    assert_eq!(magenta(), "magenta");
    assert_eq!(light_black(), "light black");
    assert_eq!(dark_white(), "dark white");
    assert_eq!(dark_red(), "dark white");
}

#[test]
fn default_keys() {
    let k = KeyBindings::default();
    assert_eq!(
        [k.up, k.down, k.left, k.right, k.prev_day, k.next_day, k.prev_week, k.next_week],
        ['k', 'j', 'h', 'l', 'H', 'L', 'K', 'J']
    );
    assert_eq!(
        [k.prev_month, k.next_month, k.weekly_stats, k.monthly_stats, k.clear_message, k.command_mode],
        ['[', ']', 'v', 'V', 'l', ':']
    );
    assert_eq!(
        [up(), down(), left(), right(), prev_day(), next_day(), prev_week(), next_week()],
        ['k', 'j', 'h', 'l', 'H', 'L', 'K', 'J']
    );
    assert_eq!(
        [prev_month(), next_month(), weekly_stats(), monthly_stats(), clear_message(), command_mode()],
        ['[', ']', 'v', 'V', 'l', ':']
    );
}

#[test]
fn configuration_hands_out_its_keys() {
    let mut c = AppConfig::default();
    assert_eq!(c.keybindings, KeyBindings::default());
    assert_eq!(c.look, Characters::default());
    assert_eq!(c.colors, Colors::default());
    c.keybindings = KeyBindings {
        up: 'a',
        down: 'b',
        left: 'c',
        right: 'd',
        prev_day: 'e',
        next_day: 'f',
        prev_week: 'g',
        next_week: 'h',
        prev_month: 'i',
        next_month: 'j',
        weekly_stats: 'k',
        monthly_stats: 'l',
        clear_message: 'm',
        command_mode: 'n',
    };
    assert_eq!(
        [
            c.move_up(),
            c.move_down(),
            c.move_left(),
            c.move_right(),
            c.move_prev_day(),
            c.move_next_day(),
            c.move_prev_week(),
            c.move_next_week(),
            c.move_prev_month(),
            c.move_next_month(),
            c.show_weekly_stats(),
            c.show_monthly_stats(),
            c.clear_msg(),
            c.cmd_mode(),
        ],
        ['a', 'b', 'c', 'd', 'e', 'f', 'g', 'h', 'i', 'j', 'k', 'l', 'm', 'n']
    );
}

#[test]
fn a_ledger_written_anew_from_its_entries_is_the_same() {
    let mut l: Ledger<u32> = Ledger::new();
    for n in 0..50 {
        l.insert(Date::from_days(700_000 + 3 * n).unwrap(), (n * n) as u32);
    }
    let entries = l.entries();
    assert_eq!(entries.len(), 50);
    let back = Ledger::from_entries(&entries);
    assert_eq!(back.len(), 50);
    for n in 0..150 {
        let d = Date::from_days(700_000 + n).unwrap();
        assert_eq!(back.get(d), l.get(d));
    }
    let mut reversed = entries.clone();
    reversed.reverse();
    let back = Ledger::from_entries(&reversed);
    for n in 0..150 {
        let d = Date::from_days(700_000 + n).unwrap();
        assert_eq!(back.get(d), l.get(d));
    }
}

#[test]
fn of_two_entries_for_a_date_the_later_counts() {
    let d = Date::from_days(700_000).unwrap();
    let e = Date::from_days(700_001).unwrap();
    let l = Ledger::from_entries(&vec![(d, 1u32), (e, 2), (d, 3)]);
    assert_eq!(l.len(), 2);
    assert_eq!(l.get(d), Some(&3));
    assert_eq!(l.get(e), Some(&2));
    let empty: Ledger<u32> = Ledger::from_entries(&vec![]);
    assert_eq!(empty.len(), 0);
}
