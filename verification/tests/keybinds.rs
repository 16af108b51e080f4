use dijo::keybinds::{Bind, KeyBinds, Movement};
use dijo::Event;

#[test]
fn normal_keybind() {
    let bind = "X";
    let expected = Event::Char('X');
    assert_eq!(Event::from(bind), expected);
}

#[test]
fn control_keybind() {
    let bind = "C-x";
    let expected = Event::CtrlChar('x');
    assert_eq!(Event::from(bind), expected);
}

#[test]
fn lower_case_control_keybind() {
    let bind = "c-x";
    let expected = Event::CtrlChar('x');
    assert_eq!(Event::from(bind), expected);
}

#[test]
fn long_and_wrong_keybind_is_no_key() {
    let bind = "alksdjfalkjdf";
    assert_eq!(Event::from_key(bind), None);
}

#[test]
fn keys_of_other_shapes_are_no_keys() {
    assert_eq!(Event::from_key(""), None);
    assert_eq!(Event::from_key("ab"), None);
    assert_eq!(Event::from_key("x-y"), None);
    assert_eq!(Event::from_key("c+x"), None);
    assert_eq!(Event::from_key("\u{e9}"), None);
    assert_eq!(Event::from_key("c-\u{e9}"), None);
    assert_eq!(Event::from_key("c-x "), None);
}

#[test]
fn from_key_reads_what_from_reads() {
    assert_eq!(Event::from_key("X"), Some(Event::Char('X')));
    assert_eq!(Event::from_key("-"), Some(Event::Char('-')));
    assert_eq!(Event::from_key("C-x"), Some(Event::CtrlChar('x')));
    assert_eq!(Event::from_key("c-l"), Some(Event::CtrlChar('l')));
}

#[test]
fn movement_takes_left_down_up_right() {
    let m = Movement::new('h', 'j', 'k', 'l');
    assert_eq!(m.left, Bind::Char('h'));
    assert_eq!(m.down, Bind::Char('j'));
    assert_eq!(m.up, Bind::Char('k'));
    assert_eq!(m.right, Bind::Char('l'));
}

#[test]
fn default_keybinds() {
    let k = KeyBinds::default();
    assert_eq!(k.grid, Movement::new('h', 'j', 'k', 'l'));
    assert_eq!(k.cursor, Movement::new('H', 'J', 'K', 'L'));
    assert_eq!(k.week_mode, Bind::Char('v'));
    assert_eq!(k.global_week_mode, Bind::Char('V'));
}

#[test]
fn binds_give_events() {
    assert_eq!(Bind::Char('a').to_event(), Event::Char('a'));
    assert_eq!(Bind::CtrlChar('a').to_event(), Event::Char('a'));
    assert_eq!(Bind::AltChar('a').to_event(), Event::AltChar('a'));
}
