use insh::input::{trim, white_space, Action, Effect, Event, Input};
use insh::keys::{Key, KeyEvent, KeyMods, TermEvent};

#[test]
fn blanks_are_trimmed_from_both_ends() {
    assert_eq!(trim("  hi there \n"), "hi there");
    assert_eq!(trim(" \t "), "");
    assert!(white_space('\t'));
    assert!(!white_space('x'));
}

#[test]
fn typing_and_control_q() {
    let mut input = Input::new();
    for c in "ok".chars() {
        input.handle(Event::TermEvent(TermEvent::KeyEvent(KeyEvent { key: Key::Char(c), mods: KeyMods::none() })));
    }
    assert_eq!(input.value(), "ok");
    assert_eq!(
        input.handle(Event::TermEvent(TermEvent::KeyEvent(KeyEvent { key: Key::Char('q'), mods: KeyMods::control() }))),
        Some(Effect::Unfocus)
    );
    assert_eq!(input.value(), "ok");
    assert!(matches!(Input::term_action(TermEvent::Paste(String::from("x"))), Some(Action::Paste { .. })));
}
