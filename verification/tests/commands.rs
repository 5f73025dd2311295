use insh::commands::{keys_string, CommandParser, KeyPattern, Parsed};
use insh::keys::{Key, KeyEvent, KeyMods};

fn plain(c: char) -> KeyEvent {
    KeyEvent { key: Key::Char(c), mods: KeyMods::none() }
}

fn parser() -> CommandParser<u8> {
    CommandParser::new()
        .bind(vec![KeyPattern::exact(Key::Char('j'), KeyMods::none())], 1)
        .bind(
            vec![
                KeyPattern::exact(Key::Char('y'), KeyMods::none()),
                KeyPattern::exact(Key::Char('y'), KeyMods::none()),
            ],
            2,
        )
        .bind(vec![KeyPattern::any(Key::CarriageReturn)], 3)
}

#[test]
fn a_bound_key_is_its_command() {
    let mut parser = parser();
    assert_eq!(parser.parse(plain('j')), Parsed::Command(1));
    assert!(parser.pending().is_empty());
}

#[test]
fn the_start_of_a_command_waits_for_the_rest() {
    let mut parser = parser();
    assert_eq!(parser.parse(plain('y')), Parsed::Pending);
    assert_eq!(parser.pending(), &vec![plain('y')]);
    assert_eq!(parser.parse(plain('y')), Parsed::Command(2));
    assert!(parser.pending().is_empty());
}

#[test]
fn keys_which_are_no_command_are_given_back_and_forgotten() {
    let mut parser = parser();
    assert_eq!(parser.parse(plain('y')), Parsed::Pending);
    assert_eq!(parser.parse(plain('q')), Parsed::Unknown(vec![plain('y'), plain('q')]));
    assert!(parser.pending().is_empty());
    assert_eq!(parser.parse(plain('j')), Parsed::Command(1));
}

#[test]
fn a_key_bound_with_any_modifiers_takes_them_all() {
    let mut parser = parser();
    let shifted = KeyEvent { key: Key::CarriageReturn, mods: KeyMods::shift() };
    assert_eq!(parser.parse(shifted), Parsed::Command(3));
    let controlled = KeyEvent { key: Key::Char('j'), mods: KeyMods::control() };
    assert_eq!(parser.parse(controlled), Parsed::Unknown(vec![controlled]));
}

#[test]
fn keys_are_written_as_they_are_typed() {
    assert_eq!(keys_string(&vec![plain('y'), plain('q')]), "yq");
    let shifted = KeyEvent { key: Key::Char('E'), mods: KeyMods::shift() };
    assert_eq!(keys_string(&vec![plain('y'), shifted]), "yE");
    let control = KeyEvent { key: Key::Char('q'), mods: KeyMods::control() };
    assert_eq!(keys_string(&vec![control]), "<C-q>");
    let enter = KeyEvent { key: Key::CarriageReturn, mods: KeyMods::none() };
    assert_eq!(keys_string(&vec![enter]), "<CR>");
    let up = KeyEvent { key: Key::Up, mods: KeyMods::shift() };
    assert_eq!(keys_string(&vec![up]), "<S-Up>");
    assert_eq!(keys_string(&vec![]), "");
}
