use insh::keys::{Key, KeyEvent, KeyMods, TermEvent};
use insh::phrase::{first_line_of, Effect, Event, Phrase, Props};

fn key(key: Key) -> Event {
    Event::TermEvent(TermEvent::KeyEvent(KeyEvent { key, mods: KeyMods::none() }))
}

#[test]
fn typing_asks_for_a_completion_of_what_was_typed() {
    let mut phrase = Phrase::new(Props { completable: true, value: None });
    match phrase.handle(key(Key::Char('a'))) {
        Some(Effect::RequestCompletion { uuid, partial }) => {
            assert_eq!(partial, "a");
            assert_eq!((uuid >> 76) & 0xf, 4);
            assert_eq!((uuid >> 62) & 0x3, 2);
            // The completion which answers it is shown after what was typed.
            phrase.handle(Event::Completion { uuid, completion: Some(String::from("abc")) });
            assert_eq!(phrase.current().completion_rest(), Some(String::from("bc")));
            // Tab takes it.
            assert_eq!(phrase.handle(key(Key::HorizontalTab)), None);
            assert_eq!(phrase.current().value(), "abc");
        }
        _ => panic!("no completion was asked for"),
    }
}

#[test]
fn a_stale_completion_is_ignored() {
    let mut phrase = Phrase::new(Props { completable: true, value: Some(String::from("x")) });
    phrase.handle(key(Key::Char('y')));
    phrase.handle(Event::Completion { uuid: 12345, completion: Some(String::from("xyz")) });
    assert_eq!(phrase.current().completion(), &None);
}

#[test]
fn a_phrase_which_is_not_completable_asks_for_nothing() {
    let mut phrase = Phrase::new(Props { completable: false, value: None });
    assert_eq!(phrase.handle(key(Key::Char('a'))), None);
    assert_eq!(phrase.handle(key(Key::Backspace)), None);
    assert_eq!(phrase.current().value(), "");
}

#[test]
fn enter_gives_the_phrase_and_stops_typing() {
    let mut phrase = Phrase::new(Props { completable: false, value: Some(String::from("foo")) });
    assert_eq!(
        phrase.handle(key(Key::CarriageReturn)),
        Some(Effect::Enter { phrase: String::from("foo") })
    );
    assert!(!phrase.current().is_focused());
    assert_eq!(phrase.current().completion_rest(), None);
}

#[test]
fn only_the_first_line_of_a_paste_is_taken() {
    let mut phrase = Phrase::new(Props { completable: false, value: Some(String::from("a")) });
    phrase.handle(Event::TermEvent(TermEvent::Paste(String::from("bc\r\nde"))));
    assert_eq!(phrase.current().value(), "abc");
    assert_eq!(
        phrase.handle(Event::TermEvent(TermEvent::Paste(String::from("\nxyz")))),
        Some(Effect::Bell)
    );
    assert_eq!(phrase.current().value(), "abc");
}

#[test]
fn the_first_line_is_the_one_lines_gives() {
    for text in ["", "a", "a\nb", "a\r\nb", "a\r", "\r\n", "ab\rc\nd", "\n"] {
        let expected: String = text.lines().next().unwrap_or_default().to_string();
        assert_eq!(first_line_of(&String::from(text)), expected, "{:?}", text);
    }
}

#[test]
fn keys_which_ask_nothing_ring_the_bell() {
    let mut phrase = Phrase::new(Props { completable: false, value: None });
    assert_eq!(
        phrase.handle(Event::TermEvent(TermEvent::KeyEvent(KeyEvent {
            key: Key::Char('x'),
            mods: KeyMods::control()
        }))),
        Some(Effect::Bell)
    );
    assert_eq!(
        phrase.handle(Event::TermEvent(TermEvent::KeyEvent(KeyEvent {
            key: Key::Char('q'),
            mods: KeyMods::control()
        }))),
        Some(Effect::Quit)
    );
}
