use insh::ai::{Effect, Event, AI};
use insh::keys::{Key, KeyEvent, KeyMods, TermEvent};
use insh::requests::{RequestParams, Response, ResponseParams};

fn press(key: Key, mods: KeyMods) -> Event {
    Event::TermEvent(TermEvent::KeyEvent(KeyEvent { key, mods }))
}

#[test]
fn what_is_typed_is_said_on_enter() {
    let mut ai = AI::new();
    assert!(ai.handle(press(Key::Char('h'), KeyMods::none())).is_none());
    assert!(ai.handle(press(Key::Char('i'), KeyMods::none())).is_none());
    assert_eq!(ai.state().value(), "hi");
    match ai.handle(press(Key::CarriageReturn, KeyMods::none())) {
        Some(Effect::Request(request)) => {
            assert_eq!(request.params, RequestParams::AIChat { input: String::from("hi") })
        }
        _ => panic!("enter has to say what was typed"),
    }
}

#[test]
fn an_answer_which_is_not_waited_for_is_ignored() {
    let mut ai = AI::new();
    let answer = Response { uuid: 3, last: true, params: ResponseParams::AIChat { text: String::from("yo") } };
    assert!(ai.handle(Event::Response(answer)).is_none());
    assert_eq!(ai.state().value(), "");
}

#[test]
fn control_q_leaves_and_other_keys_ring_the_bell() {
    let mut ai = AI::new();
    assert!(matches!(ai.handle(press(Key::Char('q'), KeyMods::control())), Some(Effect::Quit)));
    assert!(matches!(ai.handle(press(Key::HorizontalTab, KeyMods::none())), Some(Effect::Bell)));
    assert!(matches!(ai.handle(Event::TermEvent(TermEvent::Paste(String::from("x")))), Some(Effect::Bell)));
}
