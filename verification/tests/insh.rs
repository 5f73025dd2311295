use insh::args::Command;
use insh::browser::PathKind;
use insh::config::Config;
use insh::insh::{Event, Insh, Mode, Props, Readings, Start, SystemEffect};
use insh::keys::{Key, KeyEvent, KeyMods, Size, TermEvent};
use insh::requests::{RequestParams, Response, ResponseParams};
use insh::transcript::Message;

fn readings() -> Readings {
    Readings {
        size: Size::new(24, 80),
        kind: PathKind::Other,
        directory: false,
        scaled: 0,
        input_rows: 1,
        transcript_lines: 0,
    }
}

fn insh(start: Start) -> Insh {
    Insh::new(Props::new(
        start,
        String::from("/home/pat"),
        Some(String::from("/home/pat")),
        Size::new(24, 80),
        1,
        None,
        None,
        Config::default(),
    ))
}

fn press(key: Key, mods: KeyMods) -> Event {
    Event::TermEvent(TermEvent::KeyEvent(KeyEvent { key, mods }))
}

#[test]
fn what_insh_starts_in_follows_the_command() {
    assert_eq!(Start::from(None), Start::Browser);
    assert_eq!(Start::from(Some(Command::Browse)), Start::Browser);
    assert_eq!(
        Start::from(Some(Command::Find { phrase: Some(String::from("main")) })),
        Start::Finder { phrase: Some(String::from("main")) }
    );
    assert_eq!(
        Start::from(Some(Command::Search { phrase: None })),
        Start::Searcher { phrase: None }
    );
    assert_eq!(
        Start::from(Some(Command::Chat { prompt: Some(String::from("hi")) })),
        Start::Chat { prompt: Some(String::from("hi")) }
    );
    assert_eq!(
        Start::from(Some(Command::Edit { browse: true, file_line_column: None })),
        Start::Browser
    );
    assert_eq!(
        Start::from(Some(Command::Edit { browse: false, file_line_column: None })),
        Start::Nothing
    );
}

#[test]
fn each_start_opens_its_mode_with_the_browser_behind_it() {
    let browsing = insh(Start::Browser);
    assert_eq!(browsing.mode(), Mode::Browse);
    assert!(browsing.browser().is_some());
    assert!(browsing.finder().is_none());

    let finding = insh(Start::Finder { phrase: Some(String::from("main")) });
    assert_eq!(finding.mode(), Mode::Finder);
    assert!(finding.browser().is_some());
    assert_eq!(finding.finder().unwrap().phrase().current().value(), "main");

    let chatting = insh(Start::Chat { prompt: Some(String::from("hi")) });
    assert_eq!(chatting.mode(), Mode::Chat);
    assert_eq!(chatting.chat().unwrap().input().value(), "hi");

    let nothing = insh(Start::Nothing);
    assert_eq!(nothing.mode(), Mode::Nothing);
    assert!(nothing.browser().is_none());
}

#[test]
fn starting_with_nothing_exits_on_anything() {
    let mut insh = insh(Start::Nothing);
    assert!(matches!(
        insh.handle(press(Key::Char('j'), KeyMods::none()), readings()),
        Some(SystemEffect::Exit)
    ));
}

#[test]
fn control_x_exits_whatever_is_showing() {
    for start in [Start::Browser, Start::Finder { phrase: None }, Start::Chat { prompt: None }] {
        let mut insh = insh(start);
        assert!(matches!(
            insh.handle(press(Key::Char('x'), KeyMods::control()), readings()),
            Some(SystemEffect::Exit)
        ));
    }
}

#[test]
fn the_answer_to_a_visit_is_dropped() {
    let mut insh = insh(Start::Browser);
    let response = Response { uuid: 5, last: true, params: ResponseParams::VisitDir };
    assert!(insh.handle(Event::Response(response), readings()).is_none());
    assert_eq!(insh.mode(), Mode::Browse);
}

#[test]
fn a_key_the_browser_does_not_know_rings_the_configured_bell() {
    let mut insh = insh(Start::Browser);
    assert!(matches!(
        insh.handle(press(Key::Char('z'), KeyMods::none()), readings()),
        Some(SystemEffect::Bell)
    ));
}

#[test]
fn the_finder_is_opened_from_the_browser_and_quits_back_to_it() {
    let mut insh = insh(Start::Browser);
    assert!(insh.handle(press(Key::Char('f'), KeyMods::none()), readings()).is_none());
    assert_eq!(insh.mode(), Mode::Finder);
    assert_eq!(insh.finder().unwrap().dir(), "/home/pat");

    // The finder was left in the directory the browser shows, so nothing is asked for.
    assert!(insh.handle(press(Key::Char('q'), KeyMods::control()), readings()).is_none());
    assert_eq!(insh.mode(), Mode::Browse);
}

#[test]
fn the_chat_opens_the_past_chats_which_ask_for_the_list() {
    let mut insh = insh(Start::Chat { prompt: None });
    match insh.handle(press(Key::Char('h'), KeyMods::control()), readings()) {
        Some(SystemEffect::Request(request)) => {
            assert!(matches!(request.params, RequestParams::ListChats { .. }));
        }
        _ => panic!("the past chats have to be asked for"),
    }
    assert_eq!(insh.mode(), Mode::History);
    assert!(insh.history().is_some());
}

#[test]
fn a_reply_goes_to_the_chat_while_the_past_chats_are_looked_through() {
    let mut insh = insh(Start::Chat { prompt: Some(String::from("hi")) });
    let request = match insh.handle(press(Key::CarriageReturn, KeyMods::none()), readings()) {
        Some(SystemEffect::Request(request)) => request,
        _ => panic!("saying something has to ask for a reply"),
    };
    insh.handle(press(Key::Char('h'), KeyMods::control()), readings());
    assert_eq!(insh.mode(), Mode::History);

    let reply = Response {
        uuid: request.uuid,
        last: true,
        params: ResponseParams::Chat {
            chat_id: Some(3),
            delta: String::from("hello"),
            error: None,
            tokens: None,
            thinking_tokens: None,
            thinking: false,
            duration: 0,
        },
    };
    assert!(insh.handle(Event::Response(reply), readings()).is_none());
    assert_eq!(insh.mode(), Mode::History);
    let chat = insh.chat().unwrap();
    assert_eq!(
        chat.transcript().messages(),
        &vec![Message::Said(String::from("hi")), Message::Heard(String::from("hello"))]
    );
    assert_eq!(chat.chat_id(), Some(3));
    assert!(!chat.in_progress());
}

#[test]
fn quitting_the_chat_goes_back_to_the_browser() {
    let mut insh = insh(Start::Chat { prompt: None });
    assert!(insh.handle(press(Key::Char('q'), KeyMods::control()), readings()).is_none());
    assert_eq!(insh.mode(), Mode::Browse);
}

#[test]
fn keys_can_be_handled_in_a_browser_before_its_entries_come() {
    let insh = insh(Start::Browser);
    assert!(insh.can_handle(&press(Key::Char('x'), KeyMods::control()), readings()));
    assert!(insh.can_handle(&press(Key::Char('j'), KeyMods::none()), readings()));
    assert!(insh.can_handle(&press(Key::Char('J'), KeyMods::shift()), readings()));
    assert!(insh.can_handle(&Event::TermEvent(TermEvent::Resize(Size::new(10, 40))), readings()));
}

#[test]
fn a_searcher_can_take_keys_and_a_resize() {
    let insh = insh(Start::Searcher { phrase: Some(String::from("main")) });
    assert_eq!(insh.mode(), Mode::Searcher);
    assert!(insh.can_handle(&press(Key::Char('j'), KeyMods::none()), readings()));
    assert!(insh.can_handle(&Event::TermEvent(TermEvent::Resize(Size::new(10, 40))), readings()));
}
