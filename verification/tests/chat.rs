use insh::chat::{Chat, Effect, Event, Props};
use insh::keys::{Key, KeyEvent, KeyMods, Size, TermEvent};
use insh::requests::{Request, RequestParams, Response, ResponseParams};
use insh::transcript::Message;

fn chat(size: Size) -> Chat {
    Chat::new(Props { dir: String::from("/tmp"), size, prompt: None }, 1)
}

fn chat_with_prompt(size: Size, prompt: &str) -> Chat {
    Chat::new(Props { dir: String::from("/tmp"), size, prompt: Some(prompt.to_string()) }, 1)
}

fn press(key: Key, mods: KeyMods) -> Event {
    Event::Term {
        event: TermEvent::KeyEvent(KeyEvent { key, mods }),
        input_rows: 1,
        transcript_lines: 0,
    }
}

/// Everything the chat shows: what was said, what is being typed, and how the reply is coming
/// along.
fn shown(chat: &Chat) -> (Vec<Message>, String, Option<i64>, bool, String) {
    let messages = chat
        .transcript()
        .messages()
        .iter()
        .map(|m| match m {
            Message::Said(text) => Message::Said(text.clone()),
            Message::Heard(text) => Message::Heard(text.clone()),
        })
        .collect();
    (
        messages,
        chat.input().value().to_string(),
        chat.chat_id(),
        chat.in_progress(),
        chat.footer_text(),
    )
}

#[test]
fn test_a_new_conversation_puts_back_an_empty_chat() {
    let size: Size = Size::new(24, 80);
    let mut chat: Chat = chat(size);
    let empty = shown(&chat);

    chat.handle(press(Key::Char('h'), KeyMods::none()));
    chat.handle(press(Key::Char('i'), KeyMods::none()));
    chat.handle(press(Key::CarriageReturn, KeyMods::none()));
    assert_ne!(shown(&chat), empty, "What was said was never shown in the first place.");

    chat.handle(press(Key::Char('n'), KeyMods::control()));

    assert_eq!(shown(&chat), empty);
}

#[test]
fn test_a_reply_which_never_started_a_chat_leaves_no_chat_behind() {
    let size: Size = Size::new(24, 80);
    let mut chat: Chat = chat(size);

    chat.handle(press(Key::Char('h'), KeyMods::none()));
    let request: Request = match chat.handle(press(Key::CarriageReturn, KeyMods::none())) {
        Some(Effect::Request(request)) => request,
        _ => panic!("Saying something has to ask the daemon for a reply."),
    };

    chat.handle(Event::Response(Response {
        uuid: request.uuid,
        last: true,
        params: ResponseParams::Chat {
            chat_id: None,
            delta: String::new(),
            error: Some("No AI inference engine is configured.".to_string()),
            tokens: None,
            thinking_tokens: None,
            thinking: false,
            duration: 0,
        },
    }));

    // The next thing said starts a chat rather than going into one which is not there.
    chat.handle(press(Key::Char('h'), KeyMods::none()));
    let next: Request = match chat.handle(press(Key::CarriageReturn, KeyMods::none())) {
        Some(Effect::Request(request)) => request,
        _ => panic!("Saying something again has to ask the daemon for a reply."),
    };
    match next.params {
        RequestParams::Chat { chat_id, .. } => assert_eq!(chat_id, None),
        _ => panic!("The request has to be one for a reply."),
    }
}

#[test]
fn test_a_prompt_is_said_as_it_was_passed() {
    let size: Size = Size::new(24, 80);
    let mut chat: Chat = chat_with_prompt(size, "hi");

    let request: Request = match chat.handle(press(Key::CarriageReturn, KeyMods::none())) {
        Some(Effect::Request(request)) => request,
        _ => panic!("The prompt has to be said as soon as enter is pressed."),
    };

    match request.params {
        RequestParams::Chat { message, .. } => assert_eq!(message, "hi"),
        _ => panic!("The request has to be one for a reply."),
    }
}

#[test]
fn test_a_new_conversation_throws_away_what_was_being_typed() {
    let size: Size = Size::new(24, 80);
    let mut chat: Chat = chat(size);
    let empty = shown(&chat);

    chat.handle(press(Key::Char('h'), KeyMods::none()));
    chat.handle(press(Key::Char('i'), KeyMods::none()));
    assert_ne!(shown(&chat), empty, "What was being typed was never shown in the first place.");

    chat.handle(press(Key::Char('n'), KeyMods::control()));

    assert_eq!(shown(&chat), empty);
}

#[test]
fn a_reply_is_heard_in_pieces_and_ends_the_wait() {
    let mut chat: Chat = chat_with_prompt(Size::new(24, 80), "hello");
    let request: Request = match chat.handle(press(Key::CarriageReturn, KeyMods::none())) {
        Some(Effect::Request(request)) => request,
        _ => panic!("Saying something has to ask the daemon for a reply."),
    };
    assert!(chat.in_progress());
    for (delta, last) in [("Hel", false), ("lo!", true)] {
        chat.handle(Event::Response(Response {
            uuid: request.uuid,
            last,
            params: ResponseParams::Chat {
                chat_id: Some(7),
                delta: delta.to_string(),
                error: None,
                tokens: if last { Some(12) } else { None },
                thinking_tokens: None,
                thinking: false,
                duration: 1_500_000_000,
            },
        }));
    }
    assert!(!chat.in_progress());
    assert_eq!(chat.chat_id(), Some(7));
    assert_eq!(
        chat.transcript().messages(),
        &vec![Message::Said(String::from("hello")), Message::Heard(String::from("Hello!"))]
    );
    assert_eq!(chat.footer_text(), "12 tokens (1.50s)");
}

#[test]
fn the_past_chats_are_opened_and_quitting_leaves() {
    let mut chat: Chat = chat(Size::new(24, 80));
    assert!(matches!(
        chat.handle(press(Key::Char('h'), KeyMods::control())),
        Some(Effect::OpenHistory)
    ));
    assert!(matches!(
        chat.handle(press(Key::Char('q'), KeyMods::control())),
        Some(Effect::Quit)
    ));
}

#[test]
fn the_thinking_words_are_numbered() {
    assert_eq!(insh::chat::thinking_word_of(0), "Cogitating");
    assert_eq!(insh::chat::thinking_word_of(insh::chat::THINKING_WORD_COUNT - 1), "Reckoning");
}
