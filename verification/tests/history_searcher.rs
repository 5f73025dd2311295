use insh::history_searcher::{Effect, Event, Focus, HistorySearcher};
use insh::keys::{Key, KeyEvent, KeyMods, Size, TermEvent};
use insh::requests::{ChatSummary, RequestParams, Response, ResponseParams};

fn press(key: Key, mods: KeyMods) -> Event {
    Event::TermEvent(TermEvent::KeyEvent(KeyEvent { key, mods }))
}

fn summary(id: i64, title: &str) -> ChatSummary {
    ChatSummary { id, title: String::from(title) }
}

#[test]
fn a_search_opens_ready_to_be_typed_in() {
    let searcher = HistorySearcher::new(Size::new(10, 80));
    assert_eq!(searcher.focus(), Focus::Phrase);
    assert_eq!(searcher.list().len(), 0);
}

#[test]
fn entering_text_searches_and_the_chats_found_are_merged() {
    let mut searcher = HistorySearcher::new(Size::new(10, 80));
    for c in "rust".chars() {
        searcher.handle(press(Key::Char(c), KeyMods::none()));
    }
    let request = match searcher.handle(press(Key::CarriageReturn, KeyMods::none())) {
        Some(Effect::Request(request)) => request,
        _ => panic!("entering text has to search for it"),
    };
    match &request.params {
        RequestParams::SearchChats { text, .. } => assert_eq!(text, "rust"),
        _ => panic!("the search has to be of the chats"),
    }
    assert_eq!(searcher.focus(), Focus::Chats);

    let found = Response {
        uuid: request.uuid,
        last: true,
        params: ResponseParams::SearchChats {
            chats: vec![summary(1, "borrowing"), summary(2, "lifetimes")],
            hits: vec![summary(2, "lifetimes"), summary(3, "traits")],
        },
    };
    assert!(searcher.handle(Event::Response(found)).is_none());
    assert_eq!(searcher.list().len(), 3);
    assert_eq!(searcher.list().selected().unwrap().id, 1);

    searcher.handle(press(Key::Char('j'), KeyMods::none()));
    searcher.handle(press(Key::Char('j'), KeyMods::none()));
    assert_eq!(
        searcher.handle(press(Key::CarriageReturn, KeyMods::none())),
        Some(Effect::Open { id: 3 })
    );
}

#[test]
fn entering_nothing_searches_for_nothing() {
    let mut searcher = HistorySearcher::new(Size::new(10, 80));
    assert!(searcher.handle(press(Key::CarriageReturn, KeyMods::none())).is_none());
    assert_eq!(searcher.focus(), Focus::Chats);
}
