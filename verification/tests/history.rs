use insh::footer::Info;
use insh::history::{Chats, Effect, Entry, Event, History, Movement};
use insh::keys::{Key, KeyEvent, KeyMods, Size, TermEvent};
use insh::requests::{ChatSummary, RequestParams, Response, ResponseParams};

/// Return a list of the given number of chats, with the given number of rows to show them in.
fn chats(count: usize, rows: usize) -> Chats {
    let mut chats = Chats::default();
    chats.resize(rows);
    chats.show(
        (0..count)
            .map(|number| Entry { id: number as i64, title: number.to_string() })
            .collect(),
    );
    chats
}

fn down(chats: &mut Chats, times: usize) {
    let key_event = KeyEvent { key: Key::Char('j'), mods: KeyMods::none() };
    for _ in 0..times {
        if matches!(chats.handle(&key_event), Movement::Stuck) {
            break;
        }
    }
}

fn deletes(effect: Option<Effect>) -> bool {
    matches!(effect, Some(Effect::Request(request))
        if matches!(request.params, RequestParams::DeleteChat { .. }))
}

fn history() -> History {
    let mut history = History::new(Size::new(10, 20));
    history.handle(Event::Response(Response {
        uuid: 1,
        last: true,
        params: ResponseParams::ListChats {
            chats: vec![ChatSummary { id: 7, title: String::from("one") }],
        },
    }));
    history
}

fn press(history: &mut History, key: Key) -> Option<Effect> {
    history.handle(Event::TermEvent(TermEvent::KeyEvent(KeyEvent { key, mods: KeyMods::none() })))
}

#[test]
fn test_two_ds_delete_a_chat() {
    let mut history = history();

    assert!(!deletes(press(&mut history, Key::Char('d'))));
    assert!(deletes(press(&mut history, Key::Char('d'))));
}

#[test]
fn test_a_key_in_between_calls_the_delete_off() {
    let mut history = history();

    press(&mut history, Key::Char('d'));
    press(&mut history, Key::Char('k'));

    assert!(!deletes(press(&mut history, Key::Char('d'))));
}

#[test]
fn test_shift_jumps_to_the_ends_of_the_list() {
    let rows: usize = 5;
    let mut chats = chats(20, rows);

    let jump = |key: char| KeyEvent { key: Key::Char(key), mods: KeyMods::shift() };

    assert!(matches!(chats.handle(&jump('J')), Movement::Moved));
    assert_eq!(chats.selected().map(|entry| entry.id), Some(19));
    assert!(matches!(chats.handle(&jump('J')), Movement::Stuck));

    assert!(matches!(chats.handle(&jump('K')), Movement::Moved));
    assert_eq!(chats.selected().map(|entry| entry.id), Some(0));
    assert!(matches!(chats.handle(&jump('K')), Movement::Stuck));
}

#[test]
fn test_moving_down_keeps_the_selected_chat_in_view() {
    let rows: usize = 5;
    let mut chats = chats(20, rows);

    down(&mut chats, 19);

    // The last chat is the one selected, and it is on the last row of the screen.
    assert_eq!(chats.selected().map(|entry| entry.title.clone()), Some(String::from("19")));
    assert_eq!(chats.first_shown() + rows - 1, 19);
}

#[test]
fn the_deleted_chat_is_the_selected_one() {
    let mut history = history();
    press(&mut history, Key::Char('d'));
    match press(&mut history, Key::Char('d')) {
        Some(Effect::Request(request)) => {
            assert_eq!(request.params, RequestParams::DeleteChat { chat_id: 7 })
        }
        _ => panic!("the chat was not deleted"),
    }
}

#[test]
fn a_deleted_chat_asks_for_the_list_again() {
    let mut history = history();
    let effect = history.handle(Event::Response(Response {
        uuid: 2,
        last: true,
        params: ResponseParams::DeleteChat { deleted: true },
    }));
    match effect {
        Some(Effect::Request(request)) => {
            assert_eq!(request.params, RequestParams::ListChats { limit: 100 })
        }
        _ => panic!("the list was not asked for"),
    }
    let effect = history.handle(Event::Response(Response {
        uuid: 3,
        last: true,
        params: ResponseParams::DeleteChat { deleted: false },
    }));
    assert_eq!(effect, Some(Effect::Bell));
}

#[test]
fn enter_opens_the_selected_chat_and_other_keys_do_what_they_say() {
    let mut history = history();
    assert_eq!(press(&mut history, Key::CarriageReturn), Some(Effect::Open { id: 7 }));
    assert_eq!(press(&mut history, Key::Char('n')), Some(Effect::New));
    assert_eq!(press(&mut history, Key::Char('/')), Some(Effect::Search));
    assert_eq!(
        history.handle(Event::TermEvent(TermEvent::KeyEvent(KeyEvent {
            key: Key::Char('q'),
            mods: KeyMods::control()
        }))),
        Some(Effect::Quit)
    );
    // There is only one chat, so there is nowhere to move to.
    assert_eq!(press(&mut history, Key::Char('j')), Some(Effect::Bell));
    assert_eq!(press(&mut history, Key::Char('z')), None);
}

#[test]
fn the_position_is_shown_as_selected_over_count() {
    let empty = Chats::default();
    assert_eq!(empty.position(), "-/0");
    assert_eq!(empty.position_string(), "-/0");
    let mut twelve = chats(12, 3);
    down(&mut twelve, 10);
    assert_eq!(twelve.position(), "11/12");
    assert_eq!(twelve.position_string(), "11/12");
}

#[test]
fn scrolling_takes_the_selection_with_the_view() {
    let mut chats = chats(10, 3);
    let scroll_down = KeyEvent { key: Key::Char('e'), mods: KeyMods::control() };
    let scroll_up = KeyEvent { key: Key::Char('y'), mods: KeyMods::control() };
    assert!(matches!(chats.handle(&scroll_down), Movement::Moved));
    assert_eq!(chats.first_shown(), 1);
    assert_eq!(chats.selected_number(), Some(1));
    for _ in 0..6 {
        chats.handle(&scroll_down);
    }
    assert_eq!(chats.first_shown(), 7);
    assert!(matches!(chats.handle(&scroll_down), Movement::Stuck));
    assert!(matches!(chats.handle(&scroll_up), Movement::Moved));
    assert_eq!(chats.first_shown(), 6);
    assert_eq!(chats.selected_number(), Some(7));
}

#[test]
fn a_new_history_keeps_a_row_for_the_footer() {
    let history = History::new(Size::new(10, 20));
    assert_eq!(history.name(), "inshie history");
    assert_eq!(History::new(Size::new(0, 20)).list().len(), 0);
}
