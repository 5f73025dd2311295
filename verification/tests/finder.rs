use insh::finder::{Effect, Event, Finder, Focus, Props};
use insh::finder_contents::{self, Action, Contents, State};
use insh::keys::{Key, KeyEvent, KeyMods, Size, TermEvent};
use insh::requests::{RequestParams, Response, ResponseParams};

fn key(c: char) -> TermEvent {
    TermEvent::KeyEvent(KeyEvent { key: Key::Char(c), mods: KeyMods::none() })
}

fn shifted(c: char) -> TermEvent {
    TermEvent::KeyEvent(KeyEvent { key: Key::Char(c), mods: KeyMods::shift() })
}

fn found(uuid: u128, last: bool, paths: &[&str]) -> Response {
    Response {
        uuid,
        last,
        params: ResponseParams::FindFiles {
            entries: paths.iter().map(|p| p.to_string()).collect(),
            searched: 3,
            duration: 1_234_567_890,
        },
    }
}

fn state_with(paths: &[&str], rows: usize) -> State {
    let mut state = State::from_props(finder_contents::Props {
        dir: String::from("/home/pat"),
        size: Size::new(rows, 20),
    });
    let uuid = match state.perform(Action::Find { phrase: String::from("x") }) {
        Some(finder_contents::Effect::Request(request)) => request.uuid,
        _ => panic!("nothing was asked for"),
    };
    state.perform(Action::HandleResponse(found(uuid, true, paths)));
    state
}

#[test]
fn finding_asks_for_the_files_matching_the_pattern() {
    let mut state = State::from_props(finder_contents::Props {
        dir: String::from("/home/pat"),
        size: Size::new(5, 20),
    });
    match state.perform(Action::Find { phrase: String::from("main") }) {
        Some(finder_contents::Effect::Request(request)) => {
            assert_eq!(
                request.params,
                RequestParams::FindFiles {
                    dir: String::from("/home/pat"),
                    pattern: String::from("main")
                }
            );
        }
        _ => panic!("nothing was asked for"),
    }
    assert!(state.focussed());
    assert_eq!(state.progress(), "0 files searched (0.00s)");
}

#[test]
fn the_first_file_found_is_selected() {
    let state = state_with(&["/home/pat/a.rs", "/home/pat/b.rs"], 5);
    assert_eq!(state.hits(), Some(true));
    assert_eq!(state.selected(), Some(0));
    assert_eq!(state.entries().len(), 2);
    assert_eq!(state.progress(), "3 files searched (1.23s)");
}

#[test]
fn finding_nothing_goes_back_to_the_pattern() {
    let mut state = State::from_props(finder_contents::Props {
        dir: String::from("/home/pat"),
        size: Size::new(5, 20),
    });
    let uuid = match state.perform(Action::Find { phrase: String::from("x") }) {
        Some(finder_contents::Effect::Request(request)) => request.uuid,
        _ => panic!("nothing was asked for"),
    };
    assert!(state.perform(Action::HandleResponse(found(uuid, false, &[]))).is_none());
    assert_eq!(state.hits(), None);
    assert!(matches!(
        state.perform(Action::HandleResponse(found(uuid, true, &[]))),
        Some(finder_contents::Effect::Unfocus)
    ));
    assert_eq!(state.hits(), Some(false));
}

#[test]
fn a_response_to_another_request_is_ignored() {
    let mut state = state_with(&["/a"], 5);
    assert!(state.perform(Action::HandleResponse(found(7, true, &["/b"]))).is_none());
    assert_eq!(state.entries(), &vec![String::from("/a")]);
}

#[test]
fn moving_down_scrolls_at_the_bottom_and_stops_at_the_last_file() {
    let mut state = state_with(&["/a", "/b", "/c"], 2);
    state.perform(Action::Down);
    assert_eq!((state.selected(), state.offset()), (Some(1), 0));
    state.perform(Action::Down);
    assert_eq!((state.selected(), state.offset()), (Some(1), 1));
    state.perform(Action::Down);
    assert_eq!((state.selected(), state.offset()), (Some(1), 1));
    state.perform(Action::Up);
    assert_eq!((state.selected(), state.offset()), (Some(0), 1));
    state.perform(Action::Up);
    assert_eq!((state.selected(), state.offset()), (Some(0), 0));
}

#[test]
fn the_ends_of_the_list_can_be_jumped_to() {
    let mut state = state_with(&["/a", "/b", "/c", "/d"], 2);
    state.perform(Action::ReallyDown);
    assert_eq!((state.selected(), state.offset()), (Some(1), 2));
    state.perform(Action::ReallyUp);
    assert_eq!((state.selected(), state.offset()), (Some(0), 0));
}

#[test]
fn resizing_keeps_the_same_file_selected() {
    let mut state = state_with(&["/a", "/b", "/c", "/d", "/e"], 4);
    state.perform(Action::ReallyDown);
    assert_eq!(state.entry_number(), Some(4));
    state.perform(Action::Resize { size: Size::new(2, 20), scaled: 1 });
    assert_eq!(state.entry_number(), Some(4));
    assert_eq!((state.selected(), state.offset()), (Some(1), 3));
}

#[test]
fn the_selected_file_is_edited_and_its_directory_gone_to() {
    let mut state = state_with(&["/home/pat/src/main.rs"], 5);
    match state.perform(Action::Edit) {
        Some(finder_contents::Effect::OpenVim(args)) => {
            assert_eq!(args.path, Some(String::from("/home/pat/src/main.rs")));
            assert_eq!(args.line, None);
        }
        _ => panic!("the file was not edited"),
    }
    match state.perform(Action::ReallyGoto) {
        Some(finder_contents::Effect::Goto { dir, file }) => {
            assert_eq!(dir, "/home/pat/src");
            assert_eq!(file, Some(String::from("/home/pat/src/main.rs")));
        }
        _ => panic!("the directory was not gone to"),
    }
}

#[test]
fn yanking_copies_the_name_or_the_path() {
    let mut state = state_with(&["/home/pat/src/main.rs"], 5);
    match state.perform(Action::YankName) {
        Some(finder_contents::Effect::Copy { contents }) => assert_eq!(contents, "main.rs"),
        _ => panic!("nothing was copied"),
    }
    assert_eq!(state.message().as_ref().unwrap().text(), "yanked file name");
    match state.perform(Action::YankPath) {
        Some(finder_contents::Effect::Copy { contents }) => {
            assert_eq!(contents, "/home/pat/src/main.rs")
        }
        _ => panic!("nothing was copied"),
    }
    assert_eq!(state.message().as_ref().unwrap().text(), "yanked path");
    // Moving clears the message.
    state.perform(Action::Down);
    assert!(state.message().is_none());
}

#[test]
fn yanking_the_contents_asks_for_them_and_copies_them_when_they_come() {
    let mut state = state_with(&["/a.txt"], 5);
    let uuid = match state.perform(Action::YankContents) {
        Some(finder_contents::Effect::Request(request)) => {
            assert_eq!(request.params, RequestParams::GetFileContents { path: String::from("/a.txt") });
            request.uuid
        }
        _ => panic!("nothing was asked for"),
    };
    assert!(state.yanking());
    let response = Response {
        uuid,
        last: true,
        params: ResponseParams::GetFileContents { result: Err(String::from("gone")) },
    };
    assert!(matches!(
        state.perform(Action::HandleResponse(response)),
        Some(finder_contents::Effect::Bell)
    ));
    assert_eq!(
        state.message().as_ref().unwrap().text(),
        "failed to read the file contents: gone"
    );
    assert!(!state.yanking());
}

#[test]
fn keys_which_are_no_command_are_said_in_the_footer() {
    let mut contents = Contents::new(finder_contents::Props {
        dir: String::from("/"),
        size: Size::new(5, 20),
    });
    assert!(contents.handle(finder_contents::Event::TermEvent(key('y'))).is_none());
    assert_eq!(contents.footer_text(), "y");
    assert!(matches!(
        contents.handle(finder_contents::Event::TermEvent(key('q'))),
        Some(finder_contents::Effect::Bell)
    ));
    assert_eq!(contents.footer_text(), "unknown command yq");
    assert_eq!(contents.position_string(), "");
}

#[test]
fn the_footer_says_which_file_is_selected() {
    let mut contents = Contents::new(finder_contents::Props {
        dir: String::from("/"),
        size: Size::new(5, 20),
    });
    let uuid = match contents.handle(finder_contents::Event::Find { phrase: String::from("a") }) {
        Some(finder_contents::Effect::Request(request)) => request.uuid,
        _ => panic!("nothing was asked for"),
    };
    contents.handle(finder_contents::Event::Response(found(uuid, true, &["/a", "/b"])));
    contents.handle(finder_contents::Event::TermEvent(key('j')));
    assert_eq!(contents.position_string(), "2/2");
    contents.handle(finder_contents::Event::TermEvent(shifted('K')));
    assert_eq!(contents.position_string(), "1/2");
}

#[test]
fn entering_the_pattern_finds_the_files() {
    let mut finder = Finder::new(Props {
        dir: String::from("/home/pat"),
        size: Size::new(10, 40),
        phrase: Some(String::from("ma")),
    });
    assert_eq!(finder.focus(), Focus::Phrase);
    assert_eq!(finder.name(), "finder");
    let enter = TermEvent::KeyEvent(KeyEvent { key: Key::CarriageReturn, mods: KeyMods::none() });
    match finder.handle(Event::TermEvent(enter)) {
        Some(Effect::Request(request)) => assert_eq!(
            request.params,
            RequestParams::FindFiles { dir: String::from("/home/pat"), pattern: String::from("ma") }
        ),
        _ => panic!("nothing was asked for"),
    }
    assert_eq!(finder.focus(), Focus::Contents);
    assert_eq!(finder.contents().state().size(), Size::new(7, 40));
    // Leaving the list goes back to the pattern.
    let quit = || TermEvent::KeyEvent(KeyEvent { key: Key::Char('q'), mods: KeyMods::control() });
    assert!(finder.handle(Event::TermEvent(quit())).is_none());
    assert_eq!(finder.focus(), Focus::Phrase);
    assert!(finder.phrase().current().is_focused());
    // Quitting the pattern quits the finder.
    assert!(matches!(finder.handle(Event::TermEvent(quit())), Some(Effect::Quit)));
}

#[test]
fn typing_the_pattern_asks_for_a_completion() {
    let mut finder = Finder::new(Props {
        dir: String::from("/"),
        size: Size::new(10, 40),
        phrase: None,
    });
    let uuid = match finder.handle(Event::TermEvent(key('m'))) {
        Some(Effect::Request(request)) => {
            assert_eq!(
                request.params,
                RequestParams::SuggestFindPattern { partial: String::from("m") }
            );
            request.uuid
        }
        _ => panic!("nothing was asked for"),
    };
    let response = Response {
        uuid,
        last: true,
        params: ResponseParams::SuggestFindPattern { suggestion: Some(String::from("main")) },
    };
    assert!(finder.handle(Event::Response(response)).is_none());
    assert_eq!(finder.phrase().current().completion(), &Some(String::from("main")));
}

#[test]
fn a_resize_resizes_the_list() {
    let mut finder = Finder::new(Props {
        dir: String::from("/"),
        size: Size::new(10, 40),
        phrase: None,
    });
    assert!(finder.handle(Event::Resize { size: Size::new(2, 30), scaled: 0 }).is_none());
    assert_eq!(finder.contents().state().size(), Size::new(0, 30));
}

#[test]
fn up_takes_the_selection_back_to_where_down_found_it() {
    let mut state = state_with(&["/a", "/b", "/c"], 1);
    state.perform(Action::Down);
    assert_eq!((state.selected(), state.offset(), state.entry_number()), (Some(0), 1, Some(1)));
    state.perform(Action::Up);
    assert_eq!((state.selected(), state.offset(), state.entry_number()), (Some(0), 0, Some(0)));
}

#[test]
fn big_j_selects_the_last_file_when_all_of_them_fit() {
    let mut state = state_with(&["/a", "/b", "/c"], 5);
    state.perform(Action::ReallyDown);
    assert_eq!((state.selected(), state.offset(), state.entry_number()), (Some(2), 0, Some(2)));
    state.perform(Action::ReallyUp);
    assert_eq!(state.entry_number(), Some(0));
}
