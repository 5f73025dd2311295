use insh::keys::{Key, KeyEvent, KeyMods, Size, TermEvent};
use insh::requests::{RequestParams, Response, ResponseParams};
use insh::searcher::{Effect, Event, Focus, Props, Searcher};
use insh::searcher_contents::{
    self, first_word_of, Action, Contents, FileHit, LineHit, State,
};

fn hit(path: &str, lines: &[(usize, &str)]) -> FileHit {
    FileHit {
        path: path.to_string(),
        line_hits: lines
            .iter()
            .map(|(line_number, line)| LineHit { line_number: *line_number, line: line.to_string() })
            .collect(),
    }
}

fn hits_response(uuid: u128, last: bool, hits: Vec<FileHit>) -> Response {
    Response {
        uuid,
        last,
        params: ResponseParams::SearchPhrase { hits, searched: 1, duration: 50_000_000 },
    }
}

/// A state which shows some hits at some size.
fn state_with(rows: usize, columns: usize, hits: Vec<FileHit>) -> State {
    let mut state = State::from_props(searcher_contents::Props {
        dir: String::from("/home/pat"),
        size: Size::new(rows, columns),
        phrase: None,
        pending_request: Some(9),
    });
    state.perform(Action::HandleResponse(hits_response(9, true, hits)));
    state
}

fn cursor(state: &State) -> (usize, Option<usize>, usize, Option<usize>) {
    (state.file_offset(), state.line_offset(), state.file_selected(), state.line_selected())
}

#[test]
fn test_scroll_up() {
    // Scrolling a state with no hits by zero does nothing.
    let mut state = state_with(0, 0, vec![]);
    state.perform(Action::Resize { size: Size::new(0, 0), scaled: 0 });
    assert_eq!(cursor(&state), (0, None, 0, None));

    // Nothing is above the first file.
    let mut state = state_with(1, 2, vec![hit("", &[(0, "")])]);
    state.perform(Action::ScrollUp);
    assert_eq!(cursor(&state), (0, None, 0, None));
    assert_eq!(state.hits().len(), 1);
    assert_eq!(state.size(), Size::new(1, 2));

    // Scrolling up from the second file brings the blank row of the first into view, with its
    // path and lines still scrolled past.
    let mut state = state_with(
        2,
        5,
        vec![hit("", &[(0, ""), (1, "")]), hit("", &[(0, "")])],
    );
    for _ in 0..4 {
        state.perform(Action::ScrollDown);
    }
    assert_eq!(cursor(&state), (1, None, 0, None));
    state.perform(Action::ScrollUp);
    assert_eq!(cursor(&state), (0, Some(2), 1, None));
}

#[test]
fn searching_clears_the_last_hits_and_asks_for_new_ones() {
    let mut state = state_with(5, 20, vec![hit("/home/pat/a", &[(3, "alpha beta")])]);
    assert_eq!(state.hits().len(), 1);
    match state.perform(Action::Search { phrase: String::from("beta") }) {
        Some(searcher_contents::Effect::Request(request)) => assert_eq!(
            request.params,
            RequestParams::SearchPhrase { dir: String::from("/home/pat"), phrase: String::from("beta") }
        ),
        _ => panic!("nothing was asked for"),
    }
    assert!(state.hits().is_empty());
    assert!(state.is_pending());
    assert_eq!(state.progress(), "0 files searched (0.00s)");
}

#[test]
fn a_search_with_no_hits_goes_back_to_the_phrase() {
    let mut state = State::from_props(searcher_contents::Props {
        dir: String::from("/"),
        size: Size::new(5, 20),
        phrase: None,
        pending_request: Some(1),
    });
    assert!(state.perform(Action::HandleResponse(hits_response(1, false, vec![]))).is_none());
    assert!(matches!(
        state.perform(Action::HandleResponse(hits_response(1, true, vec![]))),
        Some(searcher_contents::Effect::Unfocus)
    ));
    assert_eq!(state.progress(), "1 file searched (0.05s)");
}

#[test]
fn moving_down_goes_through_the_lines_and_on_to_the_next_file() {
    let mut state = state_with(
        10,
        20,
        vec![hit("/a", &[(1, "x"), (2, "y")]), hit("/b", &[(5, "z")])],
    );
    assert_eq!(state.selection_row(), Some(0));
    state.perform(Action::Down);
    assert_eq!(cursor(&state), (0, None, 0, Some(0)));
    assert_eq!(state.selection_row(), Some(1));
    state.perform(Action::Down);
    assert_eq!(cursor(&state), (0, None, 0, Some(1)));
    state.perform(Action::Down);
    assert_eq!(cursor(&state), (0, None, 1, None));
    assert_eq!(state.selection_row(), Some(4));
    state.perform(Action::Down);
    assert_eq!(cursor(&state), (0, None, 1, Some(0)));
    // The last line of the last file is as far as it goes.
    state.perform(Action::Down);
    assert_eq!(cursor(&state), (0, None, 1, Some(0)));
    state.perform(Action::Up);
    assert_eq!(cursor(&state), (0, None, 1, None));
    state.perform(Action::Up);
    assert_eq!(cursor(&state), (0, None, 0, Some(1)));
}

#[test]
fn moving_down_past_the_bottom_scrolls() {
    let mut state = state_with(2, 20, vec![hit("/a", &[(1, "x"), (2, "y")])]);
    state.perform(Action::Down);
    assert_eq!(cursor(&state), (0, None, 0, Some(0)));
    state.perform(Action::Down);
    assert_eq!(cursor(&state), (0, Some(0), 0, Some(1)));
}

#[test]
fn the_last_file_can_be_jumped_to_and_back() {
    let mut state = state_with(
        3,
        20,
        vec![hit("/a", &[(1, "x")]), hit("/b", &[(1, "x")]), hit("/c", &[(1, "x")])],
    );
    state.perform(Action::ReallyDown);
    // The last file takes two rows, so the one before is scrolled back into view by a row.
    assert_eq!(cursor(&state), (1, Some(1), 1, None));
    state.perform(Action::ReallyUp);
    assert_eq!(cursor(&state), (0, None, 0, None));
}

#[test]
fn the_selected_line_is_edited_at_its_number() {
    let mut state = state_with(5, 20, vec![hit("/home/pat/a.rs", &[(7, "fn main() {}")])]);
    match state.perform(Action::Edit) {
        Some(searcher_contents::Effect::OpenVim(args)) => {
            assert_eq!(args.path, Some(String::from("/home/pat/a.rs")));
            assert_eq!(args.line, None);
        }
        _ => panic!("nothing was edited"),
    }
    state.perform(Action::Down);
    match state.perform(Action::Edit) {
        Some(searcher_contents::Effect::OpenVim(args)) => assert_eq!(args.line, Some(7)),
        _ => panic!("nothing was edited"),
    }
}

#[test]
fn yanking_a_word_takes_the_first_word_of_the_line_or_the_name_of_the_file() {
    let mut state = state_with(5, 20, vec![hit("/home/pat/a.rs", &[(7, "  fn main() {}")])]);
    match state.perform(Action::YankWord) {
        Some(searcher_contents::Effect::Copy { contents }) => assert_eq!(contents, "a.rs"),
        _ => panic!("nothing was copied"),
    }
    assert_eq!(state.message().as_ref().unwrap().text(), "yanked file name");
    state.perform(Action::Down);
    match state.perform(Action::YankWord) {
        Some(searcher_contents::Effect::Copy { contents }) => assert_eq!(contents, "fn"),
        _ => panic!("nothing was copied"),
    }
    assert_eq!(state.message().as_ref().unwrap().text(), "yanked word");
    match state.perform(Action::YankLine) {
        Some(searcher_contents::Effect::Copy { contents }) => assert_eq!(contents, "  fn main() {}"),
        _ => panic!("nothing was copied"),
    }
    assert_eq!(state.message().as_ref().unwrap().text(), "yanked line");
}

#[test]
fn the_first_word_is_what_comes_before_the_first_space() {
    assert_eq!(first_word_of("  hello world"), Some(String::from("hello")));
    assert_eq!(first_word_of("one"), Some(String::from("one")));
    assert_eq!(first_word_of(" \t "), None);
    assert_eq!(first_word_of(""), None);
}

#[test]
fn the_footer_counts_the_lines() {
    let mut contents = Contents::new(searcher_contents::Props {
        dir: String::from("/"),
        size: Size::new(10, 20),
        phrase: None,
        pending_request: Some(4),
    });
    contents.handle(searcher_contents::Event::Response(hits_response(
        4,
        true,
        vec![hit("/a", &[(1, "x"), (2, "y")]), hit("/b", &[(5, "z")])],
    )));
    assert_eq!(contents.position_string(), "-/3");
    let j = || TermEvent::KeyEvent(KeyEvent { key: Key::Char('j'), mods: KeyMods::none() });
    contents.handle(searcher_contents::Event::TermEvent(j()));
    assert_eq!(contents.position_string(), "1/3");
    contents.handle(searcher_contents::Event::TermEvent(j()));
    contents.handle(searcher_contents::Event::TermEvent(j()));
    contents.handle(searcher_contents::Event::TermEvent(j()));
    assert_eq!(contents.position_string(), "3/3");
    assert_eq!(contents.footer_text(), "1 file searched (0.05s)");
}

#[test]
fn a_searcher_started_with_a_phrase_looks_at_the_hits() {
    let mut searcher = Searcher::new(Props {
        dir: String::from("/"),
        size: Size::new(10, 40),
        phrase: Some(String::from("fn")),
        pending_request: Some(2),
    });
    assert_eq!(searcher.focus(), Focus::Contents);
    assert_eq!(searcher.name(), "searcher");
    assert!(!searcher.phrase().current().is_focused());
    let quit = || TermEvent::KeyEvent(KeyEvent { key: Key::Char('q'), mods: KeyMods::control() });
    assert!(searcher.handle(Event::TermEvent(quit())).is_none());
    assert_eq!(searcher.focus(), Focus::Phrase);
    let enter = TermEvent::KeyEvent(KeyEvent { key: Key::CarriageReturn, mods: KeyMods::none() });
    match searcher.handle(Event::TermEvent(enter)) {
        Some(Effect::Request(request)) => assert_eq!(
            request.params,
            RequestParams::SearchPhrase { dir: String::from("/"), phrase: String::from("fn") }
        ),
        _ => panic!("nothing was asked for"),
    }
    assert_eq!(searcher.focus(), Focus::Contents);
}

#[test]
fn big_j_keeps_the_last_file_selected_while_scrolling_back_over_the_others() {
    let mut state = state_with(
        10,
        20,
        vec![hit("/a", &[(1, "x")]), hit("/b", &[(1, "x")]), hit("/c", &[(1, "x")])],
    );
    state.perform(Action::Down);
    state.perform(Action::ReallyDown);
    assert_eq!(cursor(&state), (0, None, 2, None));
}

#[test]
fn hits_without_lines_cannot_be_taken_in() {
    let state = State::from_props(searcher_contents::Props {
        dir: String::from("/home/pat"),
        size: Size::new(5, 20),
        phrase: None,
        pending_request: Some(9),
    });
    assert!(!state.response_ok(&hits_response(9, true, vec![hit("/a", &[])])));
    assert!(state.response_ok(&hits_response(9, true, vec![hit("/a", &[(1, "x")])])));
    assert!(state.response_ok(&hits_response(8, true, vec![hit("/a", &[])])));
}

#[test]
fn the_usual_moves_can_be_made() {
    let state = state_with(3, 20, vec![hit("/a", &[(1, "x"), (2, "y")]), hit("/b", &[(1, "z")])]);
    for action in [Action::Down, Action::ReallyDown, Action::ScrollDown, Action::ScrollUp, Action::Edit] {
        assert!(state.performable(&action));
    }
    assert!(state.performable(&Action::Resize { size: Size::new(2, 20), scaled: 1 }));
}
