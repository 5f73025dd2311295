use insh::hit_listing::render;
use insh::keys::Size;
use insh::listing::{Shown, Style};
use insh::requests::{Response, ResponseParams};
use insh::searcher_contents::{self, Action, FileHit, LineHit, State};

fn hit(path: &str, lines: &[(usize, &str)]) -> FileHit {
    FileHit {
        path: path.to_string(),
        line_hits: lines
            .iter()
            .map(|(line_number, line)| LineHit { line_number: *line_number, line: line.to_string() })
            .collect(),
    }
}

fn searching(rows: usize) -> State {
    State::from_props(searcher_contents::Props {
        dir: String::from("/home/pat"),
        size: Size::new(rows, 40),
        phrase: None,
        pending_request: Some(9),
    })
}

fn found(rows: usize, hits: Vec<FileHit>) -> State {
    let mut state = searching(rows);
    state.perform(Action::HandleResponse(Response {
        uuid: 9,
        last: true,
        params: ResponseParams::SearchPhrase { hits, searched: 2, duration: 1 },
    }));
    state
}

fn rows(shown: &Shown) -> Vec<(String, Style)> {
    match shown {
        Shown::Lines(lines) => lines.iter().map(|l| (l.text.clone(), l.style)).collect(),
        _ => panic!("rows have to be shown"),
    }
}

#[test]
fn nothing_is_shown_while_the_first_hits_are_on_their_way() {
    assert!(matches!(render(&searching(5), Size::new(5, 40), 4), Shown::Blank));
}

#[test]
fn a_search_which_found_nothing_says_so() {
    match render(&found(5, vec![]), Size::new(5, 40), 4) {
        Shown::Centered(text) => assert_eq!(text, "No matches."),
        _ => panic!("a search which found nothing has to say so"),
    }
}

#[test]
fn each_file_shows_its_path_its_lines_and_a_blank_row() {
    let state = found(
        10,
        vec![
            hit("/home/pat/src/main.rs", &[(3, "fn\tmain")]),
            hit("/home/pat/README", &[(1, "x"), (9, "y")]),
        ],
    );
    let shown = render(&state, Size::new(10, 40), 4);
    let texts: Vec<String> = rows(&shown).into_iter().map(|(t, _)| t).collect();
    assert_eq!(
        texts,
        vec!["src/main.rs", "3: fn    main", "", "README", "1: x", "9: y", ""]
    );
    assert_eq!(rows(&shown)[0].1, Style::Selected);
    assert_eq!(rows(&shown)[1].1, Style::Plain);
}

#[test]
fn no_more_rows_are_shown_than_there_are() {
    let state = found(3, vec![hit("/home/pat/a", &[(1, "one"), (2, "two"), (3, "three")])]);
    let texts: Vec<String> = rows(&render(&state, Size::new(3, 40), 4)).into_iter().map(|(t, _)| t).collect();
    assert_eq!(texts, vec!["a", "1: one", "2: two"]);
}

#[test]
fn the_selected_line_is_highlighted() {
    let mut state = found(10, vec![hit("/home/pat/a", &[(1, "one"), (2, "two")])]);
    state.perform(Action::Down);
    let shown = rows(&render(&state, Size::new(10, 40), 4));
    assert_eq!(shown[0].1, Style::Plain);
    assert_eq!(shown[1], (String::from("1: one"), Style::Selected));
}
