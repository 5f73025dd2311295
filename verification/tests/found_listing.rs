use insh::finder_contents::{self, Action, State};
use insh::found_listing::{render, FoundShown};
use insh::keys::Size;
use insh::requests::{Response, ResponseParams};

fn finding() -> State {
    State::from_props(finder_contents::Props { dir: String::from("/home/pat"), size: Size::new(5, 40) })
}

fn found(paths: &[&str]) -> State {
    let mut state = finding();
    let uuid = match state.perform(Action::Find { phrase: String::from("x") }) {
        Some(finder_contents::Effect::Request(request)) => request.uuid,
        _ => panic!("finding has to ask for the files"),
    };
    state.perform(Action::HandleResponse(Response {
        uuid,
        last: true,
        params: ResponseParams::FindFiles {
            entries: paths.iter().map(|p| p.to_string()).collect(),
            searched: 3,
            duration: 1,
        },
    }));
    state
}

fn rows(shown: Option<FoundShown>) -> Vec<(String, usize, bool)> {
    match shown {
        Some(FoundShown::Paths(rows)) => rows.into_iter().map(|r| (r.text, r.name_from, r.selected)).collect(),
        _ => panic!("the files found have to be shown"),
    }
}

#[test]
fn nothing_is_shown_before_anything_is_found() {
    assert!(matches!(render(&finding(), Size::new(5, 40)), Some(FoundShown::Blank)));
}

#[test]
fn finding_nothing_says_so() {
    match render(&found(&[]), Size::new(5, 40)) {
        Some(FoundShown::Centered(text)) => assert_eq!(text, "No matching files."),
        _ => panic!("finding nothing has to say so"),
    }
}

#[test]
fn paths_are_shown_under_the_directory_with_the_name_set_apart() {
    let shown = rows(render(&found(&["/home/pat/src/main.rs", "/home/pat/x"]), Size::new(5, 40)));
    assert_eq!(
        shown,
        vec![(String::from("src/main.rs"), 4, true), (String::from("x"), 0, false)]
    );
}

#[test]
fn no_more_files_are_shown_than_there_are_rows() {
    let shown = rows(render(&found(&["/home/pat/a", "/home/pat/b", "/home/pat/c"]), Size::new(2, 40)));
    assert_eq!(shown.len(), 2);
}

#[test]
fn a_path_outside_the_directory_cannot_be_shown() {
    assert!(render(&found(&["/data/a"]), Size::new(5, 40)).is_none());
}
