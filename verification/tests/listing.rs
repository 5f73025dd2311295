use insh::browser::{Action, Props, State};
use insh::config::Config;
use insh::entry::{FileInfo, FileMetadata, FileType};
use insh::keys::Size;
use insh::listing::{render, Shown, Style};
use insh::requests::{Response, ResponseParams};

fn file(name: &str, file_type: FileType, metadata: Option<FileMetadata>) -> FileInfo {
    FileInfo {
        path: format!("/home/pat/{}", name),
        name: Some(name.to_string()),
        file_type: Some(file_type),
        metadata,
    }
}

fn metadata(hard_links: u64, size: u64) -> FileMetadata {
    FileMetadata {
        mode: 0o100644,
        hard_links,
        uid: 1000,
        user: Some(String::from("pat")),
        gid: 100,
        group: None,
        size,
        modified: 0,
        link_target: None,
    }
}

/// Return the contents of a directory, with their metadata or not, once the entries arrived.
fn state(entries: Result<Vec<FileInfo>, String>, metadata: bool, rows: usize) -> State {
    let mut config = Config::default();
    config.browser.metadata = metadata;
    let mut state = State::from_props(Props {
        config,
        dir: String::from("/home/pat"),
        size: Size::new(rows, 80),
        file: None,
        pending_request: Some(9),
    });
    state.perform(Action::HandleResponse(Response {
        uuid: 9,
        last: true,
        params: ResponseParams::GetFiles { result: entries },
    }));
    state
}

fn texts(shown: &Shown) -> Vec<(String, Style)> {
    match shown {
        Shown::Lines(lines) => lines.iter().map(|l| (l.text.clone(), l.style)).collect(),
        _ => panic!("rows have to be shown"),
    }
}

#[test]
fn nothing_is_shown_before_the_entries_arrive() {
    let state = State::from_props(Props {
        config: Config::default(),
        dir: String::from("/home/pat"),
        size: Size::new(5, 80),
        file: None,
        pending_request: Some(9),
    });
    assert!(matches!(render(&state, Size::new(5, 80), &vec![], &vec![]), Shown::Blank));
}

#[test]
fn an_empty_directory_says_so() {
    let state = state(Ok(vec![]), false, 5);
    match render(&state, Size::new(5, 80), &vec![], &vec![]) {
        Shown::Centered(text) => assert_eq!(text, "The directory is empty."),
        _ => panic!("an empty directory has to say so"),
    }
}

#[test]
fn entries_which_could_not_be_read_say_why() {
    let state = state(Err(String::from("Permission denied")), false, 5);
    match render(&state, Size::new(5, 80), &vec![], &vec![]) {
        Shown::Centered(text) => assert_eq!(text, "Permission denied"),
        _ => panic!("why the entries could not be read has to be said"),
    }
}

#[test]
fn names_are_shown_with_the_first_selected_and_hidden_ones_grayed() {
    let entries = vec![
        file("src", FileType::Dir, None),
        file(".git", FileType::Dir, None),
        file("notes.txt", FileType::File, None),
    ];
    let state = state(Ok(entries), false, 2);
    let shown = render(&state, Size::new(2, 80), &vec![String::new(); 2], &vec![String::new(); 2]);
    assert_eq!(
        texts(&shown),
        vec![
            (String::from("src/"), Style::Selected),
            (String::from(".git/"), Style::Hidden { from: 0 }),
        ]
    );
}

#[test]
fn metadata_is_shown_in_columns_sized_by_every_entry() {
    let entries = vec![
        file(".profile", FileType::File, Some(metadata(1, 7))),
        file("big", FileType::File, Some(metadata(12, 12345))),
    ];
    let state = state(Ok(entries), true, 5);
    let modes = vec![String::from("-rw-r--r--"); 2];
    let times = vec![String::from("Jun 15 09:40"); 2];
    let shown = render(&state, Size::new(5, 80), &modes, &times);
    assert_eq!(
        texts(&shown),
        vec![
            (String::from("-rw-r--r--  1 pat 100     7 Jun 15 09:40 .profile"), Style::Selected),
            (String::from("-rw-r--r-- 12 pat 100 12345 Jun 15 09:40 big"), Style::Plain),
        ]
    );
}

#[test]
fn metadata_which_does_not_fit_is_left_out() {
    let entries = vec![file(".profile", FileType::File, Some(metadata(1, 7)))];
    let state = state(Ok(entries), true, 5);
    let shown = render(&state, Size::new(5, 20), &vec![String::from("-rw-r--r--")], &vec![String::from("Jun 15 09:40")]);
    assert_eq!(texts(&shown), vec![(String::from(".profile"), Style::Selected)]);
}

#[test]
fn a_hidden_entry_is_grayed_from_its_name() {
    let entries = vec![
        file("a", FileType::File, Some(metadata(1, 7))),
        file(".b", FileType::File, Some(metadata(1, 7))),
    ];
    let state = state(Ok(entries), true, 5);
    let modes = vec![String::from("-rw-r--r--"); 2];
    let times = vec![String::from("Jun 15 09:40"); 2];
    let shown = render(&state, Size::new(5, 80), &modes, &times);
    assert_eq!(texts(&shown)[1].1, Style::Hidden { from: 10 + 1 + 1 + 1 + 3 + 1 + 3 + 1 + 1 + 1 + 12 + 1 });
}

#[test]
fn big_j_and_big_k_go_to_the_ends_and_k_undoes_j() {
    let entries: Vec<FileInfo> = (0..6).map(|i| file(&format!("f{}", i), FileType::File, None)).collect();
    let mut state = state(Ok(entries), false, 3);
    state.perform(Action::ReallyDown);
    assert_eq!(state.entry_number(), Some(5));
    state.perform(Action::ReallyUp);
    assert_eq!(state.entry_number(), Some(0));
    for _ in 0..4 {
        let before = state.entry_number();
        state.perform(Action::Down);
        state.perform(Action::Up);
        assert_eq!(state.entry_number(), before);
        state.perform(Action::Down);
    }
}
