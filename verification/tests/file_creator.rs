use insh::entry::FileType;
use insh::file_creator::{Effect, Event, FileCreator, Focus, Props};
use insh::keys::{Key, KeyEvent, KeyMods, TermEvent};
use insh::requests::{RequestParams, Response, ResponseParams};

fn creator(file_type: FileType) -> FileCreator {
    FileCreator::new(Props {
        dir: String::from("/home/pat"),
        home: Some(String::from("/home/pat")),
        file_type,
    })
}

fn press(key: Key, mods: KeyMods) -> Event {
    Event::Term { event: TermEvent::KeyEvent(KeyEvent { key, mods }), directory: false }
}

fn type_in(creator: &mut FileCreator, text: &str) {
    for c in text.chars() {
        creator.handle(press(Key::Char(c), KeyMods::none()));
    }
}

#[test]
fn the_name_is_typed_in_first() {
    let creator = creator(FileType::File);
    assert_eq!(creator.focus(), Focus::Phrase);
    assert_eq!(creator.phrase().current().value(), "");
    assert!(creator.error().is_none());
}

#[test]
fn entering_the_name_asks_for_the_file_and_browses_to_it_once_made() {
    let mut creator = creator(FileType::File);
    type_in(&mut creator, "notes.txt");
    let request = match creator.handle(press(Key::CarriageReturn, KeyMods::none())) {
        Some(Effect::Request(request)) => request,
        _ => panic!("entering the name has to ask for the file"),
    };
    assert_eq!(
        request.params,
        RequestParams::CreateFile { path: String::from("/home/pat/notes.txt"), file_type: FileType::File }
    );
    let made = Response { uuid: request.uuid, last: true, params: ResponseParams::CreateFile { result: Ok(()) } };
    match creator.handle(Event::Response(made)) {
        Some(Effect::Browse { dir, file }) => {
            assert_eq!(dir, "/home/pat");
            assert_eq!(file, Some(String::from("/home/pat/notes.txt")));
        }
        _ => panic!("a file which was made has to be browsed to"),
    }
}

#[test]
fn a_file_which_could_not_be_made_says_why() {
    let mut creator = creator(FileType::Dir);
    type_in(&mut creator, "src");
    let request = match creator.handle(press(Key::CarriageReturn, KeyMods::none())) {
        Some(Effect::Request(request)) => request,
        _ => panic!("entering the name has to ask for the directory"),
    };
    let refused = Response {
        uuid: request.uuid,
        last: true,
        params: ResponseParams::CreateFile { result: Err(String::from("it exists")) },
    };
    assert!(creator.handle(Event::Response(refused)).is_none());
    assert_eq!(creator.error(), &Some(String::from("it exists")));
    assert_eq!(creator.focus(), Focus::Phrase);
}

#[test]
fn a_response_to_another_request_makes_nothing() {
    let mut creator = creator(FileType::File);
    let other = Response { uuid: 1, last: true, params: ResponseParams::CreateFile { result: Ok(()) } };
    assert!(creator.handle(Event::Response(other)).is_none());
    assert!(creator.error().is_none());
}
