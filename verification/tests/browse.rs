use insh::browse::{Browser, Effect, Event, Focus, Props};
use insh::browser::PathKind;
use insh::config::Config;
use insh::entry::FileType;
use insh::keys::{Key, KeyEvent, KeyMods, Size, TermEvent};
use insh::requests::RequestParams;

fn browser() -> Browser {
    Browser::new(Props {
        config: Config::default(),
        dir: String::from("/home/pat"),
        home: Some(String::from("/home/pat")),
        size: Size::new(24, 80),
        file: None,
        pending_request: None,
    })
}

fn press(key: Key, mods: KeyMods) -> Event {
    Event::Term { event: TermEvent::KeyEvent(KeyEvent { key, mods }), kind: PathKind::Other, directory: false }
}

#[test]
fn a_browser_starts_on_its_entries() {
    let browser = browser();
    assert_eq!(browser.focus(), Focus::Contents);
    assert_eq!(browser.name(), "browser");
    assert_eq!(browser.bar().dir_string(), "~/");
}

#[test]
fn control_d_types_in_the_directory_bar() {
    let mut browser = browser();
    assert!(browser.handle(press(Key::Char('d'), KeyMods::control())).is_none());
    assert_eq!(browser.focus(), Focus::Dir);
}

#[test]
fn showing_another_directory_asks_for_its_entries() {
    let mut browser = browser();
    assert!(browser.handle(Event::SetDir { dir: String::from("/home/pat") }).is_none());
    match browser.handle(Event::SetDir { dir: String::from("/data") }) {
        Some(Effect::Request(request)) => match request.params {
            RequestParams::GetFiles { dir, .. } => assert_eq!(dir, "/data"),
            _ => panic!("the entries of the directory have to be asked for"),
        },
        _ => panic!("showing another directory has to ask for its entries"),
    }
    assert_eq!(browser.bar().dir_string(), "/data/");
}

#[test]
fn the_browser_opens_the_other_modes_where_it_is() {
    let mut browser = browser();
    match browser.handle(press(Key::Char('f'), KeyMods::none())) {
        Some(Effect::OpenFinder { dir }) => assert_eq!(dir, "/home/pat"),
        _ => panic!("f has to open the finder"),
    }
    match browser.handle(press(Key::Char('s'), KeyMods::none())) {
        Some(Effect::OpenSearcher { dir }) => assert_eq!(dir, "/home/pat"),
        _ => panic!("s has to open the searcher"),
    }
    match browser.handle(press(Key::Char('C'), KeyMods::shift())) {
        Some(Effect::OpenFileCreator { dir, file_type }) => {
            assert_eq!(dir, "/home/pat");
            assert_eq!(file_type, FileType::Dir);
        }
        _ => panic!("C has to make a directory"),
    }
    match browser.handle(press(Key::Char('b'), KeyMods::none())) {
        Some(Effect::RunBash { dir }) => assert_eq!(dir, "/home/pat"),
        _ => panic!("b has to run a shell"),
    }
}

#[test]
fn a_key_nothing_knows_rings_the_bell() {
    let mut browser = browser();
    assert!(matches!(browser.handle(press(Key::Char('z'), KeyMods::none())), Some(Effect::Bell)));
}
