use insh::dir_bar::{resolve, show, Dir, Effect, Event, Props};
use insh::keys::{Key, KeyEvent, KeyMods, TermEvent};

fn home() -> Option<String> {
    Some(String::from("/home/pat"))
}

#[test]
fn test_string() {
    let cases = [
        ("/home/pat", "~/"),
        ("/home/pat/foo", "~/foo/"),
        ("/home/pat/foo/", "~/foo/"),
        ("/data", "/data/"),
        ("/", "/"),
    ];
    for (path, expected) in cases {
        assert_eq!(show(path, &home()), expected, "for {}", path);
    }
}

#[test]
fn test_path() {
    let cases = [
        ("~/", "/home/pat"),
        ("~", "/home/pat"),
        ("~/foo/", "/home/pat/foo"),
        ("/data/foo/", "/data/foo"),
        ("~foo", "/home/pat/~foo"),
        ("foo/bar", "/home/pat/foo/bar"),
        ("/", "/"),
    ];
    for (text, expected) in cases {
        assert_eq!(resolve(text, &home(), "/home/pat"), expected, "for {}", text);
    }
}

#[test]
fn without_a_home_directory_the_path_is_shown_as_it_is() {
    assert_eq!(show("/home/pat/foo", &None), "/home/pat/foo/");
    assert_eq!(resolve("~/foo", &None, "/data"), "/data/~/foo");
}

#[test]
fn entering_a_directory_goes_there() {
    let mut dir = Dir::new(Props { dir: String::from("/home/pat"), home: home() });
    dir.handle(Event::Focus);
    match dir.enter(String::from("~/src"), true) {
        Some(Effect::Enter { dir: entered }) => assert_eq!(entered, "/home/pat/src"),
        _ => panic!("entering a directory has to go there"),
    }
    assert_eq!(dir.dir_string(), "~/src/");
}

#[test]
fn entering_what_is_not_a_directory_rings_the_bell_and_stays() {
    let mut dir = Dir::new(Props { dir: String::from("/home/pat"), home: home() });
    dir.handle(Event::Focus);
    assert!(matches!(dir.enter(String::from("notes.txt"), false), Some(Effect::Bell)));
    assert_eq!(dir.dir_string(), "~/");
}

#[test]
fn popping_shows_the_directory_above() {
    let mut dir = Dir::new(Props { dir: String::from("/home/pat/src"), home: home() });
    assert!(dir.handle(Event::PopDir).is_none());
    assert_eq!(dir.dir_string(), "~/");
    assert!(dir.handle(Event::SetDir { dir: String::from("/data") }).is_none());
    assert_eq!(dir.dir_string(), "/data/");
}

fn typed(dir: &mut Dir, text: &str) {
    for c in text.chars() {
        let event = TermEvent::KeyEvent(KeyEvent { key: Key::Char(c), mods: KeyMods::none() });
        dir.handle(Event::Term { event, directory: false });
    }
}

fn enter(directory: bool) -> Event {
    Event::Term {
        event: TermEvent::KeyEvent(KeyEvent { key: Key::CarriageReturn, mods: KeyMods::none() }),
        directory,
    }
}

#[test]
fn the_path_typed_is_what_entering_it_goes_to() {
    let mut dir = Dir::new(Props { dir: String::from("/home/pat"), home: home() });
    assert_eq!(dir.typed_path(), None);
    dir.handle(Event::Focus);
    assert_eq!(dir.typed_path(), Some(String::from("/home/pat")));
    typed(&mut dir, "src");
    assert_eq!(dir.typed_path(), Some(String::from("/home/pat/src")));
    match dir.handle(enter(true)) {
        Some(Effect::Enter { dir: entered }) => assert_eq!(entered, "/home/pat/src"),
        _ => panic!("entering a directory has to go there"),
    }
}

#[test]
fn entering_a_path_which_is_not_a_directory_rings_the_bell() {
    let mut dir = Dir::new(Props { dir: String::from("/home/pat"), home: home() });
    dir.handle(Event::Focus);
    typed(&mut dir, "notes");
    assert_eq!(dir.handle(enter(false)), Some(Effect::Bell));
    assert_eq!(dir.dir_string(), "~/");
}
