use insh::args::{parse_usize, Args, Command, FileLineColumn, FileLineColumnParseError, StartingEffect, VimArgs};
use insh::keys::{Key, KeyEvent, KeyMods, TermEvent};

fn parse(s: &str) -> Result<FileLineColumn, FileLineColumnParseError> {
    FileLineColumn::parse(s)
}

#[test]
fn test_from_str_when_the_string_is_empty() {
    assert_eq!(parse(""), Ok(FileLineColumn::new(None, None, None)));
}

#[test]
fn test_from_str_file() {
    assert_eq!(parse("foo.py"), Ok(FileLineColumn::new(Some("foo.py".into()), None, None)));
}

#[test]
fn test_from_str_file_and_bad_line() {
    assert_eq!(parse("foo.py:xx"), Err(FileLineColumnParseError::from_bad_line("xx".into())));
}

#[test]
fn test_from_str_file_and_line() {
    assert_eq!(parse("foo.py:42"), Ok(FileLineColumn::new(Some("foo.py".into()), Some(42), None)));
}

#[test]
fn test_from_str_file_line_and_bad_column() {
    assert_eq!(parse("foo.py:42,xx"), Err(FileLineColumnParseError::from_bad_column("xx".into())));
}

#[test]
fn test_from_str_file_line_and_column() {
    assert_eq!(parse("foo.py:42,7"), Ok(FileLineColumn::new(Some("foo.py".into()), Some(42), Some(7))));
}

#[test]
fn test_from_str_file_bad_line_and_column() {
    assert_eq!(
        parse("foo.py:xx,yy"),
        Err(FileLineColumnParseError::new(None, Some("xx".into()), Some("yy".into())))
    );
}

#[test]
fn from_str_is_the_same_as_parse() {
    let parsed: FileLineColumn = "a:1,2".parse().unwrap();
    assert_eq!(parsed, FileLineColumn::new(Some("a".into()), Some(1), Some(2)));
}

#[test]
fn the_last_colon_splits_the_file_from_the_line() {
    assert_eq!(parse("a:b:3"), Ok(FileLineColumn::new(Some("a:b".into()), Some(3), None)));
}

#[test]
fn numbers_are_read_the_way_usize_reads_them() {
    for s in ["0", "+7", "42", "007", "", "+", "-1", "1a", "18446744073709551615", "18446744073709551616"] {
        let chars: Vec<char> = s.chars().collect();
        assert_eq!(parse_usize(&chars), s.parse::<usize>().ok(), "{}", s);
    }
}

#[test]
fn the_browser_is_shown_unless_something_else_was_asked() {
    let args = |command: Option<Command>| Args { dir: None, command };
    assert!(args(None).browse());
    assert!(args(Some(Command::Browse)).browse());
    assert!(!args(Some(Command::Find { phrase: None })).browse());
    assert!(args(Some(Command::Edit { browse: true, file_line_column: None })).browse());
    assert!(!args(Some(Command::Edit { browse: false, file_line_column: None })).browse());
}

#[test]
fn editing_runs_the_editor_and_exits_unless_browsing() {
    let flc = FileLineColumn::new(Some("f.rs".into()), Some(3), Some(4));
    let args = Args { dir: None, command: Some(Command::Edit { browse: false, file_line_column: Some(flc) }) };
    let vim = VimArgs { path: Some("f.rs".into()), line: Some(3), column: Some(4) };
    assert_eq!(args.starting_effects(), Some(vec![StartingEffect::RunVim(vim.clone()), StartingEffect::Exit]));
    let args = Args { dir: None, command: Some(Command::Browse) };
    assert_eq!(args.starting_effects(), None);
}

#[test]
fn finding_starts_with_an_enter() {
    let args = Args { dir: None, command: Some(Command::Find { phrase: Some("x".into()) }) };
    assert_eq!(
        args.starting_term_events(),
        Some(vec![TermEvent::KeyEvent(KeyEvent { key: Key::CarriageReturn, mods: KeyMods::none() })])
    );
    assert_eq!(Args { dir: None, command: None }.starting_term_events(), None);
}

#[test]
fn a_file_line_and_column_are_written_the_way_they_are_read() {
    let cases = [
        (FileLineColumn::new(Some(String::from("foo.py")), None, None), "foo.py"),
        (FileLineColumn::new(Some(String::from("foo.py")), Some(42), None), "foo.py:42"),
        (FileLineColumn::new(Some(String::from("a:b.py")), Some(42), Some(7)), "a:b.py:42,7"),
        (FileLineColumn::new(None, Some(1), Some(2)), ""),
    ];
    for (f, text) in cases {
        assert_eq!(f.text(), text);
        if !text.is_empty() {
            assert_eq!(parse(text), Ok(f));
        }
    }
}

#[test]
fn a_parse_error_says_each_part_which_could_not_be_read() {
    assert_eq!(
        FileLineColumnParseError::from_bad_line(String::from("xx")).message(),
        "Could not parse \"xx\" as a line number."
    );
    assert_eq!(
        FileLineColumnParseError::new(None, Some(String::from("xx")), Some(String::from("yy"))).message(),
        "Could not parse \"xx\" as a line number and could not parse \"yy\" as a column number."
    );
    assert_eq!(
        FileLineColumnParseError::new(Some(String::from("f")), Some(String::from("l")), Some(String::from("c"))).message(),
        "Could not parse \"f\" as a file path, could not parse \"l\" as a line number, and could not parse \"c\" as a column number."
    );
    assert_eq!(
        FileLineColumnParseError::default().message(),
        "Something went wrong parsing the file, optional line, and or the optional column."
    );
}

#[test]
fn the_starting_directory_is_made_absolute() {
    let args = Args { dir: Some(String::from("src")), command: None };
    assert_eq!(args.dir("/home/pat"), Some(String::from("/home/pat/src")));
    let args = Args { dir: Some(String::from("/data")), command: None };
    assert_eq!(args.dir("/home/pat"), Some(String::from("/data")));
    let args = Args { dir: None, command: None };
    assert_eq!(args.dir("/home/pat"), None);
}

#[test]
fn editing_then_browsing_starts_where_the_file_is() {
    let edit = |browse: bool, file: &str| Args {
        dir: None,
        command: Some(Command::Edit {
            browse,
            file_line_column: Some(FileLineColumn::new(Some(file.to_string()), None, None)),
        }),
    };
    assert_eq!(edit(true, "/home/pat/src/main.rs").dir("/tmp"), Some(String::from("/home/pat/src")));
    assert_eq!(edit(true, "notes.txt").dir("/tmp"), Some(String::from("/tmp/")));
    assert_eq!(edit(false, "/home/pat/src/main.rs").dir("/tmp"), None);
}
