use insh::paths::{file_name, is_absolute, join, normalized, parent, pop, strip_prefix};

#[test]
fn the_parts_of_a_path_are_taken_apart() {
    assert_eq!(parent("/home/pat/src"), Some(String::from("/home/pat")));
    assert_eq!(parent("/"), None);
    assert_eq!(file_name("/home/pat/notes.txt"), Some(String::from("notes.txt")));
    assert_eq!(strip_prefix("/home/pat/src", "/home/pat"), Some(String::from("src")));
    assert_eq!(strip_prefix("/data", "/home/pat"), None);
}

#[test]
fn paths_are_joined_and_normalized() {
    assert_eq!(join("/home/pat", "src"), "/home/pat/src");
    assert_eq!(join("/home/pat", "/data"), "/data");
    assert!(is_absolute("/data"));
    assert!(!is_absolute("data"));
    assert_eq!(normalized("/home/pat/./src/"), "/home/pat/src");
}

#[test]
fn popping_goes_to_the_parent_unless_at_the_root() {
    let mut path = String::from("/home/pat");
    assert!(pop(&mut path));
    assert_eq!(path, "/home");
    let mut root = String::from("/");
    assert!(!pop(&mut root));
    assert_eq!(root, "/");
}

#[test]
fn a_separator_is_put_between_joined_paths_only_where_one_is_missing() {
    assert_eq!(join("/home/pat/", "src"), "/home/pat/src");
    assert_eq!(join("", "src"), "src");
    assert_eq!(join("/home/pat", ""), "/home/pat/");
    assert_eq!(join("a", "b/c"), "a/b/c");
}

#[test]
fn a_path_is_put_back_together_from_its_components() {
    assert_eq!(normalized("//a//b/"), "/a/b");
    assert_eq!(normalized("./a/./b"), "./a/b");
    assert_eq!(normalized("."), ".");
    assert_eq!(normalized("./"), ".");
    assert_eq!(normalized(""), "");
    assert_eq!(normalized("/"), "/");
    assert_eq!(normalized("a/../b"), "a/../b");
    assert_eq!(normalized(".a/b"), ".a/b");
    assert_eq!(normalized("/./a"), "/a");
}

#[test]
fn a_path_is_put_back_together_as_the_standard_library_does() {
    let cases = [
        "", "/", "//", ".", "./", "./.", "..", "../a", "a", "a/", "a//b", "a/./b/.", "./a/./b",
        "/./a/", "//a//b/", ".a/b", "a/.b", "~/src", "/home/pat/../data/", "x/./../y",
    ];
    for path in cases {
        let expected: std::path::PathBuf = std::path::Path::new(path).components().collect();
        assert_eq!(normalized(path), expected.to_string_lossy(), "for {:?}", path);
    }
}
