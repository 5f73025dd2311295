use insh::wrapping::{said_lines_of, typed_lines_of, typed_rows_needed, Cluster};

/// The clusters of some text in which every character is a cluster of its own, those given as
/// wide taking two columns and the rest one.
fn clusters(text: &str, wide: &[char]) -> Vec<Cluster> {
    text.chars()
        .map(|c| Cluster { text: c.to_string(), width: if wide.contains(&c) { 2 } else { 1 } })
        .collect()
}

fn said(text: &str, columns: usize) -> Vec<String> {
    let paragraphs: Vec<Vec<Vec<Cluster>>> = text
        .split('\n')
        .map(|p| p.split(' ').map(|w| clusters(w, &['🚀'])).collect())
        .collect();
    said_lines_of(&paragraphs, columns)
}

fn typed(text: &str) -> Vec<Vec<Cluster>> {
    text.split('\n').map(|p| clusters(p, &['🚀', '界'])).collect()
}

#[test]
fn what_was_said_is_wrapped_between_words() {
    assert_eq!(said("one two three four five", 10), vec!["one two", "three four", "five"]);
}

#[test]
fn a_word_wider_than_a_line_is_broken_and_kept_whole() {
    let url = "https://example.com/a/very/long/path/which/does/not/fit";
    let lines = said(url, 20);
    assert_eq!(lines.concat(), url);
    assert!(lines.len() > 1);
    assert!(lines.iter().all(|line| line.chars().count() <= 20));
}

#[test]
fn a_wide_word_is_broken_between_its_clusters() {
    let word = "🚀".repeat(8);
    let lines = said(&word, 5);
    assert_eq!(lines.concat(), word);
    assert_eq!(lines.len(), 4);
    assert!(lines.iter().all(|line| line.chars().count() == 2));
}

#[test]
fn each_paragraph_that_was_said_starts_a_line() {
    assert_eq!(said("one\n\ntwo", 40), vec!["one", "", "two"]);
    assert_eq!(said("a  b", 40), vec!["a  b"]);
}

#[test]
fn nothing_said_is_shown_without_columns() {
    assert!(said("hi", 0).is_empty());
}

#[test]
fn what_is_typed_is_cut_where_a_row_runs_out() {
    assert_eq!(typed_lines_of(&typed("abcde"), 2), vec!["ab", "cd", "e"]);
    assert_eq!(typed_lines_of(&typed("ab"), 2), vec!["ab"]);
    assert_eq!(typed_lines_of(&typed("a界b"), 2), vec!["a", "界", "b"]);
    assert_eq!(typed_lines_of(&typed("a\n\nb"), 5), vec!["a", "", "b"]);
    assert!(typed_lines_of(&typed("abc"), 0).is_empty());
}

#[test]
fn a_cluster_wider_than_the_box_gets_a_row_of_its_own() {
    assert_eq!(typed_lines_of(&typed("🚀"), 1), vec!["", "🚀"]);
}

#[test]
fn the_box_is_a_row_high_to_start_with_and_grows() {
    assert_eq!(typed_rows_needed(&typed(""), 10), 1);
    assert_eq!(typed_rows_needed(&typed("abc"), 0), 1);
    assert_eq!(typed_rows_needed(&typed("abcdefghijk"), 5), 3);
    assert_eq!(typed_rows_needed(&typed("a\nb"), 5), 2);
}

#[test]
fn nothing_typed_is_lost_to_the_wrapping() {
    let value = "a界b🚀cdefg界";
    for columns in 1..6 {
        assert_eq!(typed_lines_of(&typed(value), columns).concat(), value);
    }
}
