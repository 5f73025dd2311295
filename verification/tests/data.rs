use insh::data::SearcherData;
use insh::search_completer::SearchCompleter;

#[test]
fn the_history_keeps_only_the_newest_searches() {
    let mut data = SearcherData::default();
    for phrase in ["one", "two", "three"] {
        data.add_to_history(phrase, 2);
    }
    let history: Vec<&str> = data.history.iter().map(|s| s.as_str()).collect();
    assert_eq!(history, vec!["two", "three"]);
}

#[test]
fn the_newest_search_starting_with_what_was_typed_is_suggested() {
    let mut data = SearcherData::default();
    for phrase in ["fn main", "struct", "fn other"] {
        data.add_to_history(phrase, 10);
    }
    let completer = SearchCompleter::new();
    assert_eq!(completer.complete(&data.history, "fn"), Some(String::from("fn other")));
    assert_eq!(completer.complete(&data.history, "st"), Some(String::from("struct")));
    assert_eq!(completer.complete(&data.history, "x"), None);
}
