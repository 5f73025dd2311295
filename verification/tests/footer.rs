use insh::footer::footer_line;

fn line(text: &str, position: &str, name: &str, columns: usize) -> String {
    footer_line(text, position, name, columns).into_iter().collect()
}

#[test]
fn the_position_and_name_go_to_the_right() {
    assert_eq!(line("", "1/10", "browser", 20), "       1/10  browser");
}

#[test]
fn the_text_is_cut_to_leave_room_for_the_rest() {
    assert_eq!(line("12 files searched (0.05s)", "2/3", "finder", 20), "12 files 2/3  finder");
    assert_eq!(line("1 file searched (0.05s)", "-/142", "searcher", 30), "1 file searche -/142  searcher");
}

#[test]
fn a_footer_is_as_wide_as_it_was_asked_for() {
    for columns in [0, 1, 5, 13, 40] {
        assert_eq!(footer_line("some text", "3/4", "chat", columns).len(), columns);
    }
}
