use insh::transcript::{max_offset, window, Action, Effect, Message, State};
use insh::keys::Size;

/// Return how many times the transcript scrolled back before it would not go further.
fn scrolls(state: &mut State, lines: usize, tries: usize) -> usize {
    (0..tries)
        .take_while(|_| {
            let max = max_offset(lines, state.size());
            state.perform(Action::Up { max }).is_none()
        })
        .count()
}

fn transcript(size: Size, replies: usize) -> State {
    let mut state = State::new();
    state.perform(Action::Resize { size });
    state.perform(Action::Show {
        error: None,
        messages: vec![(false, "line\n\n".repeat(replies))],
    });
    state
}

#[test]
fn test_scrolling_back_stops_at_the_oldest_line() {
    // Twenty paragraphs of one line each come to 39 lines with the blank ones between them.
    let lines: usize = 39;
    let size: Size = Size::new(5, 40);
    let mut state = transcript(size, 20);

    let scrolled: usize = scrolls(&mut state, lines, 500);
    assert!(scrolled > 0, "it would not scroll at all");
    assert!(scrolled < 500, "it never stopped");

    let (start, end) = window(lines, size.rows, state.offset());
    assert_eq!(start, 0, "the view went past the oldest line and left a blank row at the top");
    assert_eq!(end - start, size.rows);
}

#[test]
fn test_what_was_said_does_not_go_missing_when_the_transcript_grows() {
    let lines: usize = 39;
    let told: Size = Size::new(0, 40);
    let drawn: Size = Size::new(10, 40);
    let mut state = transcript(told, 20);

    scrolls(&mut state, lines, 500);
    let (start, end) = window(lines, drawn.rows, state.offset());
    assert!(end > start, "every row was blank");
}

#[test]
fn test_a_transcript_which_fits_does_not_scroll() {
    let size: Size = Size::new(40, 40);
    let mut state = transcript(size, 2);
    assert_eq!(scrolls(&mut state, 3, 10), 0);
}

#[test]
fn test_an_empty_transcript_does_not_scroll() {
    let mut state = State::new();
    state.perform(Action::Resize { size: Size::new(10, 40) });
    assert_eq!(scrolls(&mut state, 0, 10), 0);
}

#[test]
fn a_reply_is_put_together_from_its_pieces() {
    let mut state = State::new();
    state.perform(Action::Said { message: String::from("hi") });
    state.perform(Action::Expect { uuid: 9 });
    state.perform(Action::Thinking { uuid: 9, word: Some(String::from("thinking")) });
    assert_eq!(state.thinking(), Some(&String::from("thinking")));
    state.perform(Action::Delta { uuid: 9, text: String::from("hel"), error: None });
    state.perform(Action::Delta { uuid: 8, text: String::from("XX"), error: None });
    state.perform(Action::Delta { uuid: 9, text: String::from("lo"), error: None });
    state.perform(Action::Ended { uuid: 9 });
    assert_eq!(state.thinking(), None);
    let messages = state.messages();
    assert_eq!(messages.len(), 2);
    assert_eq!(messages[0], Message::Said(String::from("hi")));
    assert_eq!(messages[1].text(), "hello");
    // The reply is over, so more of it is not wanted.
    state.perform(Action::Delta { uuid: 9, text: String::from("!"), error: None });
    assert_eq!(state.messages()[1].text(), "hello");
}

#[test]
fn scrolling_forward_from_the_newest_rings_the_bell() {
    let mut state = State::new();
    assert_eq!(state.perform(Action::Down), Some(Effect::Bell));
    assert_eq!(state.perform(Action::Up { max: 1 }), None);
    assert_eq!(state.offset(), 1);
    assert_eq!(state.perform(Action::Down), None);
    assert_eq!(state.offset(), 0);
}

#[test]
fn an_error_in_a_piece_is_kept() {
    let mut state = State::new();
    state.perform(Action::Expect { uuid: 1 });
    state.perform(Action::Delta { uuid: 1, text: String::new(), error: Some(String::from("oops")) });
    assert_eq!(state.error(), Some(&String::from("oops")));
    state.perform(Action::Said { message: String::from("again") });
    assert_eq!(state.error(), None);
}

#[test]
fn the_window_of_a_scrolled_transcript() {
    assert_eq!(window(10, 4, 0), (6, 10));
    assert_eq!(window(10, 4, 3), (3, 7));
    assert_eq!(window(10, 4, 99), (0, 4));
    assert_eq!(window(2, 4, 1), (0, 2));
    assert_eq!(max_offset(10, Size::new(4, 0)), 0);
    assert_eq!(max_offset(10, Size::new(4, 8)), 6);
}
