use insh::markdown::{fit, render, renderable, Event, Run, Span, Tag, TagEnd};
use insh::markdown_read::{code_blocks, events_of, mark_of, read_markdown, Mark, Piece};
use insh::wrapping::Cluster;

/// The clusters of some text, each character a cluster of its own, a rocket two columns wide
/// and anything else one.
fn clusters(text: &str) -> Vec<Cluster> {
    text.chars()
        .map(|c| Cluster { text: c.to_string(), width: if c == '🚀' { 2 } else { 1 } })
        .collect()
}

/// The clusters read for each piece of some markdown.
fn clusters_of(pieces: &[Piece]) -> Vec<Vec<Cluster>> {
    pieces
        .iter()
        .map(|piece| match piece {
            Piece::Text(text) | Piece::Code(text) => clusters(text),
            _ => Vec::new(),
        })
        .collect()
}

/// The pieces of some markdown to lay out, code left uncolored.
fn events(text: &str) -> Vec<Event> {
    let pieces = read_markdown(text);
    let code: Vec<Vec<Vec<Span>>> = code_blocks(&pieces)
        .iter()
        .map(|block| {
            block.lines.iter().map(|line| vec![Span { text: clusters(line), kind: None }]).collect()
        })
        .collect();
    events_of(&pieces, &clusters_of(&pieces), &code)
}

/// The text of a line as it is drawn at a width: cut off at the edge, blanks at the end left off.
fn shown(line: &[Run], columns: usize) -> String {
    let mut text = String::new();
    let mut taken = 0;
    for run in line {
        for cluster in &run.text {
            if taken >= columns {
                break;
            }
            text.push_str(&cluster.text);
            taken += cluster.width;
        }
    }
    text.trim_end().to_string()
}

/// The text of the lines which some markdown is shown as.
fn lines(text: &str, columns: usize) -> Vec<String> {
    let events = events(text);
    assert!(renderable(&events, columns));
    render(&events, columns).iter().map(|line| shown(line, columns)).collect()
}

#[test]
fn test_nothing_to_show() {
    assert!(lines("", 20).is_empty());
    assert!(lines("hi", 0).is_empty());
}

#[test]
fn test_a_word_which_does_not_fit_is_broken() {
    let url: &str = "https://example.com/a/very/long/path/which/does/not/fit";
    let lines: Vec<String> = lines(url, 20);
    assert_eq!(lines.concat(), url, "The whole of it has to still be there.");
    assert!(lines.len() > 1, "It has to be broken over more than one line.");
    assert!(lines.iter().all(|line| line.chars().count() <= 20));
}

#[test]
fn test_a_wide_word_is_broken_between_clusters() {
    let word: String = "🚀".repeat(8);
    let lines: Vec<String> = lines(&word, 5);
    assert_eq!(lines.concat(), word);
    assert!(lines.iter().all(|line| line.chars().count() <= 2));
}

#[test]
fn test_a_paragraph_is_wrapped() {
    assert_eq!(lines("one two three four five", 10), vec!["one two", "three four", "five"]);
}

#[test]
fn test_emphasis_does_not_show_its_markers() {
    assert_eq!(lines("a **bold** word", 40), vec!["a bold word"]);
}

#[test]
fn test_inline_code_does_not_show_its_markers() {
    assert_eq!(lines("run `ls -l` now", 40), vec!["run ls -l now"]);
}

#[test]
fn test_a_list_is_bulleted() {
    assert_eq!(lines("- one\n- two", 40), vec!["• one", "• two"]);
}

#[test]
fn test_a_code_block_keeps_its_lines() {
    let text: &str = "```rust\nfn main() {\n    let x = 1;\n}\n```";
    assert_eq!(lines(text, 40), vec!["fn main() {", "    let x = 1;", "}"]);
}

#[test]
fn test_a_code_block_in_an_unknown_language_is_still_shown() {
    let text: &str = "```brainfuck\n+++...\n```";
    assert_eq!(lines(text, 40), vec!["+++..."]);
}

#[test]
fn test_a_table_is_ruled_between_every_row() {
    let text: &str = "| a | b |\n| --- | --- |\n| c | d |\n| e | f |";
    assert_eq!(
        lines(text, 40),
        vec!["┌───┬───┐", "│ a │ b │", "├───┼───┤", "│ c │ d │", "├───┼───┤", "│ e │ f │", "└───┴───┘"]
    );
}

#[test]
fn test_a_table_is_drawn_in_a_box() {
    let text: &str = "| a | bbbb |\n| --- | --- |\n| cccc | d |";
    assert_eq!(
        lines(text, 40),
        vec!["┌──────┬──────┐", "│ a    │ bbbb │", "├──────┼──────┤", "│ cccc │ d    │", "└──────┴──────┘"]
    );
}

#[test]
fn test_a_heading_is_shown_without_its_hashes() {
    assert_eq!(lines("# Title", 40), vec!["Title"]);
}

#[test]
fn test_a_quote_is_marked() {
    assert_eq!(lines("> quoted", 40), vec!["▏ quoted"]);
}

#[test]
fn test_paragraphs_are_kept_apart() {
    assert_eq!(lines("one\n\ntwo", 40), vec!["one", "", "two"]);
}

#[test]
fn a_code_line_is_padded_to_the_edge_on_the_background_of_code() {
    let events = events("```\nab\n```");
    let lines = render(&events, 5);
    assert_eq!(lines.len(), 1);
    let width: usize = lines[0].iter().flat_map(|run| run.text.iter()).map(|c| c.width).sum();
    assert_eq!(width, 5);
    assert!(lines[0].iter().all(|run| run.background.is_some()));
}

#[test]
fn a_nested_item_is_indented() {
    assert_eq!(lines("- a\n  - b", 40), vec!["• a", "  • b"]);
}

#[test]
fn a_rule_is_as_wide_as_the_lines_and_follows_straight_on() {
    assert_eq!(lines("a\n\n---\n\nb", 4), vec!["a", "────", "", "b"]);
}

#[test]
fn too_much_markdown_cannot_be_laid_out() {
    let events = vec![Event::Text(vec![Cluster { text: "x".to_string(), width: usize::MAX }])];
    assert!(!renderable(&events, 10));
}

#[test]
fn bold_text_is_shown_in_the_color_for_bold() {
    let events = events("a **bold** word");
    let lines = render(&events, 40);
    assert_eq!(lines.len(), 1);
    let bold = insh::color::Color::Bold.ansi();
    for run in &lines[0] {
        let text: String = run.text.iter().map(|c| c.text.as_str()).collect();
        if text.contains("bold") {
            assert_eq!(run.color, Some(bold));
        } else {
            assert_eq!(run.color, None);
        }
    }
}

#[test]
fn a_light_heading_keeps_its_gray() {
    let events = events("### Title");
    let lines = render(&events, 40);
    assert_eq!(lines[0][0].color, Some(insh::color::Color::LightGrayedText.ansi()));
    let events = events_of_heading();
    let lines = render(&events, 40);
    assert_eq!(lines[0][0].color, Some(insh::color::Color::Bold.ansi()));
}

fn events_of_heading() -> Vec<Event> {
    events("# Title")
}

#[test]
fn test_every_line_is_as_wide_as_it_was_asked_for() {
    let text: &str = "# Title\n\nsome words\n\n- a list\n\n```rust\nfn a() {}\n```";
    for line in render(&events(text), 30) {
        let fitted = fit(&line, 30);
        let width: usize = fitted.iter().flat_map(|run| run.text.iter()).map(|c| c.width).sum();
        assert_eq!(width, 30);
    }
}

#[test]
fn a_line_too_wide_is_cut_before_the_first_cluster_which_does_not_fit() {
    let line = vec![Run { text: clusters("ab🚀c"), color: None, background: None }];
    let fitted = fit(&line, 3);
    let text: String = fitted.iter().flat_map(|run| run.text.iter()).map(|c| c.text.as_str()).collect();
    assert_eq!(text, "ab ");
}

#[test]
fn markdown_with_nothing_in_it_is_read_as_no_pieces() {
    assert!(read_markdown("").is_empty());
    assert!(render(&events(""), 20).is_empty());
}

#[test]
fn a_heading_is_read_with_its_level() {
    let pieces = read_markdown("### Title");
    assert_eq!(pieces.len(), 3);
    assert!(matches!(&pieces[0], Piece::Start(name) if mark_of(name) == (Mark::Heading { level: 3 })));
    assert!(matches!(&pieces[1], Piece::Text(text) if text == "Title"));
    assert!(matches!(&pieces[2], Piece::End(name) if mark_of(name) == (Mark::Heading { level: 3 })));
}

#[test]
fn strong_emphasis_and_tables_are_read() {
    let pieces = read_markdown("a **b**");
    assert!(matches!(&pieces[2], Piece::Start(name) if mark_of(name) == Mark::Strong));
    let pieces = read_markdown("| a | b | c |\n| - | - | - |\n| d | e | f |");
    assert!(matches!(pieces[0], Piece::StartTable { columns: 3 }));
    assert!(pieces
        .iter()
        .any(|piece| matches!(piece, Piece::End(name) if mark_of(name) == Mark::TableHead)));
}

#[test]
fn a_fenced_block_is_read_with_its_name_and_its_lines() {
    let pieces = read_markdown("```rust\nfn main() {\n}\n```");
    assert!(matches!(&pieces[0], Piece::StartFenced(name) if name == "rust"));
    let blocks = code_blocks(&pieces);
    assert_eq!(blocks.len(), 1);
    assert_eq!(blocks[0].fence.as_deref(), Some("rust"));
    assert_eq!(blocks[0].lines, vec!["fn main() {".to_string(), "}".to_string()]);
}

#[test]
fn the_lines_of_a_block_lose_its_line_ends_at_the_end_only() {
    let pieces = vec![
        Piece::Start("CodeBlock".to_string()),
        Piece::Text("a\n\nb\n".to_string()),
        Piece::Text("\n".to_string()),
        Piece::End("CodeBlock".to_string()),
    ];
    let blocks = code_blocks(&pieces);
    assert_eq!(blocks.len(), 1);
    assert_eq!(blocks[0].fence, None);
    assert_eq!(blocks[0].lines, vec!["a".to_string(), String::new(), "b".to_string()]);
}

#[test]
fn a_block_which_is_never_ended_is_left_out() {
    let pieces = vec![Piece::StartFenced("sh".to_string()), Piece::Text("ls\n".to_string())];
    assert!(code_blocks(&pieces).is_empty());
    assert!(events_of(&pieces, &clusters_of(&pieces), &Vec::new()).is_empty());
}

#[test]
fn the_text_of_a_block_comes_as_the_lines_read_for_it() {
    let pieces = vec![
        Piece::Text("x".to_string()),
        Piece::Start("CodeBlock".to_string()),
        Piece::Text("y\n".to_string()),
        Piece::End("CodeBlock".to_string()),
        Piece::End("CodeBlock".to_string()),
    ];
    let code = vec![vec![vec![Span { text: clusters("z"), kind: None }]]];
    let events = events_of(&pieces, &clusters_of(&pieces), &code);
    assert_eq!(events.len(), 2);
    assert!(matches!(&events[0], Event::Text(text) if text.len() == 1 && text[0].text == "x"));
    match &events[1] {
        Event::CodeBlock(lines) => {
            assert_eq!(lines.len(), 1);
            assert_eq!(lines[0][0].text[0].text, "z");
        }
        _ => panic!("a block of code was expected"),
    }
}

#[test]
fn what_starts_and_ends_is_told_apart_as_the_layout_tells_it_apart() {
    let pieces = vec![
        Piece::Start("Heading(H4)".to_string()),
        Piece::Start("Heading(H2)".to_string()),
        Piece::Start("Strong".to_string()),
        Piece::End("Heading(H2)".to_string()),
        Piece::End("TableHead".to_string()),
        Piece::Start("TableRow".to_string()),
        Piece::SoftBreak,
        Piece::Other,
    ];
    let events = events_of(&pieces, &Vec::new(), &Vec::new());
    assert_eq!(events.len(), 8);
    assert!(matches!(events[0], Event::Start(Tag::Heading { light: true })));
    assert!(matches!(events[1], Event::Start(Tag::Heading { light: false })));
    assert!(matches!(events[2], Event::Start(Tag::Emphasis)));
    assert!(matches!(events[3], Event::End(TagEnd::Paragraph)));
    assert!(matches!(events[4], Event::End(TagEnd::TableRow)));
    assert!(matches!(events[5], Event::Start(Tag::Other)));
    assert!(matches!(events[6], Event::Break));
    assert!(matches!(events[7], Event::Other));
}

#[test]
fn text_with_nothing_read_for_it_has_no_clusters() {
    let pieces = vec![Piece::Text("abc".to_string()), Piece::Code("d".to_string())];
    let events = events_of(&pieces, &Vec::new(), &Vec::new());
    assert!(matches!(&events[0], Event::Text(text) if text.is_empty()));
    assert!(matches!(&events[1], Event::Code(text) if text.is_empty()));
}

#[test]
fn the_names_of_elements_are_read() {
    assert_eq!(mark_of("Paragraph"), Mark::Paragraph);
    assert_eq!(mark_of("Heading(H1)"), Mark::Heading { level: 1 });
    assert_eq!(mark_of("Heading(H6)"), Mark::Heading { level: 6 });
    assert_eq!(mark_of("Heading(H7)"), Mark::Other);
    assert_eq!(mark_of("BlockQuote(None)"), Mark::BlockQuote);
    assert_eq!(mark_of("List(true)"), Mark::List);
    assert_eq!(mark_of("CodeBlock"), Mark::CodeBlock);
    assert_eq!(mark_of("TableHead"), Mark::TableHead);
    assert_eq!(mark_of("Strikethrough"), Mark::Strikethrough);
    assert_eq!(mark_of("Link"), Mark::Other);
}
