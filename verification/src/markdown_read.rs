//! Reading the markdown an inference engine replies in.
//!
//! pulldown-cmark reads the text into pieces, one for each of its events. The library then
//! gathers the text of each block of code, so that the block can be split into lines and colored,
//! and turns the rest into the pieces of markdown which the markdown module lays out. What a
//! terminal makes of each character (which characters are one cluster, and how many columns it
//! takes) and what kind of code each part of a line is are read outside the library and handed in.

use vstd::prelude::*;

use crate::color::Kind;
use crate::markdown::{
    code_view, copy_clusters, cvs, event_view, events_view, spans_view, Cv, Event, EventView, Span, Tag,
    TagEnd,
};
use crate::markdown::{law_nothing_to_show, rendered};
use crate::text::{chars_of, has_prefix, starts_with, str_equal, string_of, string_of_chars};
use crate::wrapping::Cluster;

use pulldown_cmark::{CodeBlockKind, Event as MdEvent, Options, Parser, Tag as MdTag};

verus! {

/// Which element of markdown a piece starts or ends.
#[derive(Clone, Copy, Debug, PartialEq, Eq, Structural)]
pub enum Mark {
    /// A paragraph.
    Paragraph,
    /// A heading.
    Heading {
        /// Its level, from one to six.
        level: usize,
    },
    /// A quote.
    BlockQuote,
    /// A block of code.
    CodeBlock,
    /// A list.
    List,
    /// An item of a list.
    Item,
    /// A table.
    Table,
    /// The head of a table.
    TableHead,
    /// A row of a table.
    TableRow,
    /// A cell of a table.
    TableCell,
    /// Emphasis.
    Emphasis,
    /// Strong emphasis.
    Strong,
    /// Text which is struck through.
    Strikethrough,
    /// Anything else.
    Other,
}

/// A piece of markdown as pulldown-cmark reads it.
#[derive(Clone, Debug)]
pub enum Piece {
    /// Some text.
    Text(String),
    /// Some code in the middle of a sentence.
    Code(String),
    /// A break in a paragraph which is not written as one.
    SoftBreak,
    /// A break in a paragraph which is written as one.
    HardBreak,
    /// A horizontal rule.
    Rule,
    /// The start of an element, by the name pulldown-cmark gives the element.
    Start(String),
    /// The start of a fenced block of code, with the name written after the fence.
    StartFenced(String),
    /// The start of a table.
    StartTable {
        /// How many columns it has.
        columns: usize,
    },
    /// The end of an element, by the name pulldown-cmark gives the element.
    End(String),
    /// Anything else.
    Other,
}

/// A piece of markdown as what it holds.
pub enum PieceView {
    /// Some text.
    Text(Seq<char>),
    /// Some code in the middle of a sentence.
    Code(Seq<char>),
    /// A break in a paragraph which is not written as one.
    SoftBreak,
    /// A break in a paragraph which is written as one.
    HardBreak,
    /// A horizontal rule.
    Rule,
    /// The start of an element, by the name pulldown-cmark gives the element.
    Start(Seq<char>),
    /// The start of a fenced block of code, with the name written after the fence.
    StartFenced(Seq<char>),
    /// The start of a table.
    StartTable {
        /// How many columns it has.
        columns: usize,
    },
    /// The end of an element, by the name pulldown-cmark gives the element.
    End(Seq<char>),
    /// Anything else.
    Other,
}

/// A piece of markdown as what it holds.
pub open spec fn piece_view(p: Piece) -> PieceView {
    match p {
        Piece::Text(t) => PieceView::Text(t@),
        Piece::Code(t) => PieceView::Code(t@),
        Piece::SoftBreak => PieceView::SoftBreak,
        Piece::HardBreak => PieceView::HardBreak,
        Piece::Rule => PieceView::Rule,
        Piece::Start(name) => PieceView::Start(name@),
        Piece::StartFenced(name) => PieceView::StartFenced(name@),
        Piece::StartTable { columns } => PieceView::StartTable { columns },
        Piece::End(name) => PieceView::End(name@),
        Piece::Other => PieceView::Other,
    }
}

/// Pieces of markdown as what they hold.
pub open spec fn pieces_view(pieces: Seq<Piece>) -> Seq<PieceView> {
    pieces.map_values(|p: Piece| piece_view(p))
}

/// What pulldown-cmark reads some markdown as, with tables and struck through text read too.
pub uninterp spec fn markdown_pieces(text: Seq<char>) -> Seq<PieceView>;

/// Return the pieces which pulldown-cmark reads some markdown as, with tables and struck
/// through text read too.
///
/// Calls `pulldown_cmark::Parser::new_ext` and turns each event it gives into one piece: text and
/// code keep their text, breaks and rules stay what they are, a fenced block of code keeps the
/// name after its fence, a table how many columns it has, and the start or end of any other
/// element comes with the name pulldown-cmark gives the element (its `Debug` form, such as
/// `Paragraph` or `Heading(H3)`), which `mark_of` reads. Which pieces come of which text is
/// pulldown-cmark's reading of CommonMark, which is named here rather than written out; the one
/// fact stated of it is that text with nothing in it gives no pieces.
#[verifier::external_body]
pub fn read_markdown(text: &str) -> (pieces: Vec<Piece>)
    ensures
        pieces_view(pieces@) == markdown_pieces(text@),
        text@.len() == 0 ==> pieces@.len() == 0,
{
    let options = Options::ENABLE_TABLES | Options::ENABLE_STRIKETHROUGH;
    let pieces = Parser::new_ext(text, options).map(|event| match event {
        MdEvent::Text(t) => Piece::Text(t.to_string()),
        MdEvent::Code(t) => Piece::Code(t.to_string()),
        MdEvent::SoftBreak => Piece::SoftBreak,
        MdEvent::HardBreak => Piece::HardBreak,
        MdEvent::Rule => Piece::Rule,
        MdEvent::Start(MdTag::CodeBlock(CodeBlockKind::Fenced(name))) => Piece::StartFenced(name.to_string()),
        MdEvent::Start(MdTag::Table(alignments)) => Piece::StartTable { columns: alignments.len() },
        MdEvent::Start(tag) => Piece::Start(format!("{:?}", tag.to_end())),
        MdEvent::End(tag) => Piece::End(format!("{:?}", tag)),
        _ => Piece::Other,
    });
    pieces.collect()
}

/// The level a digit gives a heading, which is nothing for a character that is not a digit from
/// one to six.
pub open spec fn level_of_digit(c: char) -> usize {
    if c == '1' {
        1
    } else if c == '2' {
        2
    } else if c == '3' {
        3
    } else if c == '4' {
        4
    } else if c == '5' {
        5
    } else if c == '6' {
        6
    } else {
        0
    }
}

/// The element pulldown-cmark gives a name to: `Heading(H1)` to `Heading(H6)` a heading of that
/// level, a name starting `BlockQuote(` a quote, one starting `List(` a list, the others as
/// they are written, and anything else an element with nothing of its own to show.
pub open spec fn mark_named(name: Seq<char>) -> Mark {
    if name == "Paragraph"@ {
        Mark::Paragraph
    } else if name.len() == 11 && starts_with(name, "Heading(H"@) && level_of_digit(name[9]) > 0
        && name[10] == ')' {
        Mark::Heading { level: level_of_digit(name[9]) }
    } else if starts_with(name, "BlockQuote("@) {
        Mark::BlockQuote
    } else if name == "CodeBlock"@ {
        Mark::CodeBlock
    } else if starts_with(name, "List("@) {
        Mark::List
    } else if name == "Item"@ {
        Mark::Item
    } else if name == "Table"@ {
        Mark::Table
    } else if name == "TableHead"@ {
        Mark::TableHead
    } else if name == "TableRow"@ {
        Mark::TableRow
    } else if name == "TableCell"@ {
        Mark::TableCell
    } else if name == "Emphasis"@ {
        Mark::Emphasis
    } else if name == "Strong"@ {
        Mark::Strong
    } else if name == "Strikethrough"@ {
        Mark::Strikethrough
    } else {
        Mark::Other
    }
}

/// Return the level a digit gives a heading, which is nothing for a character that is not a
/// digit from one to six.
fn digit_level(c: char) -> (level: usize)
    ensures
        level == level_of_digit(c),
{
    match c {
        '1' => 1,
        '2' => 2,
        '3' => 3,
        '4' => 4,
        '5' => 5,
        '6' => 6,
        _ => 0,
    }
}

/// Return the element pulldown-cmark gives a name to.
pub fn mark_of(name: &str) -> (m: Mark)
    ensures
        m == mark_named(name@),
{
    if str_equal(name, "Paragraph") {
        return Mark::Paragraph;
    }
    if name.unicode_len() == 11 && has_prefix(name, "Heading(H") {
        let level = digit_level(name.get_char(9));
        if level > 0 && name.get_char(10) == ')' {
            return Mark::Heading { level };
        }
    }
    if has_prefix(name, "BlockQuote(") {
        Mark::BlockQuote
    } else if str_equal(name, "CodeBlock") {
        Mark::CodeBlock
    } else if has_prefix(name, "List(") {
        Mark::List
    } else if str_equal(name, "Item") {
        Mark::Item
    } else if str_equal(name, "Table") {
        Mark::Table
    } else if str_equal(name, "TableHead") {
        Mark::TableHead
    } else if str_equal(name, "TableRow") {
        Mark::TableRow
    } else if str_equal(name, "TableCell") {
        Mark::TableCell
    } else if str_equal(name, "Emphasis") {
        Mark::Emphasis
    } else if str_equal(name, "Strong") {
        Mark::Strong
    } else if str_equal(name, "Strikethrough") {
        Mark::Strikethrough
    } else {
        Mark::Other
    }
}

/// The lines of a block of code as what they hold, each in pieces of the kinds of code they are.
pub type CodeLines = Seq<Seq<(Seq<Cv>, Option<Kind>)>>;

/// The start of something to lay out, for the start of an element: a heading of the third or
/// fourth level is written in a lighter gray, emphasis and strong emphasis are both read in bold,
/// and an element with nothing of its own to show is shown as what is inside it.
pub open spec fn start_tag(m: Mark) -> Tag {
    match m {
        Mark::Paragraph => Tag::Paragraph,
        Mark::Heading { level } => Tag::Heading { light: level == 3 || level == 4 },
        Mark::BlockQuote => Tag::BlockQuote,
        Mark::List => Tag::List,
        Mark::Item => Tag::Item,
        Mark::Table => Tag::Table { columns: 0 },
        Mark::TableCell => Tag::TableCell,
        Mark::Emphasis | Mark::Strong => Tag::Emphasis,
        Mark::Strikethrough => Tag::Strikethrough,
        _ => Tag::Other,
    }
}

/// The end of something to lay out, for the end of an element: a heading ends as a paragraph
/// does, and the head of a table as a row does.
pub open spec fn end_tag(m: Mark) -> TagEnd {
    match m {
        Mark::Paragraph | Mark::Heading { .. } => TagEnd::Paragraph,
        Mark::BlockQuote => TagEnd::BlockQuote,
        Mark::List => TagEnd::List,
        Mark::Item => TagEnd::Item,
        Mark::Table => TagEnd::Table,
        Mark::TableHead | Mark::TableRow => TagEnd::TableRow,
        Mark::TableCell => TagEnd::TableCell,
        Mark::Emphasis | Mark::Strong => TagEnd::Emphasis,
        Mark::Strikethrough => TagEnd::Strikethrough,
        _ => TagEnd::Other,
    }
}

/// The clusters read for the `i`th piece, which are none when nothing was read for it.
pub open spec fn clusters_at(clusters: Seq<Seq<Cv>>, i: int) -> Seq<Cv> {
    if 0 <= i < clusters.len() {
        clusters[i]
    } else {
        Seq::empty()
    }
}

/// The lines read for the `b`th block of code, which are none when nothing was read for it.
pub open spec fn lines_at(code: Seq<CodeLines>, b: int) -> CodeLines {
    if 0 <= b < code.len() {
        code[b]
    } else {
        Seq::empty()
    }
}

/// How far pieces of markdown have been gathered: the pieces to lay out so far, whether a block
/// of code is open, and how many blocks of code have been closed.
pub struct Gathering {
    /// The pieces to lay out so far.
    pub events: Seq<EventView>,
    /// Whether a block of code is open.
    pub open: bool,
    /// How many blocks of code have been closed.
    pub blocks: nat,
}

/// Pieces of markdown gathered into pieces to lay out, with the clusters read for each piece and
/// the lines read for each block of code: text inside a block of code is the block's, which
/// comes as the lines read for it when it ends; code, text and every other piece come as
/// themselves; the start of a block of code opens it; and the end of a block which is not open
/// shows nothing.
pub open spec fn gathered(pieces: Seq<PieceView>, clusters: Seq<Seq<Cv>>, code: Seq<CodeLines>) -> Gathering
    decreases pieces.len(),
{
    if pieces.len() == 0 {
        Gathering { events: Seq::empty(), open: false, blocks: 0 }
    } else {
        let g = gathered(pieces.drop_last(), clusters, code);
        let i = pieces.len() - 1;
        match pieces.last() {
            PieceView::Text(_) => if g.open {
                g
            } else {
                Gathering { events: g.events.push(EventView::Text(clusters_at(clusters, i))), ..g }
            },
            PieceView::Code(_) => Gathering { events: g.events.push(EventView::Code(clusters_at(clusters, i))), ..g },
            PieceView::SoftBreak | PieceView::HardBreak => Gathering { events: g.events.push(EventView::Break), ..g },
            PieceView::Rule => Gathering { events: g.events.push(EventView::Rule), ..g },
            PieceView::StartFenced(_) => Gathering { open: true, ..g },
            PieceView::StartTable { columns } => Gathering {
                events: g.events.push(EventView::Start(Tag::Table { columns })),
                ..g
            },
            PieceView::Start(name) => if mark_named(name) == Mark::CodeBlock {
                Gathering { open: true, ..g }
            } else {
                Gathering { events: g.events.push(EventView::Start(start_tag(mark_named(name)))), ..g }
            },
            PieceView::End(name) => if mark_named(name) == Mark::CodeBlock {
                if g.open {
                    Gathering {
                        events: g.events.push(EventView::CodeBlock(lines_at(code, g.blocks as int))),
                        open: false,
                        blocks: g.blocks + 1,
                    }
                } else {
                    g
                }
            } else {
                Gathering { events: g.events.push(EventView::End(end_tag(mark_named(name)))), ..g }
            },
            PieceView::Other => Gathering { events: g.events.push(EventView::Other), ..g },
        }
    }
}

/// Readings of clusters as what they hold.
pub open spec fn clusters_view(clusters: Seq<Vec<Cluster>>) -> Seq<Seq<Cv>> {
    clusters.map_values(|c: Vec<Cluster>| cvs(c@))
}

/// Readings of blocks of code as what they hold.
pub open spec fn blocks_view(code: Seq<Vec<Vec<Span>>>) -> Seq<CodeLines> {
    code.map_values(|b: Vec<Vec<Span>>| code_view(b@))
}

/// Return the start of something to lay out, for the start of an element.
fn tag_of(m: Mark) -> (t: Tag)
    ensures
        t == start_tag(m),
{
    match m {
        Mark::Paragraph => Tag::Paragraph,
        Mark::Heading { level } => Tag::Heading { light: level == 3 || level == 4 },
        Mark::BlockQuote => Tag::BlockQuote,
        Mark::List => Tag::List,
        Mark::Item => Tag::Item,
        Mark::Table => Tag::Table { columns: 0 },
        Mark::TableCell => Tag::TableCell,
        Mark::Emphasis | Mark::Strong => Tag::Emphasis,
        Mark::Strikethrough => Tag::Strikethrough,
        _ => Tag::Other,
    }
}

/// Return the end of something to lay out, for the end of an element.
fn tag_end_of(m: Mark) -> (t: TagEnd)
    ensures
        t == end_tag(m),
{
    match m {
        Mark::Paragraph | Mark::Heading { .. } => TagEnd::Paragraph,
        Mark::BlockQuote => TagEnd::BlockQuote,
        Mark::List => TagEnd::List,
        Mark::Item => TagEnd::Item,
        Mark::Table => TagEnd::Table,
        Mark::TableHead | Mark::TableRow => TagEnd::TableRow,
        Mark::TableCell => TagEnd::TableCell,
        Mark::Emphasis | Mark::Strong => TagEnd::Emphasis,
        Mark::Strikethrough => TagEnd::Strikethrough,
        _ => TagEnd::Other,
    }
}

/// Return a copy of the clusters read for the `i`th piece, which are none when nothing was read
/// for it.
fn clusters_for(clusters: &Vec<Vec<Cluster>>, i: usize) -> (r: Vec<Cluster>)
    ensures
        cvs(r@) == clusters_at(clusters_view(clusters@), i as int),
{
    if i < clusters.len() {
        copy_clusters(&clusters[i])
    } else {
        let r: Vec<Cluster> = Vec::new();
        assert(cvs(r@) =~= Seq::<Cv>::empty());
        r
    }
}

/// Return a copy of the pieces of a line of code.
fn copy_spans(spans: &Vec<Span>) -> (r: Vec<Span>)
    ensures
        spans_view(r@) == spans_view(spans@),
{
    let mut r: Vec<Span> = Vec::new();
    let mut i: usize = 0;
    while i < spans.len()
        invariant
            i <= spans.len(),
            spans_view(r@) == spans_view(spans@).take(i as int),
        decreases spans.len() - i,
    {
        let s = Span { text: copy_clusters(&spans[i].text), kind: spans[i].kind };
        let ghost old_r = r@;
        r.push(s);
        assert(spans_view(r@) =~= spans_view(old_r).push(spans_view(spans@)[i as int]));
        assert(spans_view(r@) =~= spans_view(spans@).take(i + 1));
        i = i + 1;
    }
    assert(spans_view(spans@).take(spans.len() as int) =~= spans_view(spans@));
    r
}

/// Return a copy of the lines read for the `b`th block of code, which are none when nothing was
/// read for it.
fn lines_for(code: &Vec<Vec<Vec<Span>>>, b: usize) -> (r: Vec<Vec<Span>>)
    ensures
        code_view(r@) == lines_at(blocks_view(code@), b as int),
{
    let mut r: Vec<Vec<Span>> = Vec::new();
    if b >= code.len() {
        assert(code_view(r@) =~= Seq::<Seq<(Seq<Cv>, Option<Kind>)>>::empty());
        return r;
    }
    let lines = &code[b];
    let mut i: usize = 0;
    while i < lines.len()
        invariant
            b < code.len(),
            *lines == code@[b as int],
            i <= lines.len(),
            code_view(r@) == code_view(lines@).take(i as int),
        decreases lines.len() - i,
    {
        let l = copy_spans(&lines[i]);
        let ghost old_r = r@;
        r.push(l);
        assert(code_view(r@) =~= code_view(old_r).push(code_view(lines@)[i as int]));
        assert(code_view(r@) =~= code_view(lines@).take(i + 1));
        i = i + 1;
    }
    assert(code_view(lines@).take(lines.len() as int) =~= code_view(lines@));
    r
}

/// Return the pieces to lay out which pieces of markdown are gathered into, with the clusters
/// read for each piece and the lines read for each block of code.
///
/// The text inside a block of code is left out: the block comes as the lines read for it when
/// it ends. Every other piece comes as itself, with the clusters read for it where it has text,
/// and with what it starts or ends told apart as the layout tells them apart.
pub fn events_of(pieces: &Vec<Piece>, clusters: &Vec<Vec<Cluster>>, code: &Vec<Vec<Vec<Span>>>) -> (events: Vec<Event>)
    ensures
        events_view(events@) == gathered(pieces_view(pieces@), clusters_view(clusters@), blocks_view(code@)).events,
{
    let ghost ps = pieces_view(pieces@);
    let ghost cl = clusters_view(clusters@);
    let ghost co = blocks_view(code@);
    let mut events: Vec<Event> = Vec::new();
    let mut open: bool = false;
    let mut b: usize = 0;
    let mut i: usize = 0;
    assert(ps.take(0) =~= Seq::<PieceView>::empty());
    assert(events_view(events@) =~= Seq::<EventView>::empty());
    while i < pieces.len()
        invariant
            ps == pieces_view(pieces@),
            cl == clusters_view(clusters@),
            co == blocks_view(code@),
            i <= pieces.len(),
            b <= i,
            gathered(ps.take(i as int), cl, co) == (Gathering { events: events_view(events@), open, blocks: b as nat }),
        decreases pieces.len() - i,
    {
        assert(ps.take(i + 1).drop_last() =~= ps.take(i as int));
        assert(ps.take(i + 1).last() == piece_view(pieces@[i as int]));
        let ghost old_events = events@;
        let e: Option<Event> = match &pieces[i] {
            Piece::Text(_) => if open {
                None
            } else {
                Some(Event::Text(clusters_for(clusters, i)))
            },
            Piece::Code(_) => Some(Event::Code(clusters_for(clusters, i))),
            Piece::SoftBreak => Some(Event::Break),
            Piece::HardBreak => Some(Event::Break),
            Piece::Rule => Some(Event::Rule),
            Piece::StartFenced(_) => {
                open = true;
                None
            },
            Piece::StartTable { columns } => Some(Event::Start(Tag::Table { columns: *columns })),
            Piece::Start(name) => {
                let m = mark_of(name.as_str());
                if m == Mark::CodeBlock {
                    open = true;
                    None
                } else {
                    Some(Event::Start(tag_of(m)))
                }
            },
            Piece::End(name) => {
                let m = mark_of(name.as_str());
                if m == Mark::CodeBlock {
                    if open {
                        let lines = lines_for(code, b);
                        open = false;
                        b = b + 1;
                        Some(Event::CodeBlock(lines))
                    } else {
                        None
                    }
                } else {
                    Some(Event::End(tag_end_of(m)))
                }
            },
            Piece::Other => Some(Event::Other),
        };
        match e {
            Some(e) => {
                events.push(e);
                assert(events_view(events@) =~= events_view(old_events).push(event_view(e)));
            },
            None => {},
        }
        i = i + 1;
    }
    assert(ps.take(pieces.len() as int) =~= ps);
    events
}

/// A block of code as it is read: the name after its fence, if it is fenced, and its text.
pub type BlockText = (Option<Seq<char>>, Seq<char>);

/// The blocks of code among pieces of markdown: those which have been closed, and the one which
/// is open, if one is. Starting a block opens it with no text, even when one is open already;
/// text inside an open block is added to it; and ending a block closes the one which is open.
pub open spec fn blocks_read(pieces: Seq<PieceView>) -> (Seq<BlockText>, Option<BlockText>)
    decreases pieces.len(),
{
    if pieces.len() == 0 {
        (Seq::empty(), None)
    } else {
        let (done, open) = blocks_read(pieces.drop_last());
        match pieces.last() {
            PieceView::StartFenced(name) => (done, Some((Some(name), Seq::empty()))),
            PieceView::Start(name) => if mark_named(name) == Mark::CodeBlock {
                (done, Some((None, Seq::empty())))
            } else {
                (done, open)
            },
            PieceView::Text(t) => match open {
                Some(block) => (done, Some((block.0, block.1 + t))),
                None => (done, open),
            },
            PieceView::End(name) => if mark_named(name) == Mark::CodeBlock {
                match open {
                    Some(block) => (done.push(block), None),
                    None => (done, open),
                }
            } else {
                (done, open)
            },
            _ => (done, open),
        }
    }
}

/// Text with the line ends at its end taken off.
pub open spec fn trim_newlines(s: Seq<char>) -> Seq<char>
    decreases s.len(),
{
    if s.len() > 0 && s.last() == '\n' {
        trim_newlines(s.drop_last())
    } else {
        s
    }
}

/// Text split at each line end, the way `str::split('\n')` splits it: two line ends in a row
/// have an empty line between them, and there is always at least one line.
pub open spec fn split_newlines(s: Seq<char>) -> Seq<Seq<char>>
    decreases s.len(),
{
    if s.len() == 0 {
        seq![Seq::empty()]
    } else {
        let lines = split_newlines(s.drop_last());
        if s.last() == '\n' {
            lines.push(Seq::empty())
        } else {
            lines.update(lines.len() - 1, lines.last().push(s.last()))
        }
    }
}

/// The lines of the text of a block of code: the line ends at its end taken off, and the rest
/// split at each line end.
pub open spec fn code_lines(text: Seq<char>) -> Seq<Seq<char>> {
    split_newlines(trim_newlines(text))
}

/// The blocks of code among pieces of markdown which are closed, each as the name after its
/// fence, if it is fenced, and its lines.
pub open spec fn code_texts(pieces: Seq<PieceView>) -> Seq<(Option<Seq<char>>, Seq<Seq<char>>)> {
    blocks_read(pieces).0.map_values(|b: BlockText| (b.0, code_lines(b.1)))
}

/// A block of code: the name after its fence, if it is fenced, and its lines.
pub struct CodeText {
    /// The name after its fence, if it is fenced, which says what language it is in.
    pub fence: Option<String>,
    /// Its lines.
    pub lines: Vec<String>,
}

/// Some strings as what they hold.
pub open spec fn strings_view(strings: Seq<String>) -> Seq<Seq<char>> {
    strings.map_values(|s: String| s@)
}

/// Blocks of code as what they hold.
pub open spec fn code_texts_view(blocks: Seq<CodeText>) -> Seq<(Option<Seq<char>>, Seq<Seq<char>>)> {
    blocks.map_values(|b: CodeText| (option_view(b.fence), strings_view(b.lines@)))
}

/// A string that may be there as what it holds.
pub open spec fn option_view(s: Option<String>) -> Option<Seq<char>> {
    match s {
        Some(s) => Some(s@),
        None => None,
    }
}

/// Return how many characters of some text are left once the line ends at its end are taken off.
fn trimmed_length(cs: &Vec<char>) -> (n: usize)
    ensures
        n <= cs.len(),
        cs@.take(n as int) == trim_newlines(cs@),
{
    let mut n: usize = cs.len();
    assert(cs@.take(n as int) =~= cs@);
    while n > 0 && cs[n - 1] == '\n'
        invariant
            n <= cs.len(),
            trim_newlines(cs@.take(n as int)) == trim_newlines(cs@),
        decreases n,
    {
        assert(cs@.take(n as int).drop_last() =~= cs@.take(n - 1));
        n = n - 1;
    }
    n
}

/// Return the first `n` characters of some text split at each line end.
fn split_lines(cs: &Vec<char>, n: usize) -> (lines: Vec<String>)
    requires
        n <= cs.len(),
    ensures
        strings_view(lines@) == split_newlines(cs@.take(n as int)),
{
    let mut lines: Vec<String> = Vec::new();
    let mut line: Vec<char> = Vec::new();
    let mut i: usize = 0;
    assert(cs@.take(0) =~= Seq::<char>::empty());
    assert(strings_view(lines@).push(line@) =~= seq![Seq::<char>::empty()]);
    while i < n
        invariant
            n <= cs.len(),
            i <= n,
            strings_view(lines@).push(line@) == split_newlines(cs@.take(i as int)),
        decreases n - i,
    {
        let ghost before = split_newlines(cs@.take(i as int));
        assert(cs@.take(i + 1).drop_last() =~= cs@.take(i as int));
        assert(cs@.take(i + 1).last() == cs@[i as int]);
        let c = cs[i];
        if c == '\n' {
            let ghost old_lines = lines@;
            let done = string_of_chars(&line);
            lines.push(done);
            line = Vec::new();
            assert(strings_view(lines@) =~= strings_view(old_lines).push(done@));
            assert(strings_view(lines@).push(line@) =~= before.push(Seq::empty()));
        } else {
            let ghost old_line = line@;
            line.push(c);
            assert(strings_view(lines@).push(line@) =~= before.update(before.len() - 1, before.last().push(c)));
        }
        i = i + 1;
    }
    let ghost old_lines = lines@;
    let last = string_of_chars(&line);
    lines.push(last);
    assert(strings_view(lines@) =~= strings_view(old_lines).push(line@));
    lines
}

/// Return the lines of the text of a block of code: the line ends at its end taken off, and the
/// rest split at each line end.
fn lines_of(text: &String) -> (lines: Vec<String>)
    ensures
        strings_view(lines@) == code_lines(text@),
{
    let cs = chars_of(text.as_str());
    let n = trimmed_length(&cs);
    split_lines(&cs, n)
}

/// Return the blocks of code among pieces of markdown, each as the name after its fence, if it
/// is fenced, and its lines, for what is in them to be read.
///
/// Starting a block opens it, text inside it is its text, and ending it closes it; its lines are
/// its text with the line ends at its end taken off, split at each line end. A block which is
/// never ended is left out, as the layout leaves it out.
pub fn code_blocks(pieces: &Vec<Piece>) -> (blocks: Vec<CodeText>)
    ensures
        code_texts_view(blocks@) == code_texts(pieces_view(pieces@)),
{
    let ghost ps = pieces_view(pieces@);
    let mut blocks: Vec<CodeText> = Vec::new();
    let mut open: Option<(Option<String>, String)> = None;
    let mut i: usize = 0;
    assert(ps.take(0) =~= Seq::<PieceView>::empty());
    assert(code_texts_view(blocks@) =~= Seq::<(Option<Seq<char>>, Seq<Seq<char>>)>::empty());
    while i < pieces.len()
        invariant
            ps == pieces_view(pieces@),
            i <= pieces.len(),
            code_texts_view(blocks@) == blocks_read(ps.take(i as int)).0.map_values(
                |b: BlockText| (b.0, code_lines(b.1)),
            ),
            blocks_read(ps.take(i as int)).1 == match open {
                Some(o) => Some((option_view(o.0), o.1@)),
                None => None::<BlockText>,
            },
        decreases pieces.len() - i,
    {
        assert(ps.take(i + 1).drop_last() =~= ps.take(i as int));
        assert(ps.take(i + 1).last() == piece_view(pieces@[i as int]));
        let ghost done = blocks_read(ps.take(i as int)).0;
        match &pieces[i] {
            Piece::StartFenced(name) => {
                open = Some((Some(string_of(name.as_str())), String::new()));
            },
            Piece::Start(name) => {
                if mark_of(name.as_str()) == Mark::CodeBlock {
                    open = Some((None, String::new()));
                }
            },
            Piece::Text(t) => {
                match open {
                    Some((fence, text)) => {
                        let mut text = text;
                        text.append(t.as_str());
                        open = Some((fence, text));
                    },
                    None => {
                        open = None;
                    },
                }
            },
            Piece::End(name) => {
                if mark_of(name.as_str()) == Mark::CodeBlock {
                    match open {
                        Some((fence, text)) => {
                            let ghost old_blocks = blocks@;
                            let ghost block: BlockText = (option_view(fence), text@);
                            let lines = lines_of(&text);
                            blocks.push(CodeText { fence, lines });
                            assert(code_texts_view(blocks@) =~= code_texts_view(old_blocks).push(
                                (block.0, code_lines(block.1)),
                            ));
                            assert(done.push(block).map_values(|b: BlockText| (b.0, code_lines(b.1)))
                                =~= done.map_values(|b: BlockText| (b.0, code_lines(b.1))).push(
                                (block.0, code_lines(block.1)),
                            ));
                            open = None;
                        },
                        None => {
                            open = None;
                        },
                    }
                }
            },
            _ => {},
        }
        i = i + 1;
    }
    assert(ps.take(pieces.len() as int) =~= ps);
    blocks
}

/// Nothing is shown of markdown read as no pieces, nor without columns to show it in, whatever
/// was read of clusters and code.
pub proof fn law_nothing_to_show_of_no_pieces(
    pieces: Seq<PieceView>,
    clusters: Seq<Seq<Cv>>,
    code: Seq<CodeLines>,
    columns: nat,
)
    requires
        columns == 0 || pieces.len() == 0,
    ensures
        rendered(gathered(pieces, clusters, code).events, columns).len() == 0,
{
    law_nothing_to_show(gathered(pieces, clusters, code).events, columns);
}

/// The blocks of code laid out are the blocks of code read, one for one: as many blocks have been
/// closed in gathering pieces of markdown as there are blocks for what is in them to be read,
/// and a block is open in the one exactly when it is open in the other.
pub proof fn law_each_block_read_is_laid_out(
    pieces: Seq<PieceView>,
    clusters: Seq<Seq<Cv>>,
    code: Seq<CodeLines>,
)
    ensures
        gathered(pieces, clusters, code).blocks == code_texts(pieces).len(),
        gathered(pieces, clusters, code).open == blocks_read(pieces).1 is Some,
    decreases pieces.len(),
{
    if pieces.len() > 0 {
        law_each_block_read_is_laid_out(pieces.drop_last(), clusters, code);
    }
}

} // verus!
