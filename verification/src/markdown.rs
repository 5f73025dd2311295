//! The lines which the markdown an inference engine replies in is shown as.
//!
//! Only the parts which turn up in an answer are handled: paragraphs, headings, lists, quotes,
//! tables, inline code and emphasis, and fenced code blocks, whose lines come colored.
//!
//! Bold is shown as a color rather than as bold text, because a line as it is drawn carries the
//! color of each column and nothing else: text read in bold is written in the color for bold,
//! unless what it is in has a color of its own (a heading of the third or fourth level, or text
//! which is struck through).
//!
//! Text is in clusters, each with the columns it takes (see the wrapping module). The marks this
//! module puts in itself (bullets, the mark before a quote, the rules of a table) take a column
//! for each character.

use vstd::prelude::*;

use crate::color::{AnsiColor, Color};
use crate::wrapping::Cluster;

verus! {

/// A cluster as its characters and the columns it takes.
pub type Cv = (Seq<char>, usize);

/// Clusters as their characters and widths.
pub open spec fn cvs(cs: Seq<Cluster>) -> Seq<Cv> {
    cs.map_values(|c: Cluster| (c.text@, c.width))
}

/// How many columns some clusters take.
pub open spec fn width(cs: Seq<Cv>) -> nat
    decreases cs.len(),
{
    if cs.len() == 0 {
        0
    } else {
        width(cs.drop_last()) + cs.last().1 as nat
    }
}

/// The characters of some clusters, one after another.
pub open spec fn chars(cs: Seq<Cv>) -> Seq<char>
    decreases cs.len(),
{
    if cs.len() == 0 {
        Seq::empty()
    } else {
        chars(cs.drop_last()) + cs.last().0
    }
}

/// A piece of a line, and how it is written.
pub struct Run {
    /// The text.
    pub text: Vec<Cluster>,
    /// The color it is written in, where nothing is whichever the terminal uses.
    pub color: Option<AnsiColor>,
    /// The color it is written on, where nothing is whichever the terminal uses.
    pub background: Option<AnsiColor>,
}

/// A piece of a line as its clusters and how they are written.
pub struct RunView {
    /// The text.
    pub text: Seq<Cv>,
    /// The color it is written in.
    pub color: Option<AnsiColor>,
    /// The color it is written on.
    pub background: Option<AnsiColor>,
}

impl View for Run {
    type V = RunView;

    open spec fn view(&self) -> RunView {
        RunView { text: cvs(self.text@), color: self.color, background: self.background }
    }
}

/// Some runs as what they show.
pub open spec fn runs_view(runs: Seq<Run>) -> Seq<RunView> {
    runs.map_values(|r: Run| r@)
}

/// Return a copy of some clusters.
pub(crate) fn copy_clusters(cs: &Vec<Cluster>) -> (r: Vec<Cluster>)
    ensures
        cvs(r@) == cvs(cs@),
{
    let mut r: Vec<Cluster> = Vec::new();
    let mut i: usize = 0;
    while i < cs.len()
        invariant
            i <= cs.len(),
            cvs(r@) == cvs(cs@).take(i as int),
        decreases cs.len() - i,
    {
        let c = cs[i].copy();
        let ghost old_r = r@;
        r.push(c);
        assert(cvs(r@) =~= cvs(old_r).push((cs@[i as int].text@, cs@[i as int].width)));
        assert(cvs(r@) =~= cvs(cs@).take(i + 1));
        i = i + 1;
    }
    assert(cvs(cs@).take(cs.len() as int) =~= cvs(cs@));
    r
}

impl Run {
    /// Return a copy of the run.
    pub fn copy(&self) -> (r: Run)
        ensures
            r@ == self@,
    {
        Run { text: copy_clusters(&self.text), color: self.color, background: self.background }
    }
}

/// Whether a cluster is a space.
pub open spec fn is_space(c: Cv) -> bool {
    c.0 == seq![' ']
}

/// Clusters split at each space, the way `str::split(' ')` splits text: two spaces in a row have
/// an empty word between them, and there is always at least one word.
pub open spec fn words(cs: Seq<Cv>) -> Seq<Seq<Cv>>
    decreases cs.len(),
{
    if cs.len() == 0 {
        seq![Seq::empty()]
    } else {
        let ws = words(cs.drop_last());
        if is_space(cs.last()) {
            ws.push(Seq::empty())
        } else {
            ws.update(ws.len() - 1, ws.last().push(cs.last()))
        }
    }
}

/// Clusters cut into pieces, a cluster at a time: a cluster which would take the piece being
/// filled past the width starts the next piece, even when the piece it ends is empty. Gives the
/// pieces cut off, then the piece being filled and how many columns it takes.
pub open spec fn cut(cs: Seq<Cv>, columns: nat) -> (Seq<Seq<Cv>>, Seq<Cv>, nat)
    decreases cs.len(),
{
    if cs.len() == 0 {
        (Seq::empty(), Seq::empty(), 0)
    } else {
        let (done, piece, taken) = cut(cs.drop_last(), columns);
        let c = cs.last();
        if taken + c.1 > columns {
            (done.push(piece), seq![c], c.1 as nat)
        } else {
            (done, piece.push(c), taken + c.1 as nat)
        }
    }
}

/// The pieces a word is shown in: the whole word when it fits in the width (or there is no
/// width), and otherwise the word cut between clusters where it runs out of room, leaving out a
/// last piece with nothing in it.
pub open spec fn pieces(word: Seq<Cv>, columns: nat) -> Seq<Seq<Cv>> {
    if columns == 0 || width(word) <= columns {
        seq![word]
    } else {
        let (done, piece, _) = cut(word, columns);
        if chars(piece).len() > 0 {
            done.push(piece)
        } else {
            done
        }
    }
}

/// A piece of a word to lay out, whether a blank goes before it, and how it is written.
pub struct Item {
    /// The clusters of the piece.
    pub piece: Seq<Cv>,
    /// Whether a blank goes before it, which is so for the first piece of every word but the
    /// first of a run.
    pub space: bool,
    /// How it is written.
    pub run: RunView,
}

/// The items of the pieces of a word.
pub open spec fn word_items(word: Seq<Cv>, columns: nat, after_space: bool, run: RunView) -> Seq<Item> {
    pieces(word, columns).map(|k: int, p: Seq<Cv>| Item { piece: p, space: after_space && k == 0, run })
}

/// The items of the first `n` words of a run.
pub open spec fn words_items(ws: Seq<Seq<Cv>>, n: nat, columns: nat, run: RunView) -> Seq<Item>
    decreases n,
{
    if n == 0 {
        Seq::empty()
    } else {
        words_items(ws, (n - 1) as nat, columns, run) + word_items(ws[n - 1], columns, n - 1 > 0, run)
    }
}

/// The items of a run: its words, each in pieces.
pub open spec fn run_items(run: RunView, columns: nat) -> Seq<Item> {
    let ws = words(run.text);
    words_items(ws, ws.len(), columns, run)
}

/// The items of some runs, one run after another.
pub open spec fn runs_items(runs: Seq<RunView>, columns: nat) -> Seq<Item>
    decreases runs.len(),
{
    if runs.len() == 0 {
        Seq::empty()
    } else {
        runs_items(runs.drop_last(), columns) + run_items(runs.last(), columns)
    }
}

/// A single space, a column wide.
pub open spec fn space_cv() -> Cv {
    (seq![' '], 1usize)
}

/// Lines being laid out: the lines which are done, then the line being filled and how many
/// columns it takes.
pub type Laying = (Seq<Seq<RunView>>, Seq<RunView>, nat);

/// An item laid out: an item which would take a line with something on it past the width
/// starts the next line; a blank goes before an item which asks for one unless it starts a
/// line; and an item with no characters is dropped.
pub open spec fn lay(laying: Laying, item: Item, columns: nat) -> Laying {
    let (lines, line, taken) = laying;
    let w = width(item.piece) + if item.space { 1nat } else { 0nat };
    let (lines, line, taken) = if taken + w > columns && taken > 0 {
        (lines.push(line), Seq::<RunView>::empty(), 0nat)
    } else {
        (lines, line, taken)
    };
    let text = if item.space && taken > 0 { seq![space_cv()] + item.piece } else { item.piece };
    if chars(text).len() == 0 {
        (lines, line, taken)
    } else {
        (lines, line.push(RunView { text, ..item.run }), taken + width(text))
    }
}

/// Items laid out on lines, one after another.
pub open spec fn folded(items: Seq<Item>, columns: nat) -> Laying
    decreases items.len(),
{
    if items.len() == 0 {
        (Seq::empty(), Seq::empty(), 0)
    } else {
        lay(folded(items.drop_last(), columns), items.last(), columns)
    }
}

/// Runs broken into lines which fit in a width, keeping words whole where they fit.
pub open spec fn fold(runs: Seq<RunView>, columns: nat) -> Seq<Seq<RunView>> {
    let (lines, line, _) = folded(runs_items(runs, columns), columns);
    if line.len() > 0 {
        lines.push(line)
    } else {
        lines
    }
}

/// Lines of runs as what they show.
pub open spec fn lines_view(lines: Seq<Vec<Run>>) -> Seq<Seq<RunView>> {
    lines.map_values(|l: Vec<Run>| runs_view(l@))
}

/// Words of clusters as what they hold.
pub open spec fn words_view(ws: Seq<Vec<Cluster>>) -> Seq<Seq<Cv>> {
    ws.map_values(|w: Vec<Cluster>| cvs(w@))
}

/// What clusters put together take is what each part takes.
pub proof fn lemma_width_concat(a: Seq<Cv>, b: Seq<Cv>)
    ensures
        width(a + b) == width(a) + width(b),
    decreases b.len(),
{
    if b.len() == 0 {
        assert(a + b =~= a);
    } else {
        assert((a + b).drop_last() =~= a + b.drop_last());
        lemma_width_concat(a, b.drop_last());
    }
}

/// The characters of clusters put together are those of each part.
pub proof fn lemma_chars_concat(a: Seq<Cv>, b: Seq<Cv>)
    ensures
        chars(a + b) == chars(a) + chars(b),
    decreases b.len(),
{
    if b.len() == 0 {
        assert(a + b =~= a);
        assert(chars(a) + chars(b) =~= chars(a));
    } else {
        assert((a + b).drop_last() =~= a + b.drop_last());
        lemma_chars_concat(a, b.drop_last());
        assert(chars(a + b) =~= chars(a) + chars(b));
    }
}

/// What some clusters take grows as clusters are added.
proof fn lemma_width_grows(cs: Seq<Cv>, j: int, k: int)
    requires
        0 <= j <= k <= cs.len(),
    ensures
        width(cs.take(j)) <= width(cs.take(k)),
    decreases k - j,
{
    if j < k {
        assert(cs.take(k).drop_last() =~= cs.take(k - 1));
        lemma_width_grows(cs, j, k - 1);
    }
}

/// Return whether a cluster is a space.
fn space_cluster(c: &Cluster) -> (b: bool)
    ensures
        b == is_space((c.text@, c.width)),
{
    let t = c.text.as_str();
    if t.unicode_len() == 1 {
        let first = t.get_char(0);
        assert(first == ' ' ==> t@ =~= seq![' ']);
        first == ' '
    } else {
        false
    }
}

/// Return some clusters split at each space.
fn split_words(cs: &Vec<Cluster>) -> (ws: Vec<Vec<Cluster>>)
    ensures
        words_view(ws@) == words(cvs(cs@)),
{
    let mut done: Vec<Vec<Cluster>> = Vec::new();
    let mut cur: Vec<Cluster> = Vec::new();
    let mut i: usize = 0;
    assert(cvs(cs@).take(0) =~= Seq::<Cv>::empty());
    assert(cvs(cur@) =~= Seq::<Cv>::empty());
    assert(words_view(done@).push(cvs(cur@)) =~= words(Seq::<Cv>::empty()));
    while i < cs.len()
        invariant
            i <= cs.len(),
            words_view(done@).push(cvs(cur@)) == words(cvs(cs@).take(i as int)),
        decreases cs.len() - i,
    {
        assert(cvs(cs@).take(i + 1).drop_last() =~= cvs(cs@).take(i as int));
        let ghost c = (cs@[i as int].text@, cs@[i as int].width);
        assert(cvs(cs@).take(i + 1).last() == c);
        if space_cluster(&cs[i]) {
            let ghost before = words_view(done@);
            let ghost w = cvs(cur@);
            done.push(cur);
            cur = Vec::new();
            assert(cvs(cur@) =~= Seq::<Cv>::empty());
            assert(words_view(done@) =~= before.push(w));
            assert(words_view(done@).push(cvs(cur@)) =~= before.push(w).push(Seq::empty()));
        } else {
            let ghost before = cvs(cur@);
            let k = cs[i].copy();
            cur.push(k);
            assert(cvs(cur@) =~= before.push(c));
            assert(words_view(done@).push(cvs(cur@)) =~= words_view(done@).push(before).update(
                words_view(done@).len() as int,
                before.push(c),
            ));
        }
        i = i + 1;
    }
    assert(cvs(cs@).take(cs.len() as int) =~= cvs(cs@));
    let ghost before = words_view(done@);
    let ghost w = cvs(cur@);
    done.push(cur);
    assert(words_view(done@) =~= before.push(w));
    done
}

/// Return some clusters cut into pieces where they run out of room, each cut off piece with
/// the columns it takes.
fn cut_word(cs: &Vec<Cluster>, columns: usize) -> (r: (Vec<(Vec<Cluster>, usize)>, Vec<Cluster>, usize))
    ensures
        r.0@.map_values(|p: (Vec<Cluster>, usize)| cvs(p.0@)) == cut(cvs(cs@), columns as nat).0,
        forall|i: int| 0 <= i < r.0@.len() ==> r.0@[i].1 == width(cvs(r.0@[i].0@)),
        cvs(r.1@) == cut(cvs(cs@), columns as nat).1,
        r.2 == cut(cvs(cs@), columns as nat).2,
        r.2 == width(cvs(r.1@)),
{
    let mut done: Vec<(Vec<Cluster>, usize)> = Vec::new();
    let mut piece: Vec<Cluster> = Vec::new();
    let mut taken: usize = 0;
    let mut i: usize = 0;
    assert(cvs(cs@).take(0) =~= Seq::<Cv>::empty());
    while i < cs.len()
        invariant
            i <= cs.len(),
            done@.map_values(|p: (Vec<Cluster>, usize)| cvs(p.0@)) == cut(cvs(cs@).take(i as int), columns as nat).0,
            forall|j: int| 0 <= j < done@.len() ==> done@[j].1 == width(cvs(done@[j].0@)),
            cvs(piece@) == cut(cvs(cs@).take(i as int), columns as nat).1,
            taken == cut(cvs(cs@).take(i as int), columns as nat).2,
            taken == width(cvs(piece@)),
        decreases cs.len() - i,
    {
        assert(cvs(cs@).take(i + 1).drop_last() =~= cvs(cs@).take(i as int));
        let ghost c = (cs@[i as int].text@, cs@[i as int].width);
        assert(cvs(cs@).take(i + 1).last() == c);
        let w = cs[i].width;
        if w > columns || taken > columns - w {
            let ghost before = done@.map_values(|p: (Vec<Cluster>, usize)| cvs(p.0@));
            let ghost old_piece = cvs(piece@);
            let mut fresh: Vec<Cluster> = Vec::new();
            std::mem::swap(&mut piece, &mut fresh);
            done.push((fresh, taken));
            assert(done@.map_values(|p: (Vec<Cluster>, usize)| cvs(p.0@)) =~= before.push(old_piece));
            let k = cs[i].copy();
            piece.push(k);
            assert(cvs(piece@) =~= seq![c]);
            assert(seq![c].drop_last() =~= Seq::<Cv>::empty());
            assert(width(seq![c]) == width(Seq::<Cv>::empty()) + c.1);
            taken = w;
        } else {
            let ghost before = cvs(piece@);
            let k = cs[i].copy();
            piece.push(k);
            assert(cvs(piece@) =~= before.push(c));
            assert(cvs(piece@).drop_last() =~= before);
            taken = taken + w;
        }
        i = i + 1;
    }
    assert(cvs(cs@).take(cs.len() as int) =~= cvs(cs@));
    (done, piece, taken)
}

/// Return how many columns some clusters take, when it is no more than a width.
fn width_within(cs: &Vec<Cluster>, columns: usize) -> (r: Option<usize>)
    ensures
        match r {
            Some(w) => w == width(cvs(cs@)) && w <= columns,
            None => width(cvs(cs@)) > columns,
        },
{
    let mut w: usize = 0;
    let mut i: usize = 0;
    assert(cvs(cs@).take(0) =~= Seq::<Cv>::empty());
    while i < cs.len()
        invariant
            i <= cs.len(),
            w == width(cvs(cs@).take(i as int)),
            w <= columns,
        decreases cs.len() - i,
    {
        assert(cvs(cs@).take(i + 1).drop_last() =~= cvs(cs@).take(i as int));
        if cs[i].width > columns - w {
            proof {
                lemma_width_grows(cvs(cs@), i + 1, cs.len() as int);
                assert(cvs(cs@).take(cs.len() as int) =~= cvs(cs@));
            }
            return None;
        }
        w = w + cs[i].width;
        i = i + 1;
    }
    assert(cvs(cs@).take(cs.len() as int) =~= cvs(cs@));
    Some(w)
}

/// Return whether some clusters have any characters.
fn has_chars(cs: &Vec<Cluster>) -> (b: bool)
    ensures
        b == (chars(cvs(cs@)).len() > 0),
{
    let mut i: usize = 0;
    assert(cvs(cs@).take(0) =~= Seq::<Cv>::empty());
    while i < cs.len()
        invariant
            i <= cs.len(),
            chars(cvs(cs@).take(i as int)).len() == 0,
        decreases cs.len() - i,
    {
        assert(cvs(cs@).take(i + 1).drop_last() =~= cvs(cs@).take(i as int));
        if cs[i].text.as_str().unicode_len() > 0 {
            proof {
                let all = cvs(cs@);
                assert(all =~= all.take(i + 1) + all.skip(i + 1));
                lemma_chars_concat(all.take(i + 1), all.skip(i + 1));
            }
            return true;
        }
        i = i + 1;
    }
    assert(cvs(cs@).take(cs.len() as int) =~= cvs(cs@));
    false
}

/// Return the pieces a word is shown in at a width, each with the columns it takes.
fn word_pieces(word: &Vec<Cluster>, columns: usize) -> (ps: Vec<(Vec<Cluster>, usize)>)
    requires
        columns > 0,
    ensures
        ps@.map_values(|p: (Vec<Cluster>, usize)| cvs(p.0@)) == pieces(cvs(word@), columns as nat),
        forall|i: int| 0 <= i < ps@.len() ==> ps@[i].1 == width(cvs(ps@[i].0@)),
{
    match width_within(word, columns) {
        Some(w) => {
            let mut ps: Vec<(Vec<Cluster>, usize)> = Vec::new();
            ps.push((copy_clusters(word), w));
            assert(ps@.map_values(|p: (Vec<Cluster>, usize)| cvs(p.0@)) =~= pieces(cvs(word@), columns as nat));
            ps
        },
        None => {
            let (mut done, piece, taken) = cut_word(word, columns);
            let ghost before = done@.map_values(|p: (Vec<Cluster>, usize)| cvs(p.0@));
            if has_chars(&piece) {
                let ghost p = cvs(piece@);
                done.push((piece, taken));
                assert(done@.map_values(|p: (Vec<Cluster>, usize)| cvs(p.0@)) =~= before.push(p));
            }
            done
        },
    }
}

/// Return a single space, a column wide.
fn space() -> (c: Cluster)
    ensures
        (c.text@, c.width) == space_cv(),
{
    let mut text = String::new();
    crate::text::push_char(&mut text, ' ');
    assert(text@ =~= seq![' ']);
    Cluster { text, width: 1 }
}

/// Lay out a piece of a word which takes `pw` columns, with a blank before it if `space`.
fn lay_item(
    lines: &mut Vec<Vec<Run>>,
    line: &mut Vec<Run>,
    taken: &mut usize,
    piece: &Vec<Cluster>,
    pw: usize,
    space_before: bool,
    run: &Run,
    columns: usize,
)
    requires
        pw == width(cvs(piece@)),
    ensures
        (lines_view(final(lines)@), runs_view(final(line)@), *final(taken) as nat) == lay(
            (lines_view(old(lines)@), runs_view(old(line)@), *old(taken) as nat),
            Item { piece: cvs(piece@), space: space_before, run: run@ },
            columns as nat,
        ),
{
    let s: usize = if space_before { 1 } else { 0 };
    let over = pw > columns || s > columns - pw || *taken > columns - pw - s;
    if over && *taken > 0 {
        let ghost old_lines = lines_view(lines@);
        let ghost old_line = runs_view(line@);
        let mut done: Vec<Run> = Vec::new();
        std::mem::swap(line, &mut done);
        lines.push(done);
        assert(lines_view(lines@) =~= old_lines.push(old_line));
        assert(runs_view(line@) =~= Seq::<RunView>::empty());
        *taken = 0;
    }
    let with_space = space_before && *taken > 0;
    let mut text: Vec<Cluster> = Vec::new();
    if with_space {
        text.push(space());
    }
    let ghost lead = cvs(text@);
    let mut i: usize = 0;
    while i < piece.len()
        invariant
            i <= piece.len(),
            cvs(text@) == lead + cvs(piece@).take(i as int),
        decreases piece.len() - i,
    {
        let ghost before = cvs(text@);
        let k = piece[i].copy();
        text.push(k);
        assert(cvs(text@) =~= before.push((piece@[i as int].text@, piece@[i as int].width)));
        assert(cvs(text@) =~= lead + cvs(piece@).take(i + 1));
        i = i + 1;
    }
    assert(cvs(piece@).take(piece.len() as int) =~= cvs(piece@));
    proof {
        if with_space {
            assert(lead =~= seq![space_cv()]);
            lemma_width_concat(seq![space_cv()], cvs(piece@));
            assert(seq![space_cv()].drop_last() =~= Seq::<Cv>::empty());
            assert(width(seq![space_cv()]) == width(Seq::<Cv>::empty()) + 1);
        } else {
            assert(lead =~= Seq::<Cv>::empty());
            assert(cvs(text@) =~= cvs(piece@));
        }
    }
    if has_chars(&text) {
        let ghost old_line = runs_view(line@);
        let r = Run { text, color: run.color, background: run.background };
        let ghost rv = r@;
        line.push(r);
        assert(runs_view(line@) =~= old_line.push(rv));
        if *taken == 0 {
            *taken = pw;
        } else {
            *taken = *taken + s + pw;
        }
    }
}

/// Return some runs broken into lines which fit in a width, keeping words whole where they fit.
pub fn fold_runs(runs: &Vec<Run>, columns: usize) -> (lines: Vec<Vec<Run>>)
    requires
        columns > 0,
    ensures
        lines_view(lines@) == fold(runs_view(runs@), columns as nat),
{
    let ghost rv = runs_view(runs@);
    let ghost cols = columns as nat;
    let mut lines: Vec<Vec<Run>> = Vec::new();
    let mut line: Vec<Run> = Vec::new();
    let mut taken: usize = 0;
    let mut r: usize = 0;
    assert(rv.take(0) =~= Seq::<RunView>::empty());
    assert(lines_view(lines@) =~= Seq::<Seq<RunView>>::empty());
    assert(runs_view(line@) =~= Seq::<RunView>::empty());
    while r < runs.len()
        invariant
            rv == runs_view(runs@),
            cols == columns as nat,
            columns > 0,
            r <= runs.len(),
            (lines_view(lines@), runs_view(line@), taken as nat) == folded(runs_items(rv.take(r as int), cols), cols),
        decreases runs.len() - r,
    {
        assert(rv.take(r + 1).drop_last() =~= rv.take(r as int));
        assert(rv.take(r + 1).last() == runs@[r as int]@);
        let run = &runs[r];
        let ws = split_words(&run.text);
        let ghost pre = runs_items(rv.take(r as int), cols);
        let ghost wv = words_view(ws@);
        let mut n: usize = 0;
        assert(pre + words_items(wv, 0, cols, run@) =~= pre);
        while n < ws.len()
            invariant
                rv == runs_view(runs@),
                cols == columns as nat,
                columns > 0,
                wv == words_view(ws@),
                wv == words(run@.text),
                n <= ws.len(),
                (lines_view(lines@), runs_view(line@), taken as nat) == folded(
                    pre + words_items(wv, n as nat, cols, run@),
                    cols,
                ),
            decreases ws.len() - n,
        {
            let ps = word_pieces(&ws[n], columns);
            let ghost mid = pre + words_items(wv, n as nat, cols, run@);
            let ghost wi = word_items(wv[n as int], cols, n > 0, run@);
            let mut k: usize = 0;
            assert(mid + wi.take(0) =~= mid);
            while k < ps.len()
                invariant
                    cols == columns as nat,
                    ps@.map_values(|p: (Vec<Cluster>, usize)| cvs(p.0@)) == pieces(wv[n as int], cols),
                    forall|i: int| 0 <= i < ps@.len() ==> ps@[i].1 == width(cvs(ps@[i].0@)),
                    wi == word_items(wv[n as int], cols, n > 0, run@),
                    k <= ps.len(),
                    (lines_view(lines@), runs_view(line@), taken as nat) == folded(mid + wi.take(k as int), cols),
                decreases ps.len() - k,
            {
                assert((mid + wi.take(k + 1)).drop_last() =~= mid + wi.take(k as int));
                assert(pieces(wv[n as int], cols)[k as int] == cvs(ps@[k as int].0@));
                assert((mid + wi.take(k + 1)).last() == Item {
                    piece: cvs(ps@[k as int].0@),
                    space: n > 0 && k == 0,
                    run: run@,
                });
                lay_item(&mut lines, &mut line, &mut taken, &ps[k].0, ps[k].1, n > 0 && k == 0, run, columns);
                k = k + 1;
            }
            assert(wi.take(ps.len() as int) =~= wi);
            assert(mid + wi =~= pre + words_items(wv, (n + 1) as nat, cols, run@));
            n = n + 1;
        }
        assert(pre + words_items(wv, ws.len() as nat, cols, run@) =~= runs_items(rv.take(r + 1), cols));
        r = r + 1;
    }
    assert(rv.take(runs.len() as int) =~= rv);
    if line.len() > 0 {
        let ghost old_lines = lines_view(lines@);
        let ghost last = runs_view(line@);
        lines.push(line);
        assert(lines_view(lines@) =~= old_lines.push(last));
    }
    lines
}

/// Marks the library draws itself, each character a cluster a column wide.
pub open spec fn marks(s: Seq<char>) -> Seq<Cv> {
    s.map_values(|c: char| (seq![c], 1usize))
}

/// A run written in whichever colors the terminal uses.
pub open spec fn plain(text: Seq<Cv>) -> RunView {
    RunView { text, color: None, background: None }
}

/// A run written in a color.
pub open spec fn colored(text: Seq<Cv>, color: Color) -> RunView {
    RunView { text, color: Some(color.spec_ansi()), background: None }
}

/// What is put before an item of a list.
pub open spec fn bullet() -> Seq<char> {
    seq!['•', ' ']
}

/// What is put before a quote.
pub open spec fn quote_mark() -> Seq<char> {
    seq!['▏', ' ']
}

/// Some blanks.
pub open spec fn blanks(n: nat) -> Seq<char> {
    Seq::new(n, |i: int| ' ')
}

/// A horizontal rule.
pub open spec fn horizontal(n: nat) -> Seq<char> {
    Seq::new(n, |i: int| '─')
}

/// The columns a cell of a table takes: those of its runs, added up.
pub open spec fn cell_width(cell: Seq<RunView>) -> nat
    decreases cell.len(),
{
    if cell.len() == 0 {
        0
    } else {
        cell_width(cell.drop_last()) + width(cell.last().text)
    }
}

/// A table which is being read: the rows read so far, each a list of cells, each a list of
/// runs; the cells of the row being read; and how many columns the table has.
pub struct TableView {
    /// The rows read so far.
    pub rows: Seq<Seq<Seq<RunView>>>,
    /// The cells of the row being read.
    pub row: Seq<Seq<RunView>>,
    /// How many columns the table has.
    pub columns: nat,
}

/// What has been read of some markdown.
pub struct MdView {
    /// The lines which are finished.
    pub lines: Seq<Seq<RunView>>,
    /// The runs of the line being read.
    pub runs: Seq<RunView>,
    /// How wide the lines are.
    pub columns: nat,
    /// The color what is being read is written in.
    pub color: Option<AnsiColor>,
    /// Whether what is being read is in bold, which is shown as the color for bold.
    pub bold: bool,
    /// How far what is being read is indented.
    pub indent: nat,
    /// How many lists what is being read is inside.
    pub depth: nat,
    /// Whether what is being read is quoted.
    pub quoted: bool,
    /// The table being read.
    pub table: Option<TableView>,
    /// The cell being read.
    pub cell: Option<Seq<RunView>>,
}

/// Having read nothing.
pub open spec fn start(columns: nat) -> MdView {
    MdView {
        lines: Seq::empty(),
        runs: Seq::empty(),
        columns,
        color: None,
        bold: false,
        indent: 0,
        depth: 0,
        quoted: false,
        table: None,
        cell: None,
    }
}

/// A run added to what is being read: to the cell being read, if there is one.
pub open spec fn pushed(v: MdView, run: RunView) -> MdView {
    match v.cell {
        Some(cell) => MdView { cell: Some(cell.push(run)), ..v },
        None => MdView { runs: v.runs.push(run), ..v },
    }
}

/// How many columns there are for words after whatever goes before them, which is at least
/// one.
pub open spec fn room(v: MdView) -> nat {
    let taken = v.indent + if v.quoted { 2nat } else { 0nat };
    if v.columns > taken {
        (v.columns - taken) as nat
    } else {
        1
    }
}

/// A line with the mark of a quote and the indent put before it.
pub open spec fn prefixed(v: MdView, runs: Seq<RunView>) -> Seq<RunView> {
    (if v.quoted {
        seq![colored(marks(quote_mark()), Color::GrayedText)]
    } else {
        Seq::empty()
    }) + (if v.indent > 0 {
        seq![plain(marks(blanks(v.indent)))]
    } else {
        Seq::empty()
    }) + runs
}

/// Lines put down as they are.
pub open spec fn put_lines(v: MdView, lines: Seq<Seq<RunView>>) -> MdView
    decreases lines.len(),
{
    if lines.len() == 0 {
        v
    } else {
        let w = put_lines(v, lines.drop_last());
        MdView { lines: w.lines.push(prefixed(w, lines.last())), ..w }
    }
}

/// The line being read finished, wrapped where it is too long.
pub open spec fn wrapped(v: MdView) -> MdView {
    if v.runs.len() == 0 {
        v
    } else {
        put_lines(MdView { runs: Seq::empty(), ..v }, fold(v.runs, room(v)))
    }
}

/// Whether the clusters of a run which start in the columns from `col` on, up to `columns`,
/// show nothing: each is a space, and the run is written in whichever colors the terminal uses.
pub open spec fn blank_clusters(cs: Seq<Cv>, run: RunView, col: nat, columns: nat) -> bool
    decreases cs.len(),
{
    cs.len() == 0 || col >= columns || {
        &&& cs[0].0 == seq![' ']
        &&& run.color is None
        &&& run.background is None
        &&& blank_clusters(cs.skip(1), run, col + cs[0].1 as nat, columns)
    }
}

/// Whether the runs of a line, from column `col` on, show nothing up to column `columns`.
pub open spec fn blank_from(line: Seq<RunView>, col: nat, columns: nat) -> bool
    decreases line.len(),
{
    line.len() == 0 || col >= columns || {
        &&& blank_clusters(line[0].text, line[0], col, columns)
        &&& blank_from(line.skip(1), col + width(line[0].text), columns)
    }
}

/// Whether a line shows nothing in the columns it is drawn in.
pub open spec fn blank_line(line: Seq<RunView>, columns: nat) -> bool {
    blank_from(line, 0, columns)
}

/// A blank line left, unless there is one already or nothing has been written yet.
pub open spec fn blanked(v: MdView) -> MdView {
    let w = wrapped(v);
    if w.lines.len() == 0 || blank_line(w.lines.last(), w.columns) {
        w
    } else {
        MdView { lines: w.lines.push(Seq::empty()), ..w }
    }
}

/// Lines with the blank ones at the end taken off.
pub open spec fn trimmed(lines: Seq<Seq<RunView>>, columns: nat) -> Seq<Seq<RunView>>
    decreases lines.len(),
{
    if lines.len() > 0 && blank_line(lines.last(), columns) {
        trimmed(lines.drop_last(), columns)
    } else {
        lines
    }
}

/// The lines once everything is read: the line being read finished, and a blank line at the
/// end taken off, since the line after it is the next thing said rather than part of this.
pub open spec fn finished(v: MdView) -> Seq<Seq<RunView>> {
    let w = wrapped(v);
    trimmed(w.lines, w.columns)
}

/// How wide a column of a table is drawn: as wide as the widest of its cells, where a row with
/// no cell in the column counts as nothing.
pub open spec fn column_width(rows: Seq<Seq<Seq<RunView>>>, i: int) -> nat
    decreases rows.len(),
{
    if rows.len() == 0 {
        0
    } else {
        let rest = column_width(rows.drop_last(), i);
        let w = if 0 <= i < rows.last().len() { cell_width(rows.last()[i]) } else { 0 };
        if w > rest { w } else { rest }
    }
}

/// How wide each column of a table is drawn.
pub open spec fn column_widths(t: TableView) -> Seq<nat> {
    Seq::new(t.columns, |i: int| column_width(t.rows, i))
}

/// The middle of a rule across a table: a stretch as wide as each column and the blanks either
/// side of it, with a joint between each two columns.
pub open spec fn rule_middle(widths: Seq<nat>, joint: char) -> Seq<char>
    decreases widths.len(),
{
    if widths.len() == 0 {
        Seq::empty()
    } else {
        rule_middle(widths.drop_last(), joint) + (if widths.len() > 1 {
            seq![joint]
        } else {
            Seq::empty()
        }) + horizontal(widths.last() + 2)
    }
}

/// A rule across a table, with the given pieces at its ends and between columns, in gray.
pub open spec fn rule(widths: Seq<nat>, left: char, joint: char, right: char) -> RunView {
    colored(marks(seq![left] + rule_middle(widths, joint) + seq![right]), Color::GrayedText)
}

/// The cell of a row in a column, which is nothing when the row has no cell there.
pub open spec fn cell_of(row: Seq<Seq<RunView>>, i: int) -> Seq<RunView> {
    if 0 <= i < row.len() {
        row[i]
    } else {
        Seq::empty()
    }
}

/// The upright drawn between and around the cells of a row, in gray.
pub open spec fn upright() -> RunView {
    colored(marks(seq!['│']), Color::GrayedText)
}

/// The first `n` cells of a row, each after an upright and padded out to the width of its
/// column with a blank either side.
pub open spec fn cells_upto(row: Seq<Seq<RunView>>, widths: Seq<nat>, n: nat) -> Seq<RunView>
    decreases n,
{
    if n == 0 {
        Seq::empty()
    } else {
        let i = n - 1;
        let cell = cell_of(row, i);
        let taken = cell_width(cell);
        let gap: nat = if widths[i] > taken { (widths[i] - taken) as nat } else { 0 };
        cells_upto(row, widths, i as nat) + seq![upright(), plain(marks(seq![' ']))] + cell + seq![
            plain(marks(blanks(gap))),
            plain(marks(seq![' '])),
        ]
    }
}

/// A row of a table as a line: its cells, each padded out to the width of its column, between
/// uprights.
pub open spec fn row_line(row: Seq<Seq<RunView>>, widths: Seq<nat>) -> Seq<RunView> {
    cells_upto(row, widths, widths.len()) + seq![upright()]
}

/// The first `n` rows of a table as lines, each ruled off from the next.
pub open spec fn body_lines(rows: Seq<Seq<Seq<RunView>>>, widths: Seq<nat>, n: nat) -> Seq<Seq<RunView>>
    decreases n,
{
    if n == 0 {
        Seq::empty()
    } else {
        body_lines(rows, widths, (n - 1) as nat) + seq![row_line(rows[n - 1], widths)] + if n < rows.len() {
            seq![seq![rule(widths, '├', '┼', '┤')]]
        } else {
            Seq::empty()
        }
    }
}

/// The lines a table is drawn in: in a box, every column as wide as the widest thing in it, and
/// every row ruled off from the next.
pub open spec fn table_lines(t: TableView) -> Seq<Seq<RunView>> {
    let widths = column_widths(t);
    seq![seq![rule(widths, '┌', '┬', '┐')]] + body_lines(t.rows, widths, t.rows.len()) + seq![
        seq![rule(widths, '└', '┴', '┘')],
    ]
}

/// A table written out, and a blank line left after it; a table with no rows or no columns is
/// not written at all.
pub open spec fn written(v: MdView, t: TableView) -> MdView {
    if t.rows.len() == 0 || t.columns == 0 {
        v
    } else {
        blanked(put_lines(v, table_lines(t)))
    }
}

/// The start of something in markdown.
pub enum Tag {
    /// A paragraph.
    Paragraph,
    /// A heading.
    Heading {
        /// Whether it is of the third or fourth level, which is written in a lighter gray.
        light: bool,
    },
    /// A list.
    List,
    /// An item of a list.
    Item,
    /// A quote.
    BlockQuote,
    /// Emphasis, or strong emphasis.
    Emphasis,
    /// Text which is struck through.
    Strikethrough,
    /// A table.
    Table {
        /// How many columns it has.
        columns: usize,
    },
    /// A cell of a table.
    TableCell,
    /// Anything else, which is shown as what is inside it.
    Other,
}

/// The end of something in markdown.
pub enum TagEnd {
    /// The end of a paragraph or of a heading.
    Paragraph,
    /// The end of a list.
    List,
    /// The end of an item of a list.
    Item,
    /// The end of a quote.
    BlockQuote,
    /// The end of emphasis or of strong emphasis.
    Emphasis,
    /// The end of text which is struck through.
    Strikethrough,
    /// The end of a cell of a table.
    TableCell,
    /// The end of the head of a table or of one of its rows.
    TableRow,
    /// The end of a table.
    Table,
    /// The end of anything else.
    Other,
}

/// A piece of a line of code, and what kind of code it is, if that is known.
pub struct Span {
    /// The clusters of the piece.
    pub text: Vec<Cluster>,
    /// What kind of code it is.
    pub kind: Option<crate::color::Kind>,
}

/// A piece of markdown.
pub enum Event {
    /// Some text.
    Text(Vec<Cluster>),
    /// Some code in the middle of a sentence.
    Code(Vec<Cluster>),
    /// A break in a paragraph.
    Break,
    /// A horizontal rule.
    Rule,
    /// The start of something.
    Start(Tag),
    /// The end of something.
    End(TagEnd),
    /// A block of code: its lines, each in pieces of the kinds of code they are.
    CodeBlock(Vec<Vec<Span>>),
    /// Anything else, which shows nothing.
    Other,
}

/// The pieces of a line of code as what they hold.
pub open spec fn spans_view(spans: Seq<Span>) -> Seq<(Seq<Cv>, Option<crate::color::Kind>)> {
    spans.map_values(|s: Span| (cvs(s.text@), s.kind))
}

/// The lines of a block of code as what they hold.
pub open spec fn code_view(lines: Seq<Vec<Span>>) -> Seq<Seq<(Seq<Cv>, Option<crate::color::Kind>)>> {
    lines.map_values(|l: Vec<Span>| spans_view(l@))
}

/// A piece of markdown as what it holds.
pub enum EventView {
    /// Some text.
    Text(Seq<Cv>),
    /// Some code in the middle of a sentence.
    Code(Seq<Cv>),
    /// A break in a paragraph.
    Break,
    /// A horizontal rule.
    Rule,
    /// The start of something.
    Start(Tag),
    /// The end of something.
    End(TagEnd),
    /// A block of code: its lines, each in pieces of the kinds of code they are.
    CodeBlock(Seq<Seq<(Seq<Cv>, Option<crate::color::Kind>)>>),
    /// Anything else.
    Other,
}

/// A piece of markdown as what it holds.
pub open spec fn event_view(e: Event) -> EventView {
    match e {
        Event::Text(t) => EventView::Text(cvs(t@)),
        Event::Code(t) => EventView::Code(cvs(t@)),
        Event::Break => EventView::Break,
        Event::Rule => EventView::Rule,
        Event::Start(tag) => EventView::Start(tag),
        Event::End(tag) => EventView::End(tag),
        Event::CodeBlock(lines) => EventView::CodeBlock(code_view(lines@)),
        Event::Other => EventView::Other,
    }
}

/// Pieces of markdown as what they hold.
pub open spec fn events_view(events: Seq<Event>) -> Seq<EventView> {
    events.map_values(|e: Event| event_view(e))
}

/// A piece of code in the color for what it is.
pub open spec fn code_run(span: (Seq<Cv>, Option<crate::color::Kind>)) -> RunView {
    match Color::spec_of_code(span.1) {
        Some(color) => colored(span.0, color),
        None => plain(span.0),
    }
}

/// The pieces of a line of code in the colors for what they are.
pub open spec fn code_runs(spans: Seq<(Seq<Cv>, Option<crate::color::Kind>)>) -> Seq<RunView> {
    spans.map_values(|s: (Seq<Cv>, Option<crate::color::Kind>)| code_run(s))
}

/// A run written on the background of code.
pub open spec fn on_code(run: RunView) -> RunView {
    RunView { background: Some(Color::CodeBackground.spec_ansi()), ..run }
}

/// A line of code: its pieces in the colors for what they are, and blanks after them to the
/// edge, all on the background of code so that the block does not end ragged. Code is not
/// wrapped: a line which is too long is cut off where it is drawn.
pub open spec fn code_line(spans: Seq<(Seq<Cv>, Option<crate::color::Kind>)>, columns: nat) -> Seq<RunView> {
    let runs = code_runs(spans);
    let taken = cell_width(runs);
    let gap: nat = if columns > taken { (columns - taken) as nat } else { 0 };
    runs.push(plain(marks(blanks(gap)))).map_values(|r: RunView| on_code(r))
}

/// A block of code shown, with a blank line before and after it.
pub open spec fn coded(v: MdView, lines: Seq<Seq<(Seq<Cv>, Option<crate::color::Kind>)>>) -> MdView {
    let w = blanked(v);
    blanked(put_lines(w, lines.map_values(|l: Seq<(Seq<Cv>, Option<crate::color::Kind>)>| code_line(l, w.columns))))
}

/// The start of something taken in.
pub open spec fn started(v: MdView, tag: Tag) -> MdView {
    match tag {
        Tag::Paragraph => blanked(v),
        Tag::Heading { light } => {
            let w = blanked(v);
            MdView {
                bold: true,
                color: if light { Some(Color::LightGrayedText.spec_ansi()) } else { w.color },
                ..w
            }
        },
        Tag::List => MdView { depth: v.depth + 1, ..v },
        Tag::Item => {
            let w = wrapped(v);
            let indent: nat = if w.depth > 0 { ((w.depth - 1) * 2) as nat } else { 0 };
            pushed(MdView { indent, ..w }, plain(marks(bullet())))
        },
        Tag::BlockQuote => MdView { quoted: true, ..blanked(v) },
        Tag::Emphasis => MdView { bold: true, ..v },
        Tag::Strikethrough => MdView { color: Some(Color::GrayedText.spec_ansi()), ..v },
        Tag::Table { columns } => MdView {
            table: Some(TableView { rows: Seq::empty(), row: Seq::empty(), columns: columns as nat }),
            ..blanked(v)
        },
        Tag::TableCell => MdView { cell: Some(Seq::empty()), ..v },
        Tag::Other => v,
    }
}

/// The end of something taken in.
pub open spec fn ended(v: MdView, tag: TagEnd) -> MdView {
    match tag {
        TagEnd::Paragraph => wrapped(MdView { color: None, bold: false, ..v }),
        TagEnd::List => MdView { depth: if v.depth > 0 { (v.depth - 1) as nat } else { 0 }, indent: 0, ..v },
        TagEnd::Item => wrapped(v),
        TagEnd::BlockQuote => wrapped(MdView { quoted: false, ..v }),
        TagEnd::Emphasis => MdView { bold: false, ..v },
        TagEnd::Strikethrough => MdView { color: None, ..v },
        TagEnd::TableCell => match (v.table, v.cell) {
            (Some(t), Some(c)) => MdView { table: Some(TableView { row: t.row.push(c), ..t }), cell: None, ..v },
            _ => MdView { cell: None, ..v },
        },
        TagEnd::TableRow => match v.table {
            Some(t) => MdView {
                table: Some(if t.row.len() == 0 {
                    t
                } else {
                    TableView { rows: t.rows.push(t.row), row: Seq::empty(), ..t }
                }),
                ..v
            },
            None => v,
        },
        TagEnd::Table => match v.table {
            Some(t) => written(MdView { table: None, ..v }, t),
            None => v,
        },
        TagEnd::Other => v,
    }
}

/// The color text being read is written in: the color of what it is in, or, when that has none
/// and the text is read in bold, the color for bold.
pub open spec fn text_color(v: MdView) -> Option<AnsiColor> {
    match v.color {
        Some(c) => Some(c),
        None => if v.bold {
            Some(Color::Bold.spec_ansi())
        } else {
            None
        },
    }
}

/// A piece of markdown taken in.
pub open spec fn step(v: MdView, e: EventView) -> MdView {
    match e {
        EventView::Text(t) => pushed(v, RunView { text: t, color: text_color(v), background: None }),
        EventView::Code(t) => pushed(v, on_code(plain(t))),
        EventView::Break => wrapped(v),
        EventView::Rule => wrapped(pushed(wrapped(v), colored(marks(horizontal(v.columns)), Color::GrayedText))),
        EventView::Start(tag) => started(v, tag),
        EventView::End(tag) => ended(v, tag),
        EventView::CodeBlock(lines) => coded(v, lines),
        EventView::Other => v,
    }
}

/// Pieces of markdown taken in, one after another.
pub open spec fn steps(v: MdView, events: Seq<EventView>) -> MdView
    decreases events.len(),
{
    if events.len() == 0 {
        v
    } else {
        step(steps(v, events.drop_last()), events.last())
    }
}

/// The lines some markdown is shown as at a width: nothing when there is no width.
pub open spec fn rendered(events: Seq<EventView>, columns: nat) -> Seq<Seq<RunView>> {
    if columns == 0 {
        Seq::empty()
    } else {
        finished(steps(start(columns), events))
    }
}

/// Putting lines down changes nothing but the lines.
proof fn lemma_put_lines_frame(v: MdView, lines: Seq<Seq<RunView>>)
    ensures
        put_lines(v, lines) == (MdView { lines: put_lines(v, lines).lines, ..v }),
    decreases lines.len(),
{
    if lines.len() > 0 {
        lemma_put_lines_frame(v, lines.drop_last());
    }
}

/// Finishing the line being read changes nothing but the lines and the runs.
proof fn lemma_wrapped_frame(v: MdView)
    ensures
        wrapped(v) == (MdView { lines: wrapped(v).lines, runs: wrapped(v).runs, ..v }),
{
    if v.runs.len() > 0 {
        lemma_put_lines_frame(MdView { runs: Seq::empty(), ..v }, fold(v.runs, room(v)));
    }
}

/// Leaving a blank line changes nothing but the lines and the runs.
proof fn lemma_blanked_frame(v: MdView)
    ensures
        blanked(v) == (MdView { lines: blanked(v).lines, runs: blanked(v).runs, ..v }),
{
    lemma_wrapped_frame(v);
}

/// Whether every cell of a table being read, and the cell being read, takes at most some
/// number of columns.
pub open spec fn bounded(v: MdView, bound: nat) -> bool {
    &&& v.table matches Some(t) ==> {
        &&& cells_within(t.rows, bound)
        &&& forall|c: int| 0 <= c < t.row.len() ==> #[trigger] cell_width(t.row[c]) <= bound
    }
    &&& v.cell matches Some(c) ==> cell_width(c) <= bound
}

/// Whether the lines of each block of code among some markdown take at most a quarter of the
/// largest count.
pub open spec fn code_fits(e: EventView) -> bool {
    match e {
        EventView::CodeBlock(lines) => code_lines_fit(lines),
        _ => true,
    }
}

/// Whether each line of a block of code takes at most a quarter of the largest count.
pub open spec fn code_lines_fit(lines: Seq<Seq<(Seq<Cv>, Option<crate::color::Kind>)>>) -> bool {
    forall|j: int| 0 <= j < lines.len() ==> cell_width(code_runs(#[trigger] lines[j])) <= usize::MAX / 4
}

/// How many columns a piece of markdown can add to a cell of a table.
pub open spec fn event_width(e: EventView, columns: nat) -> nat {
    match e {
        EventView::Text(t) => width(t),
        EventView::Code(t) => width(t),
        EventView::Rule => columns,
        EventView::Start(Tag::Item) => 2,
        _ => 0,
    }
}

/// How many columns pieces of markdown can add to the cells of a table, all told.
pub open spec fn events_width(events: Seq<EventView>, columns: nat) -> nat
    decreases events.len(),
{
    if events.len() == 0 {
        0
    } else {
        events_width(events.drop_last(), columns) + event_width(events.last(), columns)
    }
}

/// A table which is being read.
struct Table {
    /// The rows read so far.
    rows: Vec<Vec<Vec<Run>>>,
    /// The cells of the row being read.
    row: Vec<Vec<Run>>,
    /// How many columns the table has.
    columns: usize,
}

impl Table {
    /// The table as what it holds.
    closed spec fn view(&self) -> TableView {
        TableView {
            rows: self.rows@.map_values(|r: Vec<Vec<Run>>| lines_view(r@)),
            row: lines_view(self.row@),
            columns: self.columns as nat,
        }
    }
}

/// Whether every cell of the rows of a table takes at most some number of columns.
pub open spec fn cells_within(rows: Seq<Seq<Seq<RunView>>>, bound: nat) -> bool {
    forall|r: int, c: int|
        0 <= r < rows.len() && 0 <= c < rows[r].len() ==> #[trigger] cell_width(rows[r][c]) <= bound
}

/// A column is no wider than the widest a cell may be.
proof fn lemma_column_width_within(rows: Seq<Seq<Seq<RunView>>>, i: int, bound: nat)
    requires
        cells_within(rows, bound),
    ensures
        column_width(rows, i) <= bound,
    decreases rows.len(),
{
    if rows.len() > 0 {
        assert(cells_within(rows.drop_last(), bound)) by {
            assert forall|r: int, c: int|
                0 <= r < rows.drop_last().len() && 0 <= c < rows.drop_last()[r].len() implies #[trigger] cell_width(
                rows.drop_last()[r][c],
            ) <= bound by {
                assert(rows.drop_last()[r] == rows[r]);
            }
        }
        lemma_column_width_within(rows.drop_last(), i, bound);
        if 0 <= i < rows.last().len() {
            assert(cell_width(rows[rows.len() - 1][i]) <= bound);
        }
    }
}

/// A run of a cell takes no more than the cell does, and the runs before it no more either.
proof fn lemma_cell_width_grows(cell: Seq<RunView>, j: int, k: int)
    requires
        0 <= j <= k <= cell.len(),
    ensures
        cell_width(cell.take(j)) <= cell_width(cell.take(k)),
    decreases k - j,
{
    if j < k {
        assert(cell.take(k).drop_last() =~= cell.take(k - 1));
        lemma_cell_width_grows(cell, j, k - 1);
    }
}

/// Return how many columns some clusters take, which fits in a count.
fn clusters_width(cs: &Vec<Cluster>) -> (w: usize)
    requires
        width(cvs(cs@)) <= usize::MAX,
    ensures
        w == width(cvs(cs@)),
{
    let mut w: usize = 0;
    let mut i: usize = 0;
    assert(cvs(cs@).take(0) =~= Seq::<Cv>::empty());
    while i < cs.len()
        invariant
            i <= cs.len(),
            w == width(cvs(cs@).take(i as int)),
            width(cvs(cs@)) <= usize::MAX,
        decreases cs.len() - i,
    {
        assert(cvs(cs@).take(i + 1).drop_last() =~= cvs(cs@).take(i as int));
        proof {
            lemma_width_grows(cvs(cs@), i + 1, cs.len() as int);
            assert(cvs(cs@).take(cs.len() as int) =~= cvs(cs@));
        }
        w = w + cs[i].width;
        i = i + 1;
    }
    assert(cvs(cs@).take(cs.len() as int) =~= cvs(cs@));
    w
}

/// Return how many columns a cell of a table takes.
fn cell_columns(cell: &Vec<Run>) -> (w: usize)
    requires
        cell_width(runs_view(cell@)) <= usize::MAX,
    ensures
        w == cell_width(runs_view(cell@)),
{
    let ghost cv = runs_view(cell@);
    let mut w: usize = 0;
    let mut i: usize = 0;
    assert(cv.take(0) =~= Seq::<RunView>::empty());
    while i < cell.len()
        invariant
            cv == runs_view(cell@),
            i <= cell.len(),
            w == cell_width(cv.take(i as int)),
            cell_width(cv) <= usize::MAX,
        decreases cell.len() - i,
    {
        assert(cv.take(i + 1).drop_last() =~= cv.take(i as int));
        proof {
            lemma_cell_width_grows(cv, i + 1, cell.len() as int);
            assert(cv.take(cell.len() as int) =~= cv);
        }
        let rw = clusters_width(&cell[i].text);
        w = w + rw;
        i = i + 1;
    }
    assert(cv.take(cell.len() as int) =~= cv);
    w
}

/// The widths of the columns of a table as counts.
spec fn widths_view(widths: Seq<usize>) -> Seq<nat> {
    widths.map_values(|w: usize| w as nat)
}

impl Table {
    /// Return a table with no rows yet and the given number of columns.
    fn new(columns: usize) -> (t: Table)
        ensures
            t.view() == (TableView { rows: Seq::empty(), row: Seq::empty(), columns: columns as nat }),
    {
        let t = Table { rows: Vec::new(), row: Vec::new(), columns };
        assert(t.view().rows =~= Seq::<Seq<Seq<RunView>>>::empty());
        assert(t.view().row =~= Seq::<Seq<RunView>>::empty());
        t
    }

    /// Take in a cell.
    fn cell(&mut self, cell: Vec<Run>)
        ensures
            final(self).view() == (TableView { row: old(self).view().row.push(runs_view(cell@)), ..old(self).view() }),
    {
        let ghost before = lines_view(self.row@);
        let ghost c = runs_view(cell@);
        self.row.push(cell);
        assert(lines_view(self.row@) =~= before.push(c));
    }

    /// Take in the end of a row.
    fn row(&mut self)
        ensures
            final(self).view() == if old(self).view().row.len() == 0 {
                old(self).view()
            } else {
                TableView { rows: old(self).view().rows.push(old(self).view().row), row: Seq::empty(), ..old(self).view() }
            },
    {
        if self.row.len() == 0 {
            return;
        }
        let ghost before = self.view();
        let mut row: Vec<Vec<Run>> = Vec::new();
        std::mem::swap(&mut row, &mut self.row);
        self.rows.push(row);
        assert(self.view().rows =~= before.rows.push(before.row));
        assert(self.view().row =~= Seq::<Seq<RunView>>::empty());
    }

    /// Return how wide each column is drawn.
    fn widths(&self) -> (ws: Vec<usize>)
        requires
            cells_within(self.view().rows, (usize::MAX / 4) as nat),
        ensures
            widths_view(ws@) == column_widths(self.view()),
            forall|i: int| 0 <= i < ws@.len() ==> ws@[i] <= usize::MAX / 4,
    {
        let ghost rows = self.view().rows;
        let mut ws: Vec<usize> = Vec::new();
        let mut i: usize = 0;
        while i < self.columns
            invariant
                i <= self.columns,
                ws@.len() == i,
                forall|k: int| 0 <= k < i ==> ws@[k] == 0,
            decreases self.columns - i,
        {
            ws.push(0);
            i = i + 1;
        }
        let mut r: usize = 0;
        assert(rows.take(0) =~= Seq::<Seq<Seq<RunView>>>::empty());
        while r < self.rows.len()
            invariant
                rows == self.view().rows,
                cells_within(rows, (usize::MAX / 4) as nat),
                r <= self.rows.len(),
                ws@.len() == self.columns,
                forall|k: int| 0 <= k < ws@.len() ==> ws@[k] == column_width(rows.take(r as int), k),
                forall|k: int| 0 <= k < ws@.len() ==> ws@[k] <= usize::MAX / 4,
            decreases self.rows.len() - r,
        {
            assert(rows.take(r + 1).drop_last() =~= rows.take(r as int));
            assert(rows.take(r + 1).last() == rows[r as int]);
            let row = &self.rows[r];
            assert(lines_view(row@) == rows[r as int]);
            let mut c: usize = 0;
            while c < ws.len()
                invariant
                    rows == self.view().rows,
                    cells_within(rows, (usize::MAX / 4) as nat),
                    r < self.rows.len(),
                    lines_view(row@) == rows[r as int],
                    rows.take(r + 1).drop_last() == rows.take(r as int),
                    rows.take(r + 1).last() == rows[r as int],
                    c <= ws@.len(),
                    ws@.len() == self.columns,
                    forall|k: int| 0 <= k < c ==> ws@[k] == column_width(rows.take(r + 1), k),
                    forall|k: int| c <= k < ws@.len() ==> ws@[k] == column_width(rows.take(r as int), k),
                    forall|k: int| 0 <= k < ws@.len() ==> ws@[k] <= usize::MAX / 4,
                decreases ws.len() - c,
            {
                if c < row.len() {
                    assert(cell_width(rows[r as int][c as int]) <= usize::MAX / 4);
                    assert(runs_view(row@[c as int]@) == rows[r as int][c as int]);
                    let w = cell_columns(&row[c]);
                    if w > ws[c] {
                        ws.set(c, w);
                    }
                }
                c = c + 1;
            }
            r = r + 1;
        }
        assert(rows.take(self.rows.len() as int) =~= rows);
        assert(widths_view(ws@) =~= column_widths(self.view()));
        ws
    }
}

/// The marks of characters put together are the marks of each part.
proof fn lemma_marks_concat(a: Seq<char>, b: Seq<char>)
    ensures
        marks(a + b) == marks(a) + marks(b),
{
    assert(marks(a + b) =~= marks(a) + marks(b));
}

/// Return a rule across a table with the given pieces at its ends and between columns.
fn rule_run(widths: &Vec<usize>, left: char, joint: char, right: char) -> (r: Run)
    requires
        forall|i: int| 0 <= i < widths@.len() ==> widths@[i] <= usize::MAX / 4,
    ensures
        r@ == rule(widths_view(widths@), left, joint, right),
{
    let ghost wv = widths_view(widths@);
    let mut text: Vec<Cluster> = Vec::new();
    text.push(mark(left));
    assert(cvs(text@) =~= marks(seq![left]));
    let mut i: usize = 0;
    assert(wv.take(0) =~= Seq::<nat>::empty());
    while i < widths.len()
        invariant
            wv == widths_view(widths@),
            forall|k: int| 0 <= k < widths@.len() ==> widths@[k] <= usize::MAX / 4,
            i <= widths.len(),
            cvs(text@) == marks(seq![left] + rule_middle(wv.take(i as int), joint)),
        decreases widths.len() - i,
    {
        assert(wv.take(i + 1).drop_last() =~= wv.take(i as int));
        let ghost before = seq![left] + rule_middle(wv.take(i as int), joint);
        let ghost sep: Seq<char> = if i > 0 { seq![joint] } else { Seq::empty() };
        if i > 0 {
            let ghost t = cvs(text@);
            text.push(mark(joint));
            assert(cvs(text@) =~= t.push((seq![joint], 1usize)));
        }
        proof {
            lemma_marks_concat(before, sep);
        }
        assert(cvs(text@) =~= marks(before + sep));
        let stretch = repeated('─', widths[i] + 2);
        let ghost t2 = cvs(text@);
        let mut k: usize = 0;
        while k < stretch.len()
            invariant
                k <= stretch.len(),
                cvs(text@) == t2 + cvs(stretch@).take(k as int),
            decreases stretch.len() - k,
        {
            let ghost t3 = cvs(text@);
            let m = stretch[k].copy();
            text.push(m);
            assert(cvs(text@) =~= t3.push((stretch@[k as int].text@, stretch@[k as int].width)));
            assert(cvs(text@) =~= t2 + cvs(stretch@).take(k + 1));
            k = k + 1;
        }
        assert(cvs(stretch@).take(stretch.len() as int) =~= cvs(stretch@));
        assert(Seq::new((widths[i as int] + 2) as nat, |j: int| '─') =~= horizontal(wv[i as int] + 2));
        proof {
            lemma_marks_concat(before + sep, horizontal(wv[i as int] + 2));
        }
        assert(seq![left] + rule_middle(wv.take(i + 1), joint) =~= before + sep + horizontal(wv[i as int] + 2));
        i = i + 1;
    }
    assert(wv.take(widths.len() as int) =~= wv);
    let ghost t = cvs(text@);
    text.push(mark(right));
    assert(cvs(text@) =~= t.push((seq![right], 1usize)));
    proof {
        lemma_marks_concat(seq![left] + rule_middle(wv, joint), seq![right]);
    }
    assert(cvs(text@) =~= marks(seq![left] + rule_middle(wv, joint) + seq![right]));
    Run { text, color: Some(Color::GrayedText.ansi()), background: None }
}

/// Return a run written in whichever colors the terminal uses.
fn plain_run(text: Vec<Cluster>) -> (r: Run)
    ensures
        r@ == plain(cvs(text@)),
{
    Run { text, color: None, background: None }
}

/// Return a row of a table as a line: its cells, each padded out to the width of its column,
/// between uprights.
fn row_run_line(row: &Vec<Vec<Run>>, widths: &Vec<usize>) -> (line: Vec<Run>)
    requires
        forall|c: int| 0 <= c < row@.len() ==> cell_width(#[trigger] runs_view(row@[c]@)) <= usize::MAX / 4,
    ensures
        runs_view(line@) == row_line(lines_view(row@), widths_view(widths@)),
{
    let ghost rv = lines_view(row@);
    let ghost wv = widths_view(widths@);
    let mut line: Vec<Run> = Vec::new();
    let mut i: usize = 0;
    assert(runs_view(line@) =~= cells_upto(rv, wv, 0));
    while i < widths.len()
        invariant
            rv == lines_view(row@),
            wv == widths_view(widths@),
            forall|c: int| 0 <= c < row@.len() ==> cell_width(#[trigger] runs_view(row@[c]@)) <= usize::MAX / 4,
            i <= widths.len(),
            runs_view(line@) == cells_upto(rv, wv, i as nat),
        decreases widths.len() - i,
    {
        let ghost before = runs_view(line@);
        let mut up: Vec<Cluster> = Vec::new();
        up.push(mark('│'));
        assert(cvs(up@) =~= marks(seq!['│']));
        line.push(Run { text: up, color: Some(Color::GrayedText.ansi()), background: None });
        let mut pad: Vec<Cluster> = Vec::new();
        pad.push(mark(' '));
        assert(cvs(pad@) =~= marks(seq![' ']));
        line.push(plain_run(pad));
        assert(runs_view(line@) =~= before + seq![upright(), plain(marks(seq![' ']))]);
        let ghost mid = runs_view(line@);
        let mut taken: usize = 0;
        if i < row.len() {
            let cell = &row[i];
            assert(runs_view(cell@) == rv[i as int]);
            taken = cell_columns(cell);
            let mut k: usize = 0;
            while k < cell.len()
                invariant
                    k <= cell.len(),
                    runs_view(line@) == mid + runs_view(cell@).take(k as int),
                decreases cell.len() - k,
            {
                let ghost b2 = runs_view(line@);
                let r = cell[k].copy();
                line.push(r);
                assert(runs_view(line@) =~= b2.push(cell@[k as int]@));
                assert(runs_view(line@) =~= mid + runs_view(cell@).take(k + 1));
                k = k + 1;
            }
            assert(runs_view(cell@).take(cell.len() as int) =~= runs_view(cell@));
        } else {
            assert(runs_view(line@) =~= mid + cell_of(rv, i as int));
        }
        let ghost mid2 = runs_view(line@);
        let gap: usize = if widths[i] > taken { widths[i] - taken } else { 0 };
        line.push(plain_run(repeated(' ', gap)));
        let mut pad2: Vec<Cluster> = Vec::new();
        pad2.push(mark(' '));
        assert(cvs(pad2@) =~= marks(seq![' ']));
        line.push(plain_run(pad2));
        assert(Seq::new(gap as nat, |j: int| ' ') =~= blanks(gap as nat));
        assert(runs_view(line@) =~= mid2 + seq![plain(marks(blanks(gap as nat))), plain(marks(seq![' ']))]);
        assert(runs_view(line@) =~= cells_upto(rv, wv, (i + 1) as nat));
        i = i + 1;
    }
    let ghost before = runs_view(line@);
    let mut up: Vec<Cluster> = Vec::new();
    up.push(mark('│'));
    assert(cvs(up@) =~= marks(seq!['│']));
    line.push(Run { text: up, color: Some(Color::GrayedText.ansi()), background: None });
    assert(runs_view(line@) =~= before.push(upright()));
    line
}

/// What has been read of some markdown.
struct State {
    /// The lines which are finished.
    lines: Vec<Vec<Run>>,
    /// The runs of the line being read.
    runs: Vec<Run>,
    /// How wide the lines are.
    columns: usize,
    /// The color what is being read is written in.
    color: Option<AnsiColor>,
    /// Whether what is being read is in bold, which is shown as the color for bold.
    bold: bool,
    /// How far what is being read is indented.
    indent: usize,
    /// How many lists what is being read is inside.
    depth: usize,
    /// Whether what is being read is quoted.
    quoted: bool,
    /// The table being read.
    table: Option<Table>,
    /// The cell being read.
    cell: Option<Vec<Run>>,
}

/// A table as what it holds, if there is one.
spec fn table_view(t: Option<Table>) -> Option<TableView> {
    match t {
        Some(t) => Some(t.view()),
        None => None,
    }
}

/// A cell as what it holds, if there is one.
spec fn cell_view(c: Option<Vec<Run>>) -> Option<Seq<RunView>> {
    match c {
        Some(c) => Some(runs_view(c@)),
        None => None,
    }
}

impl State {
    /// What has been read, as what it holds.
    closed spec fn view(&self) -> MdView {
        MdView {
            lines: lines_view(self.lines@),
            runs: runs_view(self.runs@),
            columns: self.columns as nat,
            color: self.color,
            bold: self.bold,
            indent: self.indent as nat,
            depth: self.depth as nat,
            quoted: self.quoted,
            table: table_view(self.table),
            cell: cell_view(self.cell),
        }
    }

    /// Return the state of having read nothing.
    fn new(columns: usize) -> (s: State)
        ensures
            s.view() == start(columns as nat),
    {
        let s = State {
            lines: Vec::new(),
            runs: Vec::new(),
            columns,
            color: None,
            bold: false,
            indent: 0,
            depth: 0,
            quoted: false,
            table: None,
            cell: None,
        };
        assert(lines_view(s.lines@) =~= Seq::<Seq<RunView>>::empty());
        assert(runs_view(s.runs@) =~= Seq::<RunView>::empty());
        s
    }

    /// Add a piece to what is being read.
    fn push(&mut self, run: Run)
        ensures
            final(self).view() == pushed(old(self).view(), run@),
    {
        match self.cell.take() {
            Some(mut cell) => {
                let ghost before = runs_view(cell@);
                cell.push(run);
                assert(runs_view(cell@) =~= before.push(run@));
                self.cell = Some(cell);
            },
            None => {
                let ghost before = runs_view(self.runs@);
                self.runs.push(run);
                assert(runs_view(self.runs@) =~= before.push(run@));
            },
        }
    }

    /// Return how many columns there are for words after whatever goes before them.
    fn room(&self) -> (r: usize)
        ensures
            r == room(self.view()),
    {
        let q: usize = if self.quoted { 2 } else { 0 };
        if self.columns > self.indent && self.columns - self.indent > q {
            self.columns - self.indent - q
        } else {
            1
        }
    }

    /// Put a line down as it is.
    fn line(&mut self, runs: Vec<Run>)
        ensures
            final(self).view() == (MdView {
                lines: old(self).view().lines.push(prefixed(old(self).view(), runs_view(runs@))),
                ..old(self).view()
            }),
    {
        let mut all: Vec<Run> = Vec::new();
        if self.quoted {
            all.push(Run { text: quote_clusters(), color: Some(Color::GrayedText.ansi()), background: None });
        }
        if self.indent > 0 {
            all.push(Run { text: repeated(' ', self.indent), color: None, background: None });
        }
        let ghost lead = runs_view(all@);
        assert(lead =~= (if self.quoted {
            seq![colored(marks(quote_mark()), Color::GrayedText)]
        } else {
            Seq::empty()
        }) + (if self.indent > 0 {
            seq![plain(marks(blanks(self.indent as nat)))]
        } else {
            Seq::empty()
        }));
        let mut i: usize = 0;
        while i < runs.len()
            invariant
                i <= runs.len(),
                runs_view(all@) == lead + runs_view(runs@).take(i as int),
            decreases runs.len() - i,
        {
            let ghost before = runs_view(all@);
            let r = runs[i].copy();
            all.push(r);
            assert(runs_view(all@) =~= before.push(runs@[i as int]@));
            assert(runs_view(all@) =~= lead + runs_view(runs@).take(i + 1));
            i = i + 1;
        }
        assert(runs_view(runs@).take(runs.len() as int) =~= runs_view(runs@));
        let ghost before = lines_view(self.lines@);
        let ghost a = runs_view(all@);
        self.lines.push(all);
        assert(lines_view(self.lines@) =~= before.push(a));
    }

    /// Put lines down as they are.
    fn put(&mut self, lines: &Vec<Vec<Run>>)
        ensures
            final(self).view() == put_lines(old(self).view(), lines_view(lines@)),
    {
        let ghost base = self.view();
        let ghost lv = lines_view(lines@);
        let mut i: usize = 0;
        assert(lv.take(0) =~= Seq::<Seq<RunView>>::empty());
        while i < lines.len()
            invariant
                i <= lines.len(),
                lv == lines_view(lines@),
                self.view() == put_lines(base, lv.take(i as int)),
            decreases lines.len() - i,
        {
            assert(lv.take(i + 1).drop_last() =~= lv.take(i as int));
            let l = copy_runs(&lines[i]);
            self.line(l);
            i = i + 1;
        }
        assert(lv.take(lines.len() as int) =~= lv);
    }

    /// Finish the line which is being read, wrapping it if it is too long.
    fn wrap(&mut self)
        ensures
            final(self).view() == wrapped(old(self).view()),
    {
        if self.runs.len() == 0 {
            return;
        }
        let room = self.room();
        let mut runs: Vec<Run> = Vec::new();
        std::mem::swap(&mut runs, &mut self.runs);
        assert(runs_view(self.runs@) =~= Seq::<RunView>::empty());
        let lines = fold_runs(&runs, room);
        self.put(&lines);
    }

    /// Leave a blank line, unless there is already one or nothing has been written yet.
    fn blank(&mut self)
        ensures
            final(self).view() == blanked(old(self).view()),
    {
        self.wrap();
        if self.lines.len() == 0 {
            return;
        }
        if is_blank(&self.lines[self.lines.len() - 1], self.columns) {
            return;
        }
        let ghost before = lines_view(self.lines@);
        let e: Vec<Run> = Vec::new();
        assert(runs_view(e@) =~= Seq::<RunView>::empty());
        self.lines.push(e);
        assert(lines_view(self.lines@) =~= before.push(Seq::empty()));
    }

    /// Write a table out in a box, every column as wide as the widest thing in it, and leave a
    /// blank line after it.
    fn write_table(&mut self, t: Table)
        requires
            cells_within(t.view().rows, (usize::MAX / 4) as nat),
        ensures
            final(self).view() == written(old(self).view(), t.view()),
    {
        if t.rows.len() == 0 || t.columns == 0 {
            return;
        }
        let ghost v0 = self.view();
        let ghost tv = t.view();
        let widths = t.widths();
        let ghost wv = widths_view(widths@);
        let ghost top = seq![seq![rule(wv, '┌', '┬', '┐')]];
        let mut first: Vec<Run> = Vec::new();
        first.push(rule_run(&widths, '┌', '┬', '┐'));
        let ghost fv = runs_view(first@);
        assert(fv =~= seq![rule(wv, '┌', '┬', '┐')]);
        self.line(first);
        assert(top.drop_last() =~= Seq::<Seq<RunView>>::empty());
        assert(put_lines(v0, top.drop_last()) == v0);
        assert(top.last() == fv);
        assert(self.view() == put_lines(v0, top));
        let mut n: usize = 0;
        assert(top + body_lines(tv.rows, wv, 0) =~= top);
        while n < t.rows.len()
            invariant
                tv == t.view(),
                wv == widths_view(widths@),
                wv == column_widths(tv),
                cells_within(tv.rows, (usize::MAX / 4) as nat),
                forall|i: int| 0 <= i < widths@.len() ==> widths@[i] <= usize::MAX / 4,
                n <= t.rows.len(),
                self.view() == put_lines(v0, top + body_lines(tv.rows, wv, n as nat)),
            decreases t.rows.len() - n,
        {
            let ghost x = top + body_lines(tv.rows, wv, n as nat);
            assert(tv.rows[n as int] == lines_view(t.rows@[n as int]@));
            assert forall|c: int| 0 <= c < t.rows@[n as int]@.len() implies cell_width(
                #[trigger] runs_view(t.rows@[n as int]@[c]@),
            ) <= usize::MAX / 4 by {
                assert(tv.rows[n as int][c] == runs_view(t.rows@[n as int]@[c]@));
            }
            let line = row_run_line(&t.rows[n], &widths);
            let ghost lv = runs_view(line@);
            self.line(line);
            assert(x.push(lv).drop_last() =~= x);
            assert(self.view() == put_lines(v0, x.push(lv)));
            if n + 1 < t.rows.len() {
                let mut mid: Vec<Run> = Vec::new();
                mid.push(rule_run(&widths, '├', '┼', '┤'));
                let ghost mv = runs_view(mid@);
                assert(mv =~= seq![rule(wv, '├', '┼', '┤')]);
                self.line(mid);
                assert(x.push(lv).push(mv).drop_last() =~= x.push(lv));
                assert(x.push(lv).push(mv) =~= top + body_lines(tv.rows, wv, (n + 1) as nat));
            } else {
                assert(x.push(lv) =~= top + body_lines(tv.rows, wv, (n + 1) as nat));
            }
            n = n + 1;
        }
        let ghost x = top + body_lines(tv.rows, wv, tv.rows.len());
        let mut last: Vec<Run> = Vec::new();
        last.push(rule_run(&widths, '└', '┴', '┘'));
        let ghost bv = runs_view(last@);
        assert(bv =~= seq![rule(wv, '└', '┴', '┘')]);
        self.line(last);
        assert(x.push(bv).drop_last() =~= x);
        assert(x.push(bv) =~= table_lines(tv));
        self.blank();
    }

    /// Show the lines of a block of code, with a blank line before and after them.
    fn code_block(&mut self, lines: &Vec<Vec<Span>>)
        requires
            code_lines_fit(code_view(lines@)),
        ensures
            final(self).view() == coded(old(self).view(), code_view(lines@)),
    {
        self.blank();
        let ghost w = self.view();
        proof {
            lemma_blanked_frame(old(self).view());
        }
        let ghost cv = code_view(lines@);
        let ghost mapped = cv.map_values(|l: Seq<(Seq<Cv>, Option<crate::color::Kind>)>| code_line(l, w.columns));
        let mut i: usize = 0;
        assert(mapped.take(0) =~= Seq::<Seq<RunView>>::empty());
        while i < lines.len()
            invariant
                i <= lines.len(),
                cv == code_view(lines@),
                mapped == cv.map_values(|l: Seq<(Seq<Cv>, Option<crate::color::Kind>)>| code_line(l, w.columns)),
                code_lines_fit(code_view(lines@)),
                self.view() == put_lines(w, mapped.take(i as int)),
                self.columns == w.columns,
            decreases lines.len() - i,
        {
            assert(mapped.take(i + 1).drop_last() =~= mapped.take(i as int));
            let spans = &lines[i];
            let ghost sv = spans_view(spans@);
            let ghost runs_spec = code_runs(sv);
            assert(spans@ == lines@[i as int]@);
            assert(code_view(lines@)[i as int] == sv);
            assert(cell_width(runs_spec) <= usize::MAX / 4);
            let mut runs: Vec<Run> = Vec::new();
            let mut k: usize = 0;
            while k < spans.len()
                invariant
                    k <= spans.len(),
                    sv == spans_view(spans@),
                    runs_spec == code_runs(sv),
                    cell_width(runs_spec) <= usize::MAX / 4,
                    runs_view(runs@) == runs_spec.take(k as int),
                decreases spans.len() - k,
            {
                let span = &spans[k];
                let color = match Color::of_code(span.kind) {
                    Some(c) => Some(c.ansi()),
                    None => None,
                };
                let r = Run { text: copy_clusters(&span.text), color, background: None };
                let ghost before = runs_view(runs@);
                runs.push(r);
                assert(runs_view(runs@) =~= before.push(code_run(sv[k as int])));
                assert(runs_view(runs@) =~= runs_spec.take(k + 1));
                k = k + 1;
            }
            assert(runs_spec.take(spans.len() as int) =~= runs_spec);
            assert(cell_width(runs_view(runs@)) <= usize::MAX / 4);
            let taken = cell_columns(&runs);
            let gap: usize = if self.columns > taken { self.columns - taken } else { 0 };
            let ghost before = runs_view(runs@);
            runs.push(plain_run(repeated(' ', gap)));
            assert(Seq::new(gap as nat, |j: int| ' ') =~= blanks(gap as nat));
            assert(runs_view(runs@) =~= before.push(plain(marks(blanks(gap as nat)))));
            let mut shown: Vec<Run> = Vec::new();
            let mut m: usize = 0;
            while m < runs.len()
                invariant
                    m <= runs.len(),
                    runs_view(shown@) == runs_view(runs@).take(m as int).map_values(|r: RunView| on_code(r)),
                decreases runs.len() - m,
            {
                let r = &runs[m];
                let ghost b2 = runs_view(shown@);
                shown.push(Run {
                    text: copy_clusters(&r.text),
                    color: r.color,
                    background: Some(Color::CodeBackground.ansi()),
                });
                assert(runs_view(shown@) =~= b2.push(on_code(runs@[m as int]@)));
                assert(runs_view(shown@) =~= runs_view(runs@).take(m + 1).map_values(|r: RunView| on_code(r)));
                m = m + 1;
            }
            assert(runs_view(runs@).take(runs.len() as int) =~= runs_view(runs@));
            assert(runs_view(shown@) =~= code_line(cv[i as int], w.columns));
            self.line(shown);
            proof {
                lemma_put_lines_frame(w, mapped.take(i + 1));
            }
            i = i + 1;
        }
        assert(mapped.take(lines.len() as int) =~= mapped);
        self.blank();
    }

    /// Take in the start of something.
    fn start(&mut self, tag: &Tag)
        requires
            old(self).depth < usize::MAX / 2,
        ensures
            final(self).view() == started(old(self).view(), *tag),
    {
        proof {
            lemma_blanked_frame(old(self).view());
            lemma_wrapped_frame(old(self).view());
        }
        match tag {
            Tag::Paragraph => self.blank(),
            Tag::Heading { light } => {
                self.blank();
                self.bold = true;
                if *light {
                    self.color = Some(Color::LightGrayedText.ansi());
                }
            },
            Tag::List => {
                self.depth = self.depth + 1;
            },
            Tag::Item => {
                self.wrap();
                self.indent = if self.depth > 0 { (self.depth - 1) * 2 } else { 0 };
                let mut b: Vec<Cluster> = Vec::new();
                b.push(mark('•'));
                b.push(mark(' '));
                assert(cvs(b@) =~= marks(bullet()));
                self.push(plain_run(b));
            },
            Tag::BlockQuote => {
                self.blank();
                self.quoted = true;
            },
            Tag::Emphasis => {
                self.bold = true;
            },
            Tag::Strikethrough => {
                self.color = Some(Color::GrayedText.ansi());
            },
            Tag::Table { columns } => {
                self.blank();
                self.table = Some(Table::new(*columns));
            },
            Tag::TableCell => {
                let e: Vec<Run> = Vec::new();
                assert(runs_view(e@) =~= Seq::<RunView>::empty());
                self.cell = Some(e);
            },
            Tag::Other => {},
        }
    }

    /// Take in the end of something.
    fn end(&mut self, tag: &TagEnd)
        requires
            bounded(old(self).view(), (usize::MAX / 4) as nat),
        ensures
            final(self).view() == ended(old(self).view(), *tag),
    {
        match tag {
            TagEnd::Paragraph => {
                self.color = None;
                self.bold = false;
                self.wrap();
            },
            TagEnd::List => {
                self.depth = if self.depth > 0 { self.depth - 1 } else { 0 };
                self.indent = 0;
            },
            TagEnd::Item => self.wrap(),
            TagEnd::BlockQuote => {
                self.quoted = false;
                self.wrap();
            },
            TagEnd::Emphasis => {
                self.bold = false;
            },
            TagEnd::Strikethrough => {
                self.color = None;
            },
            TagEnd::TableCell => {
                let cell = self.cell.take();
                match self.table.take() {
                    Some(mut t) => {
                        match cell {
                            Some(c) => t.cell(c),
                            None => {},
                        }
                        self.table = Some(t);
                    },
                    None => {},
                }
            },
            TagEnd::TableRow => {
                match self.table.take() {
                    Some(mut t) => {
                        t.row();
                        self.table = Some(t);
                    },
                    None => {},
                }
            },
            TagEnd::Table => {
                match self.table.take() {
                    Some(t) => self.write_table(t),
                    None => {},
                }
            },
            TagEnd::Other => {},
        }
    }

    /// Take in a piece of markdown.
    fn event(&mut self, e: &Event)
        requires
            old(self).depth < usize::MAX / 2,
            bounded(old(self).view(), (usize::MAX / 4) as nat),
            code_fits(event_view(*e)),
        ensures
            final(self).view() == step(old(self).view(), event_view(*e)),
    {
        match e {
            Event::Text(t) => {
                let color = match self.color {
                    Some(c) => Some(c),
                    None => if self.bold {
                        Some(Color::Bold.ansi())
                    } else {
                        None
                    },
                };
                let r = Run { text: copy_clusters(t), color, background: None };
                self.push(r);
            },
            Event::Code(t) => {
                let r = Run {
                    text: copy_clusters(t),
                    color: None,
                    background: Some(Color::CodeBackground.ansi()),
                };
                self.push(r);
            },
            Event::Break => self.wrap(),
            Event::Rule => {
                let columns = self.columns;
                self.wrap();
                proof {
                    lemma_wrapped_frame(old(self).view());
                }
                let line = repeated('─', columns);
                assert(Seq::new(columns as nat, |i: int| '─') =~= horizontal(columns as nat));
                self.push(Run { text: line, color: Some(Color::GrayedText.ansi()), background: None });
                self.wrap();
            },
            Event::Start(tag) => self.start(tag),
            Event::End(tag) => self.end(tag),
            Event::CodeBlock(lines) => self.code_block(lines),
            Event::Other => {},
        }
    }

    /// Finish whatever is left over, and return the lines.
    fn finish(self) -> (lines: Vec<Vec<Run>>)
        ensures
            lines_view(lines@) == finished(self.view()),
    {
        let mut s = self;
        s.wrap();
        let columns = s.columns;
        let mut lines = s.lines;
        while lines.len() > 0 && is_blank(&lines[lines.len() - 1], columns)
            invariant
                trimmed(lines_view(lines@), columns as nat) == finished(self.view()),
            decreases lines.len(),
        {
            let ghost before = lines_view(lines@);
            lines.pop();
            assert(lines_view(lines@) =~= before.drop_last());
        }
        lines
    }
}

/// Return a copy of some runs.
fn copy_runs(rs: &Vec<Run>) -> (r: Vec<Run>)
    ensures
        runs_view(r@) == runs_view(rs@),
{
    let mut r: Vec<Run> = Vec::new();
    let mut i: usize = 0;
    while i < rs.len()
        invariant
            i <= rs.len(),
            runs_view(r@) == runs_view(rs@).take(i as int),
        decreases rs.len() - i,
    {
        let ghost before = runs_view(r@);
        let k = rs[i].copy();
        r.push(k);
        assert(runs_view(r@) =~= before.push(rs@[i as int]@));
        assert(runs_view(r@) =~= runs_view(rs@).take(i + 1));
        i = i + 1;
    }
    assert(runs_view(rs@).take(rs.len() as int) =~= runs_view(rs@));
    r
}

/// Return a mark the library draws, a column wide.
fn mark(c: char) -> (m: Cluster)
    ensures
        (m.text@, m.width) == (seq![c], 1usize),
{
    let mut text = String::new();
    crate::text::push_char(&mut text, c);
    assert(text@ =~= seq![c]);
    Cluster { text, width: 1 }
}

/// Return a character drawn some number of times.
fn repeated(c: char, n: usize) -> (r: Vec<Cluster>)
    ensures
        cvs(r@) == marks(Seq::new(n as nat, |i: int| c)),
{
    let mut r: Vec<Cluster> = Vec::new();
    let mut i: usize = 0;
    while i < n
        invariant
            i <= n,
            cvs(r@) == marks(Seq::new(i as nat, |j: int| c)),
        decreases n - i,
    {
        let ghost before = cvs(r@);
        r.push(mark(c));
        assert(cvs(r@) =~= before.push((seq![c], 1usize)));
        assert(cvs(r@) =~= marks(Seq::new((i + 1) as nat, |j: int| c)));
        i = i + 1;
    }
    r
}

/// Return the mark put before a quote.
fn quote_clusters() -> (r: Vec<Cluster>)
    ensures
        cvs(r@) == marks(quote_mark()),
{
    let mut r: Vec<Cluster> = Vec::new();
    r.push(mark('▏'));
    r.push(mark(' '));
    assert(cvs(r@) =~= marks(quote_mark()));
    r
}

/// Return whether a line shows nothing in the columns it is drawn in.
fn is_blank(line: &Vec<Run>, columns: usize) -> (b: bool)
    ensures
        b == blank_line(runs_view(line@), columns as nat),
{
    let ghost lv = runs_view(line@);
    let mut col: usize = 0;
    let mut j: usize = 0;
    assert(lv.skip(0) =~= lv);
    while j < line.len()
        invariant
            lv == runs_view(line@),
            j <= line.len(),
            blank_line(lv, columns as nat) == blank_from(lv.skip(j as int), col as nat, columns as nat),
        decreases line.len() - j,
    {
        if col >= columns {
            return true;
        }
        let run = &line[j];
        let ghost rv = run@;
        let ghost text = rv.text;
        assert(lv.skip(j as int)[0] == rv);
        assert(lv.skip(j as int).skip(1) =~= lv.skip(j + 1));
        let plain_run = run.color.is_none() && run.background.is_none();
        let mut colk: usize = col;
        let mut k: usize = 0;
        assert(text.skip(0) =~= text);
        assert(text.take(0) =~= Seq::<Cv>::empty());
        assert(lv.skip(j as int).len() > 0);
        assert(blank_line(lv, columns as nat) == (blank_clusters(text, rv, col as nat, columns as nat)
            && blank_from(lv.skip(j + 1), (col + width(text)) as nat, columns as nat)));
        while k < run.text.len()
            invariant
                lv == runs_view(line@),
                j < line.len(),
                col < columns,
                blank_line(lv, columns as nat) == (blank_clusters(text, rv, col as nat, columns as nat)
                    && blank_from(lv.skip(j + 1), (col + width(text)) as nat, columns as nat)),
                rv == run@,
                text == rv.text,
                k <= run.text.len(),
                colk < columns,
                colk == col + width(text.take(k as int)),
                plain_run == (rv.color is None && rv.background is None),
                blank_clusters(text, rv, col as nat, columns as nat) == blank_clusters(
                    text.skip(k as int),
                    rv,
                    colk as nat,
                    columns as nat,
                ),
            decreases run.text.len() - k,
        {
            let c = &run.text[k];
            assert(text.skip(k as int)[0] == (c.text@, c.width));
            assert(text.skip(k as int).skip(1) =~= text.skip(k + 1));
            assert(text.take(k + 1).drop_last() =~= text.take(k as int));
            if !(plain_run && space_cluster(c)) {
                assert(!blank_clusters(text.skip(k as int), rv, colk as nat, columns as nat));
                return false;
            }
            if c.width >= columns - colk {
                proof {
                    assert(width(text.take(k + 1)) == width(text.take(k as int)) + c.width);
                    lemma_width_grows(text, k + 1, text.len() as int);
                    assert(text.take(text.len() as int) =~= text);
                    assert(blank_clusters(text.skip(k + 1), rv, (colk + c.width) as nat, columns as nat));
                    assert(blank_from(lv.skip(j + 1), (col + width(text)) as nat, columns as nat));
                }
                return true;
            }
            colk = colk + c.width;
            k = k + 1;
        }
        assert(text.take(text.len() as int) =~= text);
        assert(text.skip(text.len() as int) =~= Seq::<Cv>::empty());
        col = colk;
        j = j + 1;
    }
    true
}

/// The marks of some characters take a column each.
proof fn lemma_marks_width(s: Seq<char>)
    ensures
        width(marks(s)) == s.len(),
    decreases s.len(),
{
    if s.len() > 0 {
        assert(marks(s).drop_last() =~= marks(s.drop_last()));
        lemma_marks_width(s.drop_last());
    }
}

/// Whether every cell is within a bound is so of any larger bound.
proof fn lemma_bounded_grows(v: MdView, b: nat, c: nat)
    requires
        bounded(v, b),
        b <= c,
    ensures
        bounded(v, c),
{
}

/// Taking in a piece of markdown keeps the width, goes at most one list deeper, and adds to a
/// cell of a table at most what the piece can add.
proof fn lemma_step(v: MdView, e: EventView, b: nat)
    requires
        bounded(v, b),
    ensures
        step(v, e).columns == v.columns,
        step(v, e).depth <= v.depth + 1,
        bounded(step(v, e), b + event_width(e, v.columns)),
{
    let c = b + event_width(e, v.columns);
    lemma_bounded_grows(v, b, c);
    lemma_wrapped_frame(v);
    lemma_blanked_frame(v);
    match e {
        EventView::Text(t) => {
            if let Some(cell) = v.cell {
                let r = RunView { text: t, color: text_color(v), background: None };
                assert(cell.push(r).drop_last() =~= cell);
            }
        },
        EventView::Code(t) => {
            if let Some(cell) = v.cell {
                let r = on_code(plain(t));
                assert(cell.push(r).drop_last() =~= cell);
            }
        },
        EventView::Break => {},
        EventView::Rule => {
            let w = wrapped(v);
            let r = colored(marks(horizontal(v.columns)), Color::GrayedText);
            lemma_marks_width(horizontal(v.columns));
            if let Some(cell) = w.cell {
                assert(cell.push(r).drop_last() =~= cell);
            }
            lemma_wrapped_frame(pushed(w, r));
        },
        EventView::Start(tag) => {
            match tag {
                Tag::Item => {
                    let w = wrapped(v);
                    lemma_marks_width(bullet());
                    if let Some(cell) = w.cell {
                        assert(cell.push(plain(marks(bullet()))).drop_last() =~= cell);
                    }
                },
                _ => {},
            }
        },
        EventView::End(tag) => {
            match tag {
                TagEnd::Paragraph => {
                    lemma_wrapped_frame(MdView { color: None, bold: false, ..v });
                },
                TagEnd::BlockQuote => {
                    lemma_wrapped_frame(MdView { quoted: false, ..v });
                },
                TagEnd::TableCell => {
                    if let (Some(t), Some(cell)) = (v.table, v.cell) {
                        let row = t.row.push(cell);
                        assert forall|k: int| 0 <= k < row.len() implies #[trigger] cell_width(row[k]) <= c by {
                            if k < t.row.len() {
                                assert(row[k] == t.row[k]);
                            }
                        }
                    }
                },
                TagEnd::TableRow => {
                    if let Some(t) = v.table {
                        if t.row.len() > 0 {
                            let rows = t.rows.push(t.row);
                            assert forall|r: int, k: int| 0 <= r < rows.len() && 0 <= k < rows[r].len() implies #[trigger] cell_width(
                                rows[r][k],
                            ) <= c by {
                                if r < t.rows.len() {
                                    assert(rows[r] == t.rows[r]);
                                } else {
                                    assert(rows[r] == t.row);
                                }
                            }
                        }
                    }
                },
                TagEnd::Table => {
                    if let Some(t) = v.table {
                        let w = MdView { table: None, ..v };
                        if !(t.rows.len() == 0 || t.columns == 0) {
                            lemma_put_lines_frame(w, table_lines(t));
                            lemma_blanked_frame(put_lines(w, table_lines(t)));
                        }
                    }
                },
                _ => {},
            }
        },
        EventView::CodeBlock(lines) => {
            let w = blanked(v);
            let ls = lines.map_values(
                |l: Seq<(Seq<Cv>, Option<crate::color::Kind>)>| code_line(l, w.columns),
            );
            lemma_put_lines_frame(w, ls);
            lemma_blanked_frame(put_lines(w, ls));
        },
        EventView::Other => {},
    }
}

/// What pieces of markdown can add grows as pieces are added.
proof fn lemma_events_width_grows(events: Seq<EventView>, columns: nat, j: int, k: int)
    requires
        0 <= j <= k <= events.len(),
    ensures
        events_width(events.take(j), columns) <= events_width(events.take(k), columns),
    decreases k - j,
{
    if j < k {
        assert(events.take(k).drop_last() =~= events.take(k - 1));
        lemma_events_width_grows(events, columns, j, k - 1);
    }
}

/// Return the lines some markdown is shown as at a width, which is nothing when there is no
/// width.
///
/// Paragraphs, headings, quotes, tables and blocks of code are kept apart by a blank line,
/// lists are bulleted and indented, quotes are marked, words are wrapped where a line runs out
/// of room, and a word wider than a whole line is broken between clusters. The lines are as they
/// are to be drawn at the width: a line wider than it is cut off where it is drawn.
pub fn render(events: &Vec<Event>, columns: usize) -> (lines: Vec<Vec<Run>>)
    requires
        events@.len() <= usize::MAX / 4,
        events_width(events_view(events@), columns as nat) <= usize::MAX / 4,
        forall|i: int| 0 <= i < events@.len() ==> code_fits(#[trigger] events_view(events@)[i]),
    ensures
        lines_view(lines@) == rendered(events_view(events@), columns as nat),
{
    let ghost ev = events_view(events@);
    if columns == 0 {
        let lines: Vec<Vec<Run>> = Vec::new();
        assert(lines_view(lines@) =~= Seq::<Seq<RunView>>::empty());
        return lines;
    }
    let mut state = State::new(columns);
    let mut i: usize = 0;
    assert(ev.take(0) =~= Seq::<EventView>::empty());
    while i < events.len()
        invariant
            ev == events_view(events@),
            events@.len() <= usize::MAX / 4,
            events_width(ev, columns as nat) <= usize::MAX / 4,
            forall|k: int| 0 <= k < events@.len() ==> code_fits(#[trigger] ev[k]),
            i <= events.len(),
            state.view() == steps(start(columns as nat), ev.take(i as int)),
            state.view().columns == columns,
            state.view().depth <= i,
            bounded(state.view(), events_width(ev.take(i as int), columns as nat)),
        decreases events.len() - i,
    {
        assert(ev.take(i + 1).drop_last() =~= ev.take(i as int));
        assert(ev.take(i + 1).last() == ev[i as int]);
        assert(ev[i as int] == event_view(events@[i as int]));
        proof {
            lemma_events_width_grows(ev, columns as nat, i as int, events.len() as int);
            assert(ev.take(events.len() as int) =~= ev);
            lemma_bounded_grows(
                state.view(),
                events_width(ev.take(i as int), columns as nat),
                (usize::MAX / 4) as nat,
            );
            lemma_step(state.view(), ev[i as int], events_width(ev.take(i as int), columns as nat));
        }
        state.event(&events[i]);
        i = i + 1;
    }
    assert(ev.take(events.len() as int) =~= ev);
    state.finish()
}

/// Return whether a line of code takes at most a quarter of the largest count.
fn code_line_fits(spans: &Vec<Span>) -> (b: bool)
    ensures
        b == (cell_width(code_runs(spans_view(spans@))) <= usize::MAX / 4),
{
    let ghost rs = code_runs(spans_view(spans@));
    let mut acc: usize = 0;
    let mut k: usize = 0;
    assert(rs.take(0) =~= Seq::<RunView>::empty());
    while k < spans.len()
        invariant
            rs == code_runs(spans_view(spans@)),
            k <= spans.len(),
            acc == cell_width(rs.take(k as int)),
            acc <= usize::MAX / 4,
        decreases spans.len() - k,
    {
        assert(rs.take(k + 1).drop_last() =~= rs.take(k as int));
        assert(rs[k as int].text == cvs(spans@[k as int].text@));
        match width_within(&spans[k].text, usize::MAX / 4 - acc) {
            Some(w) => {
                acc = acc + w;
            },
            None => {
                proof {
                    lemma_cell_width_grows(rs, k + 1, spans.len() as int);
                    assert(rs.take(spans.len() as int) =~= rs);
                }
                return false;
            },
        }
        k = k + 1;
    }
    assert(rs.take(spans.len() as int) =~= rs);
    true
}

/// Return whether some markdown can be laid out at a width: there are no more than a quarter
/// of the largest count of pieces, what they can add to the cells of a table takes no more than
/// a quarter of the largest count of columns, and neither does any line of code.
pub fn renderable(events: &Vec<Event>, columns: usize) -> (b: bool)
    ensures
        b == (events@.len() <= usize::MAX / 4 && events_width(events_view(events@), columns as nat)
            <= usize::MAX / 4 && forall|i: int| 0 <= i < events@.len() ==> code_fits(
            #[trigger] events_view(events@)[i],
        )),
{
    let ghost ev = events_view(events@);
    if events.len() > usize::MAX / 4 {
        return false;
    }
    let bound: usize = usize::MAX / 4;
    let mut total: usize = 0;
    let mut i: usize = 0;
    assert(ev.take(0) =~= Seq::<EventView>::empty());
    while i < events.len()
        invariant
            ev == events_view(events@),
            i <= events.len(),
            events@.len() <= usize::MAX / 4,
            bound == usize::MAX / 4,
            total == events_width(ev.take(i as int), columns as nat),
            total <= bound,
            forall|k: int| 0 <= k < i ==> code_fits(#[trigger] ev[k]),
        decreases events.len() - i,
    {
        assert(ev.take(i + 1).drop_last() =~= ev.take(i as int));
        assert(ev.take(i + 1).last() == ev[i as int]);
        assert(ev[i as int] == event_view(events@[i as int]));
        let room = bound - total;
        let w: Option<usize> = match &events[i] {
            Event::Text(t) => width_within(t, room),
            Event::Code(t) => width_within(t, room),
            Event::Rule => if columns <= room { Some(columns) } else { None },
            Event::Start(Tag::Item) => if 2 <= room { Some(2) } else { None },
            Event::CodeBlock(lines) => {
                let mut j: usize = 0;
                while j < lines.len()
                    invariant
                        ev == events_view(events@),
                        events@[i as int] == Event::CodeBlock(*lines),
                        i < events@.len(),
                        j <= lines.len(),
                        forall|m: int| 0 <= m < j ==> cell_width(code_runs(#[trigger] code_view(lines@)[m]))
                            <= usize::MAX / 4,
                    decreases lines.len() - j,
                {
                    assert(code_view(lines@)[j as int] == spans_view(lines@[j as int]@));
                    if !code_line_fits(&lines[j]) {
                        assert(!code_lines_fit(code_view(lines@)));
                        assert(!code_fits(ev[i as int]));
                        return false;
                    }
                    j = j + 1;
                }
                assert(code_lines_fit(code_view(lines@)));
                Some(0)
            },
            _ => Some(0),
        };
        match w {
            Some(w) => {
                total = total + w;
            },
            None => {
                proof {
                    lemma_events_width_grows(ev, columns as nat, i + 1, events.len() as int);
                    assert(ev.take(events.len() as int) =~= ev);
                }
                return false;
            },
        }
        i = i + 1;
    }
    assert(ev.take(events.len() as int) =~= ev);
    true
}

/// Nothing is shown without columns to show it in, nor of markdown with nothing in it.
pub proof fn law_nothing_to_show(events: Seq<EventView>, columns: nat)
    requires
        columns == 0 || events.len() == 0,
    ensures
        rendered(events, columns).len() == 0,
{
    if columns > 0 {
        assert(steps(start(columns), events) == start(columns));
        assert(wrapped(start(columns)) == start(columns));
    }
}


/// How many of some clusters, from column `col` on, end within a width.
pub open spec fn fitting_count(cs: Seq<Cv>, col: nat, columns: nat) -> nat
    decreases cs.len(),
{
    if cs.len() == 0 || col + cs[0].1 > columns {
        0
    } else {
        1 + fitting_count(cs.skip(1), col + cs[0].1 as nat, columns)
    }
}

/// Blanks from a column to the edge, if there is room for any.
pub open spec fn padding(col: nat, columns: nat) -> Seq<RunView> {
    if col < columns {
        seq![plain(marks(blanks((columns - col) as nat)))]
    } else {
        Seq::empty()
    }
}

/// A line, from column `col` on, fitted to a width as it is drawn: the clusters which end within
/// it are kept, the rest of the line is cut off from the first which does not, and blanks take
/// the line to the edge.
pub open spec fn fit_from(line: Seq<RunView>, col: nat, columns: nat) -> Seq<RunView>
    decreases line.len(),
{
    if line.len() == 0 {
        padding(col, columns)
    } else {
        let r = line[0];
        let k = fitting_count(r.text, col, columns);
        if k < r.text.len() {
            seq![RunView { text: r.text.take(k as int), ..r }] + padding(col + width(r.text.take(k as int)), columns)
        } else {
            seq![r] + fit_from(line.skip(1), col + width(r.text), columns)
        }
    }
}

/// A line fitted to a width as it is drawn.
pub open spec fn fitted(line: Seq<RunView>, columns: nat) -> Seq<RunView> {
    fit_from(line, 0, columns)
}

/// The runs of a line put together take what each part takes.
proof fn lemma_cell_width_concat(a: Seq<RunView>, b: Seq<RunView>)
    ensures
        cell_width(a + b) == cell_width(a) + cell_width(b),
    decreases b.len(),
{
    if b.len() == 0 {
        assert(a + b =~= a);
    } else {
        assert((a + b).drop_last() =~= a + b.drop_last());
        lemma_cell_width_concat(a, b.drop_last());
    }
}

/// A cluster followed by others takes what it takes and what they do.
proof fn lemma_width_cons(cs: Seq<Cv>)
    requires
        cs.len() > 0,
    ensures
        width(cs) == cs[0].1 + width(cs.skip(1)),
{
    assert(cs =~= seq![cs[0]] + cs.skip(1));
    lemma_width_concat(seq![cs[0]], cs.skip(1));
    assert(seq![cs[0]].drop_last() =~= Seq::<Cv>::empty());
    assert(width(Seq::<Cv>::empty()) == 0);
    assert(seq![cs[0]].last() == cs[0]);
    assert(width(seq![cs[0]]) == cs[0].1);
}

/// The clusters which fit end within the width, and all of them fit only when they all end
/// within it.
proof fn lemma_fitting_count(cs: Seq<Cv>, col: nat, columns: nat)
    requires
        col <= columns,
    ensures
        fitting_count(cs, col, columns) <= cs.len(),
        col + width(cs.take(fitting_count(cs, col, columns) as int)) <= columns,
        fitting_count(cs, col, columns) == cs.len() ==> col + width(cs) <= columns,
    decreases cs.len(),
{
    if cs.len() == 0 || col + cs[0].1 > columns {
        assert(cs.take(0) =~= Seq::<Cv>::empty());
    } else {
        let rest = cs.skip(1);
        let c2 = col + cs[0].1 as nat;
        lemma_fitting_count(rest, c2, columns);
        let k = fitting_count(rest, c2, columns);
        assert(cs.take((k + 1) as int) =~= seq![cs[0]] + rest.take(k as int));
        lemma_width_cons(cs.take((k + 1) as int));
        assert(cs.take((k + 1) as int).skip(1) =~= rest.take(k as int));
        lemma_width_cons(cs);
    }
}

/// Blanks of some width take that width.
proof fn lemma_padding_width(col: nat, columns: nat)
    requires
        col <= columns,
    ensures
        cell_width(padding(col, columns)) == columns - col,
{
    if col < columns {
        let p = padding(col, columns);
        assert(p.drop_last() =~= Seq::<RunView>::empty());
        assert(cell_width(Seq::<RunView>::empty()) == 0);
        lemma_marks_width(blanks((columns - col) as nat));
        assert(p.last().text == marks(blanks((columns - col) as nat)));
        assert(cell_width(p) == cell_width(p.drop_last()) + width(p.last().text));
    }
}

/// Every line, fitted to a width as it is drawn, is exactly as wide as the width.
pub proof fn law_every_fitted_line_is_as_wide_as_asked(line: Seq<RunView>, columns: nat)
    ensures
        cell_width(fitted(line, columns)) == columns,
{
    lemma_fit_from_width(line, 0, columns);
}

/// A line fitted from a column on takes what is left of the width.
proof fn lemma_fit_from_width(line: Seq<RunView>, col: nat, columns: nat)
    requires
        col <= columns,
    ensures
        cell_width(fit_from(line, col, columns)) == columns - col,
    decreases line.len(),
{
    if line.len() == 0 {
        lemma_padding_width(col, columns);
    } else {
        let r = line[0];
        let k = fitting_count(r.text, col, columns);
        lemma_fitting_count(r.text, col, columns);
        let head = if k < r.text.len() { RunView { text: r.text.take(k as int), ..r } } else { r };
        assert(seq![head].drop_last() =~= Seq::<RunView>::empty());
        assert(cell_width(Seq::<RunView>::empty()) == 0);
        assert(seq![head].last() == head);
        assert(cell_width(seq![head]) == cell_width(seq![head].drop_last()) + width(seq![head].last().text));
        if k < r.text.len() {
            let c2 = col + width(r.text.take(k as int));
            lemma_padding_width(c2, columns);
            lemma_cell_width_concat(seq![head], padding(c2, columns));
        } else {
            assert(r.text.take(k as int) =~= r.text);
            let c2 = col + width(r.text);
            lemma_fit_from_width(line.skip(1), c2, columns);
            lemma_cell_width_concat(seq![head], fit_from(line.skip(1), c2, columns));
        }
    }
}


/// Return blanks from a column to the edge, if there is room for any.
fn padding_runs(col: usize, columns: usize) -> (r: Vec<Run>)
    ensures
        runs_view(r@) == padding(col as nat, columns as nat),
{
    let mut r: Vec<Run> = Vec::new();
    if col < columns {
        let blank = plain_run(repeated(' ', columns - col));
        assert(Seq::new((columns - col) as nat, |i: int| ' ') =~= blanks((columns - col) as nat));
        r.push(blank);
        assert(runs_view(r@) =~= padding(col as nat, columns as nat));
    } else {
        assert(runs_view(r@) =~= Seq::<RunView>::empty());
    }
    r
}

/// Return the runs of a line from the `j`th on, from column `col` on, fitted to a width.
fn fit_rest(line: &Vec<Run>, j: usize, col: usize, columns: usize) -> (r: Vec<Run>)
    requires
        j <= line.len(),
        col <= columns,
    ensures
        runs_view(r@) == fit_from(runs_view(line@).skip(j as int), col as nat, columns as nat),
    decreases line.len() - j,
{
    let ghost lv = runs_view(line@).skip(j as int);
    if j == line.len() {
        assert(lv =~= Seq::<RunView>::empty());
        return padding_runs(col, columns);
    }
    let run = &line[j];
    let ghost text = run@.text;
    assert(lv[0] == run@);
    assert(lv.skip(1) =~= runs_view(line@).skip(j + 1));
    let mut k: usize = 0;
    let mut c: usize = col;
    assert(text.skip(0) =~= text);
    assert(text.take(0) =~= Seq::<Cv>::empty());
    while k < run.text.len() && run.text[k].width <= columns - c
        invariant
            text == run@.text,
            k <= run.text.len(),
            col <= c <= columns,
            c == col + width(text.take(k as int)),
            fitting_count(text, col as nat, columns as nat) == k + fitting_count(text.skip(k as int), c as nat, columns as nat),
        decreases run.text.len() - k,
    {
        assert(text.skip(k as int)[0] == text[k as int]);
        assert(text.skip(k as int).skip(1) =~= text.skip(k + 1));
        assert(text.take(k + 1).drop_last() =~= text.take(k as int));
        c = c + run.text[k].width;
        k = k + 1;
    }
    if k < run.text.len() {
        assert(text.skip(k as int)[0] == text[k as int]);
        assert(fitting_count(text.skip(k as int), c as nat, columns as nat) == 0);
        let mut kept: Vec<Cluster> = Vec::new();
        let mut i: usize = 0;
        while i < k
            invariant
                i <= k < run.text.len(),
                text == run@.text,
                cvs(kept@) == text.take(i as int),
            decreases k - i,
        {
            let ghost before = cvs(kept@);
            kept.push(run.text[i].copy());
            assert(cvs(kept@) =~= before.push(text[i as int]));
            assert(text.take(i + 1) =~= text.take(i as int).push(text[i as int]));
            i = i + 1;
        }
        let head = Run { text: kept, color: run.color, background: run.background };
        let mut r: Vec<Run> = Vec::new();
        r.push(head);
        let pad = padding_runs(c, columns);
        let ghost hv = runs_view(r@);
        let mut m: usize = 0;
        while m < pad.len()
            invariant
                m <= pad.len(),
                runs_view(r@) == hv + runs_view(pad@).take(m as int),
            decreases pad.len() - m,
        {
            let ghost b = runs_view(r@);
            r.push(pad[m].copy());
            assert(runs_view(r@) =~= b.push(pad@[m as int]@));
            assert(runs_view(r@) =~= hv + runs_view(pad@).take(m + 1));
            m = m + 1;
        }
        assert(runs_view(pad@).take(pad.len() as int) =~= runs_view(pad@));
        assert(runs_view(r@) =~= fit_from(lv, col as nat, columns as nat));
        r
    } else {
        assert(text.skip(k as int) =~= Seq::<Cv>::empty());
        assert(text.take(k as int) =~= text);
        let rest = fit_rest(line, j + 1, c, columns);
        let mut r: Vec<Run> = Vec::new();
        r.push(run.copy());
        let ghost hv = runs_view(r@);
        let mut m: usize = 0;
        while m < rest.len()
            invariant
                m <= rest.len(),
                runs_view(r@) == hv + runs_view(rest@).take(m as int),
            decreases rest.len() - m,
        {
            let ghost b = runs_view(r@);
            r.push(rest[m].copy());
            assert(runs_view(r@) =~= b.push(rest@[m as int]@));
            assert(runs_view(r@) =~= hv + runs_view(rest@).take(m + 1));
            m = m + 1;
        }
        assert(runs_view(rest@).take(rest.len() as int) =~= runs_view(rest@));
        assert(runs_view(r@) =~= fit_from(lv, col as nat, columns as nat));
        r
    }
}

/// Return a line fitted to a width as it is drawn: the clusters which end within it are kept,
/// the rest is cut off, and blanks take the line to the edge, so that it is exactly as wide as
/// the width.
pub fn fit(line: &Vec<Run>, columns: usize) -> (r: Vec<Run>)
    ensures
        runs_view(r@) == fitted(runs_view(line@), columns as nat),
        cell_width(runs_view(r@)) == columns,
{
    assert(runs_view(line@).skip(0) =~= runs_view(line@));
    proof {
        law_every_fitted_line_is_as_wide_as_asked(runs_view(line@), columns as nat);
    }
    fit_rest(line, 0, 0, columns)
}


/// A strikethrough colors only what is struck through: at its end, text is written in no color
/// unless it is read in bold, whatever color it was struck through in, and nothing else of what
/// has been read changes; and starting and then ending a strikethrough where there is no color
/// leaves everything as it was.
pub proof fn law_a_strikethrough_ends_where_it_ends(v: MdView)
    ensures
        text_color(ended(v, TagEnd::Strikethrough)) == if v.bold {
            Some(Color::Bold.spec_ansi())
        } else {
            None::<AnsiColor>
        },
        ended(v, TagEnd::Strikethrough) == (MdView { color: None, ..v }),
        v.color is None ==> ended(started(v, Tag::Strikethrough), TagEnd::Strikethrough) == v,
        v.color is None ==> text_color(started(v, Tag::Strikethrough)) == Some(Color::GrayedText.spec_ansi()),
{
}

/// Emphasis is shown only where it is: at its end, text is no longer read in bold, and nothing
/// else of what has been read changes; and starting and then ending emphasis where there is none
/// leaves everything as it was.
pub proof fn law_emphasis_ends_where_it_ends(v: MdView)
    ensures
        !ended(v, TagEnd::Emphasis).bold,
        ended(v, TagEnd::Emphasis) == (MdView { bold: false, ..v }),
        !v.bold ==> ended(started(v, Tag::Emphasis), TagEnd::Emphasis) == v,
        !v.bold && v.color is None ==> text_color(started(v, Tag::Emphasis)) == Some(Color::Bold.spec_ansi()),
{
}

} // verus!
