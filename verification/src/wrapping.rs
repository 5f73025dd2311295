//! Text broken into rows which fit in a width, counted in the columns a terminal writes it in.
//!
//! Which characters a terminal writes as one cluster, and how many columns each cluster takes,
//! is for whoever draws the text to say: here text is a list of clusters, each with its width,
//! and a row takes as many columns as its clusters do, added up, and one for each blank put
//! between two words.

use vstd::prelude::*;

use crate::text::{append, push_char};

verus! {

/// A cluster of characters which a terminal writes as one, and how many columns it takes.
pub struct Cluster {
    /// The characters.
    pub text: String,
    /// How many columns they are written in.
    pub width: usize,
}

impl Cluster {
    /// Return a cluster with the same characters and width.
    pub fn copy(&self) -> (c: Cluster)
        ensures
            c.text@ == self.text@,
            c.width == self.width,
    {
        Cluster { text: crate::text::string_of(self.text.as_str()), width: self.width }
    }
}

/// The characters of some clusters, one after another.
pub open spec fn text_of(cs: Seq<Cluster>) -> Seq<char>
    decreases cs.len(),
{
    if cs.len() == 0 {
        Seq::empty()
    } else {
        text_of(cs.drop_last()) + cs.last().text@
    }
}

/// How many columns some clusters take.
pub open spec fn width_of(cs: Seq<Cluster>) -> nat
    decreases cs.len(),
{
    if cs.len() == 0 {
        0
    } else {
        width_of(cs.drop_last()) + cs.last().width as nat
    }
}

/// A piece of text and how many columns it takes.
pub type Piece = (Seq<char>, nat);

/// Clusters cut into pieces, a cluster at a time: a cluster which would take the piece being
/// filled past the width starts the next piece, even when the piece it ends is empty. Gives the
/// pieces cut off, then the piece being filled and how many columns it takes.
pub open spec fn cut(cs: Seq<Cluster>, columns: nat) -> (Seq<Piece>, Seq<char>, nat)
    decreases cs.len(),
{
    if cs.len() == 0 {
        (Seq::empty(), Seq::empty(), 0)
    } else {
        let (done, piece, taken) = cut(cs.drop_last(), columns);
        let c = cs.last();
        if taken + c.width > columns {
            (done.push((piece, taken)), c.text@, c.width as nat)
        } else {
            (done, piece + c.text@, taken + c.width as nat)
        }
    }
}

/// The rows a paragraph being typed is shown on: it is cut between clusters where a row runs
/// out of room, and the last row is there even when it is empty.
pub open spec fn typed_rows(cs: Seq<Cluster>, columns: nat) -> Seq<Seq<char>> {
    let (done, row, _) = cut(cs, columns);
    done.map_values(|p: Piece| p.0).push(row)
}

/// The rows what is being typed is shown on, paragraph after paragraph; nothing has room when
/// there are no columns.
pub open spec fn typed_lines(paragraphs: Seq<Seq<Cluster>>, columns: nat) -> Seq<Seq<char>>
    decreases paragraphs.len(),
{
    if columns == 0 || paragraphs.len() == 0 {
        Seq::empty()
    } else {
        typed_lines(paragraphs.drop_last(), columns) + typed_rows(paragraphs.last(), columns)
    }
}

/// The pieces a word is shown in: the whole word when it fits in the width (or there is no
/// width), and otherwise the word cut between clusters where it runs out of room, leaving out a
/// last piece with nothing in it.
pub open spec fn word_pieces(word: Seq<Cluster>, columns: nat) -> Seq<Piece> {
    if columns == 0 || width_of(word) <= columns {
        seq![(text_of(word), width_of(word))]
    } else {
        let (done, piece, taken) = cut(word, columns);
        if piece.len() > 0 {
            done.push((piece, taken))
        } else {
            done
        }
    }
}

/// The pieces of the words of a paragraph, word after word.
pub open spec fn paragraph_pieces(words: Seq<Seq<Cluster>>, columns: nat) -> Seq<Piece>
    decreases words.len(),
{
    if words.len() == 0 {
        Seq::empty()
    } else {
        paragraph_pieces(words.drop_last(), columns) + word_pieces(words.last(), columns)
    }
}

/// Pieces laid out on lines, a blank between two pieces on the same line: a piece which would
/// take a line with something on it past the width starts the next line. Gives the lines which
/// are done, then the line being filled and how many columns it takes.
pub open spec fn laid_out(pieces: Seq<Piece>, columns: nat) -> (Seq<Seq<char>>, Seq<char>, nat)
    decreases pieces.len(),
{
    if pieces.len() == 0 {
        (Seq::empty(), Seq::empty(), 0)
    } else {
        let (done, line, taken) = laid_out(pieces.drop_last(), columns);
        let (text, width) = pieces.last();
        let (done, line, taken) = if line.len() > 0 && taken + 1 + width > columns {
            (done.push(line), Seq::<char>::empty(), 0nat)
        } else {
            (done, line, taken)
        };
        if line.len() > 0 {
            (done, line + seq![' '] + text, taken + 1 + width)
        } else {
            (done, text, width)
        }
    }
}

/// The lines a paragraph which was said is shown on: its words, a blank between each two on a
/// line, wrapped where a line runs out of room. The last line is there even when it is empty.
pub open spec fn said_rows(words: Seq<Seq<Cluster>>, columns: nat) -> Seq<Seq<char>> {
    let (done, line, _) = laid_out(paragraph_pieces(words, columns), columns);
    done.push(line)
}

/// The lines something which was said is shown on, paragraph after paragraph; nothing has room
/// when there are no columns.
pub open spec fn said_lines(paragraphs: Seq<Seq<Seq<Cluster>>>, columns: nat) -> Seq<Seq<char>>
    decreases paragraphs.len(),
{
    if columns == 0 || paragraphs.len() == 0 {
        Seq::empty()
    } else {
        said_lines(paragraphs.drop_last(), columns) + said_rows(paragraphs.last(), columns)
    }
}

/// The text of each of some strings.
pub open spec fn texts(lines: Seq<String>) -> Seq<Seq<char>> {
    lines.map_values(|s: String| s@)
}

/// The clusters of each paragraph.
pub open spec fn paragraphs_view(paragraphs: Seq<Vec<Cluster>>) -> Seq<Seq<Cluster>> {
    paragraphs.map_values(|p: Vec<Cluster>| p@)
}

/// The clusters of each word of each paragraph.
pub open spec fn worded_view(paragraphs: Seq<Vec<Vec<Cluster>>>) -> Seq<Seq<Seq<Cluster>>> {
    paragraphs.map_values(|p: Vec<Vec<Cluster>>| paragraphs_view(p@))
}

/// The pieces of each of some pairs of a string and a width.
pub open spec fn pieces_view(pieces: Seq<(String, usize)>) -> Seq<Piece> {
    pieces.map_values(|p: (String, usize)| (p.0@, p.1 as nat))
}

/// Return some clusters cut into pieces where they run out of room.
fn cut_clusters(cs: &Vec<Cluster>, columns: usize) -> (r: (Vec<(String, usize)>, String, usize))
    ensures
        pieces_view(r.0@) == cut(cs@, columns as nat).0,
        r.1@ == cut(cs@, columns as nat).1,
        r.2 == cut(cs@, columns as nat).2,
{
    let mut done: Vec<(String, usize)> = Vec::new();
    let mut piece = String::new();
    let mut taken: usize = 0;
    let mut i: usize = 0;
    assert(cs@.take(0) =~= Seq::<Cluster>::empty());
    while i < cs.len()
        invariant
            i <= cs.len(),
            pieces_view(done@) == cut(cs@.take(i as int), columns as nat).0,
            piece@ == cut(cs@.take(i as int), columns as nat).1,
            taken == cut(cs@.take(i as int), columns as nat).2,
        decreases cs.len() - i,
    {
        assert(cs@.take(i + 1).drop_last() =~= cs@.take(i as int));
        let c = &cs[i];
        if c.width > columns || taken > columns - c.width {
            let ghost before = done@;
            let ghost old_piece = piece@;
            done.push((piece, taken));
            assert(pieces_view(done@) =~= pieces_view(before).push((old_piece, taken as nat)));
            piece = String::new();
            append(&mut piece, c.text.as_str());
            taken = c.width;
        } else {
            append(&mut piece, c.text.as_str());
            taken = taken + c.width;
        }
        i = i + 1;
    }
    assert(cs@.take(cs.len() as int) =~= cs@);
    (done, piece, taken)
}

/// What some clusters take grows as clusters are added.
proof fn lemma_width_grows(cs: Seq<Cluster>, j: int, k: int)
    requires
        0 <= j <= k <= cs.len(),
    ensures
        width_of(cs.take(j)) <= width_of(cs.take(k)),
    decreases k - j,
{
    if j < k {
        assert(cs.take(k).drop_last() =~= cs.take(k - 1));
        lemma_width_grows(cs, j, k - 1);
    }
}

/// Return the characters of a word and how many columns it takes, when it fits in a width.
fn fitting(word: &Vec<Cluster>, columns: usize) -> (r: Option<(String, usize)>)
    ensures
        match r {
            Some((text, width)) => width_of(word@) <= columns && text@ == text_of(word@) && width
                == width_of(word@),
            None => width_of(word@) > columns,
        },
{
    let mut text = String::new();
    let mut width: usize = 0;
    let mut i: usize = 0;
    assert(word@.take(0) =~= Seq::<Cluster>::empty());
    while i < word.len()
        invariant
            i <= word.len(),
            text@ == text_of(word@.take(i as int)),
            width == width_of(word@.take(i as int)),
            width <= columns,
        decreases word.len() - i,
    {
        assert(word@.take(i + 1).drop_last() =~= word@.take(i as int));
        if word[i].width > columns - width {
            proof {
                lemma_width_grows(word@, i + 1, word.len() as int);
                assert(word@.take(word.len() as int) =~= word@);
            }
            return None;
        }
        append(&mut text, word[i].text.as_str());
        width = width + word[i].width;
        i = i + 1;
    }
    assert(word@.take(word.len() as int) =~= word@);
    Some((text, width))
}

/// Return the pieces a word is shown in at a width.
fn pieces_of(word: &Vec<Cluster>, columns: usize) -> (ps: Vec<(String, usize)>)
    requires
        columns > 0,
    ensures
        pieces_view(ps@) == word_pieces(word@, columns as nat),
{
    match fitting(word, columns) {
        Some((text, width)) => {
            let mut ps: Vec<(String, usize)> = Vec::new();
            ps.push((text, width));
            assert(pieces_view(ps@) =~= word_pieces(word@, columns as nat));
            ps
        },
        None => {
            let (mut done, piece, taken) = cut_clusters(word, columns);
            if piece.as_str().unicode_len() > 0 {
                let ghost before = done@;
                let ghost p = piece@;
                done.push((piece, taken));
                assert(pieces_view(done@) =~= pieces_view(before).push((p, taken as nat)));
            }
            done
        },
    }
}

/// Return the rows what is being typed is shown on at a width: each paragraph is cut between
/// clusters where a row runs out of room, and has a row even when it is empty.
pub fn typed_lines_of(paragraphs: &Vec<Vec<Cluster>>, columns: usize) -> (lines: Vec<String>)
    ensures
        texts(lines@) == typed_lines(paragraphs_view(paragraphs@), columns as nat),
{
    let mut lines: Vec<String> = Vec::new();
    if columns == 0 {
        return lines;
    }
    let ghost ps = paragraphs_view(paragraphs@);
    let mut i: usize = 0;
    assert(ps.take(0) =~= Seq::<Seq<Cluster>>::empty());
    while i < paragraphs.len()
        invariant
            columns > 0,
            ps == paragraphs_view(paragraphs@),
            i <= paragraphs.len(),
            texts(lines@) == typed_lines(ps.take(i as int), columns as nat),
        decreases paragraphs.len() - i,
    {
        assert(ps.take(i + 1).drop_last() =~= ps.take(i as int));
        let (done, row, _) = cut_clusters(&paragraphs[i], columns);
        let ghost before = lines@;
        let ghost dv = pieces_view(done@).map_values(|p: Piece| p.0);
        let mut j: usize = 0;
        while j < done.len()
            invariant
                j <= done.len(),
                dv == pieces_view(done@).map_values(|p: Piece| p.0),
                texts(lines@) == texts(before) + dv.take(j as int),
            decreases done.len() - j,
        {
            let text = crate::text::string_of(done[j].0.as_str());
            let ghost old_lines = lines@;
            lines.push(text);
            assert(texts(lines@) =~= texts(old_lines).push(text@));
            assert(dv.take(j + 1) =~= dv.take(j as int).push(dv[j as int]));
            j = j + 1;
        }
        let ghost old_lines = lines@;
        lines.push(row);
        assert(texts(lines@) =~= texts(old_lines).push(row@));
        assert(dv.take(done.len() as int) =~= dv);
        assert(ps.take(i + 1).last() == paragraphs@[i as int]@);
        assert(texts(lines@) =~= typed_lines(ps.take(i + 1), columns as nat));
        i = i + 1;
    }
    assert(ps.take(paragraphs.len() as int) =~= ps);
    lines
}

/// Return how many rows what is being typed needs at a width: one to start with, and more as it
/// wraps.
pub fn typed_rows_needed(paragraphs: &Vec<Vec<Cluster>>, columns: usize) -> (rows: usize)
    ensures
        rows == if typed_lines(paragraphs_view(paragraphs@), columns as nat).len() > 1 {
            typed_lines(paragraphs_view(paragraphs@), columns as nat).len()
        } else {
            1
        },
{
    let lines = typed_lines_of(paragraphs, columns);
    if lines.len() > 1 {
        lines.len()
    } else {
        1
    }
}

/// Return the lines something which was said is shown on at a width: the words of each
/// paragraph, a blank between each two on a line, wrapped where a line runs out of room, a word
/// wider than a whole line cut between clusters.
pub fn said_lines_of(paragraphs: &Vec<Vec<Vec<Cluster>>>, columns: usize) -> (lines: Vec<String>)
    ensures
        texts(lines@) == said_lines(worded_view(paragraphs@), columns as nat),
{
    let mut lines: Vec<String> = Vec::new();
    if columns == 0 {
        return lines;
    }
    let ghost ps = worded_view(paragraphs@);
    let mut i: usize = 0;
    assert(ps.take(0) =~= Seq::<Seq<Seq<Cluster>>>::empty());
    while i < paragraphs.len()
        invariant
            columns > 0,
            ps == worded_view(paragraphs@),
            i <= paragraphs.len(),
            texts(lines@) == said_lines(ps.take(i as int), columns as nat),
        decreases paragraphs.len() - i,
    {
        assert(ps.take(i + 1).drop_last() =~= ps.take(i as int));
        let words = &paragraphs[i];
        let ghost ws = paragraphs_view(words@);
        let ghost before = lines@;
        let mut line = String::new();
        let mut taken: usize = 0;
        let mut w: usize = 0;
        assert(ws.take(0) =~= Seq::<Seq<Cluster>>::empty());
        while w < words.len()
            invariant
                columns > 0,
                ws == paragraphs_view(words@),
                w <= words.len(),
                texts(lines@) == texts(before) + laid_out(
                    paragraph_pieces(ws.take(w as int), columns as nat),
                    columns as nat,
                ).0,
                line@ == laid_out(paragraph_pieces(ws.take(w as int), columns as nat), columns as nat).1,
                taken == laid_out(paragraph_pieces(ws.take(w as int), columns as nat), columns as nat).2,
            decreases words.len() - w,
        {
            assert(ws.take(w + 1).drop_last() =~= ws.take(w as int));
            let pieces = pieces_of(&words[w], columns);
            let ghost pre = paragraph_pieces(ws.take(w as int), columns as nat);
            let ghost pv = pieces_view(pieces@);
            let mut k: usize = 0;
            assert(pre + pv.take(0) =~= pre);
            while k < pieces.len()
                invariant
                    columns > 0,
                    pv == pieces_view(pieces@),
                    k <= pieces.len(),
                    texts(lines@) == texts(before) + laid_out(pre + pv.take(k as int), columns as nat).0,
                    line@ == laid_out(pre + pv.take(k as int), columns as nat).1,
                    taken == laid_out(pre + pv.take(k as int), columns as nat).2,
                decreases pieces.len() - k,
            {
                assert((pre + pv.take(k + 1)).drop_last() =~= pre + pv.take(k as int));
                assert((pre + pv.take(k + 1)).last() == pv[k as int]);
                let width = pieces[k].1;
                if line.as_str().unicode_len() > 0 && (width >= columns || taken >= columns - width) {
                    let ghost old_lines = lines@;
                    let ghost old_line = line@;
                    lines.push(line);
                    assert(texts(lines@) =~= texts(old_lines).push(old_line));
                    line = String::new();
                    taken = 0;
                }
                if line.as_str().unicode_len() > 0 {
                    push_char(&mut line, ' ');
                    append(&mut line, pieces[k].0.as_str());
                    taken = taken + 1 + width;
                } else {
                    line = crate::text::string_of(pieces[k].0.as_str());
                    taken = width;
                }
                k = k + 1;
            }
            assert(pv.take(pieces.len() as int) =~= pv);
            assert(ws.take(w + 1).last() == words@[w as int]@);
            w = w + 1;
        }
        let ghost old_lines = lines@;
        let ghost last_line = line@;
        lines.push(line);
        assert(texts(lines@) =~= texts(old_lines).push(last_line));
        assert(ws.take(words.len() as int) =~= ws);
        assert(ps.take(i + 1).last() == ws);
        assert(texts(lines@) =~= said_lines(ps.take(i + 1), columns as nat));
        i = i + 1;
    }
    assert(ps.take(paragraphs.len() as int) =~= ps);
    lines
}

/// Lines put back together, one after another.
pub open spec fn joined(lines: Seq<Seq<char>>) -> Seq<char>
    decreases lines.len(),
{
    if lines.len() == 0 {
        Seq::empty()
    } else {
        joined(lines.drop_last()) + lines.last()
    }
}

/// What is cut off and what is being filled hold the clusters in order.
proof fn lemma_cut_keeps_the_text(cs: Seq<Cluster>, columns: nat)
    ensures
        joined(cut(cs, columns).0.map_values(|p: Piece| p.0)) + cut(cs, columns).1 == text_of(cs),
    decreases cs.len(),
{
    if cs.len() > 0 {
        lemma_cut_keeps_the_text(cs.drop_last(), columns);
        let (done, piece, taken) = cut(cs.drop_last(), columns);
        let c = cs.last();
        let dv = done.map_values(|p: Piece| p.0);
        if taken + c.width > columns {
            assert(done.push((piece, taken)).map_values(|p: Piece| p.0) =~= dv.push(piece));
            assert(dv.push(piece).drop_last() =~= dv);
            assert(joined(dv.push(piece)) + c.text@ =~= joined(dv) + piece + c.text@);
        } else {
            assert(joined(dv) + (piece + c.text@) =~= joined(dv) + piece + c.text@);
        }
    }
}

/// Nothing typed is lost to the wrapping: the rows of a paragraph, put back together, are what
/// was typed.
pub proof fn law_typed_rows_keep_what_was_typed(cs: Seq<Cluster>, columns: nat)
    ensures
        joined(typed_rows(cs, columns)) == text_of(cs),
{
    lemma_cut_keeps_the_text(cs, columns);
    let (done, row, _) = cut(cs, columns);
    let dv = done.map_values(|p: Piece| p.0);
    assert(dv.push(row).drop_last() =~= dv);
}

/// Nothing of a word is lost to breaking it: its pieces, put back together, are the word.
pub proof fn law_pieces_keep_the_word(word: Seq<Cluster>, columns: nat)
    ensures
        joined(word_pieces(word, columns).map_values(|p: Piece| p.0)) == text_of(word),
{
    if columns == 0 || width_of(word) <= columns {
        let ps = word_pieces(word, columns).map_values(|p: Piece| p.0);
        assert(ps =~= seq![text_of(word)]);
        assert(ps.drop_last() =~= Seq::<Seq<char>>::empty());
        assert(joined(ps) == joined(ps.drop_last()) + ps.last());
        assert(joined(ps) =~= text_of(word));
    } else {
        lemma_cut_keeps_the_text(word, columns);
        let (done, piece, taken) = cut(word, columns);
        let dv = done.map_values(|p: Piece| p.0);
        if piece.len() > 0 {
            assert(done.push((piece, taken)).map_values(|p: Piece| p.0) =~= dv.push(piece));
            assert(dv.push(piece).drop_last() =~= dv);
            assert(joined(dv.push(piece)) == joined(dv) + piece);
        } else {
            assert(word_pieces(word, columns) == done);
            assert(joined(dv) + piece =~= joined(dv));
        }
    }
}


/// Whether each of some pieces takes a column for each of its characters and fits in a width.
pub open spec fn pieces_fit(pieces: Seq<Piece>, columns: nat) -> bool {
    forall|i: int| 0 <= i < pieces.len() ==> (#[trigger] pieces[i]).0.len() == pieces[i].1 && pieces[i].1 <= columns
}

/// No line said is wider than the width: when each piece fits in the width and takes a column
/// for each of its characters, every line laid out, its pieces and the blanks between them, has
/// at most as many characters as there are columns; and the line being filled takes as many
/// columns as it has characters.
pub proof fn law_said_lines_fit_in_the_width(pieces: Seq<Piece>, columns: nat)
    requires
        pieces_fit(pieces, columns),
    ensures
        forall|i: int| 0 <= i < laid_out(pieces, columns).0.len() ==> (#[trigger] laid_out(pieces, columns).0[i]).len() <= columns,
        laid_out(pieces, columns).1.len() <= columns,
        laid_out(pieces, columns).1.len() == laid_out(pieces, columns).2,
    decreases pieces.len(),
{
    if pieces.len() > 0 {
        let rest = pieces.drop_last();
        assert(pieces_fit(rest, columns)) by {
            assert forall|i: int| 0 <= i < rest.len() implies (#[trigger] rest[i]).0.len() == rest[i].1 && rest[i].1 <= columns by {
                assert(rest[i] == pieces[i]);
            }
        }
        law_said_lines_fit_in_the_width(rest, columns);
        assert(pieces.last() == pieces[pieces.len() - 1]);
        let (done, line, taken) = laid_out(rest, columns);
        let (text, width) = pieces.last();
        if line.len() > 0 && taken + 1 + width > columns {
            let d2 = done.push(line);
            assert forall|i: int| 0 <= i < d2.len() implies (#[trigger] d2[i]).len() <= columns by {
                if i < done.len() {
                    assert(d2[i] == done[i]);
                }
            }
        }
    }
}


/// Pieces on one line, a blank between each two.
pub open spec fn spaced(pieces: Seq<Piece>) -> Seq<char>
    decreases pieces.len(),
{
    if pieces.len() == 0 {
        Seq::empty()
    } else if pieces.len() == 1 {
        pieces[0].0
    } else {
        spaced(pieces.drop_last()) + seq![' '] + pieces.last().0
    }
}

/// A line is not broken where there is room: when each piece takes a column for each of its
/// characters, has something in it and fits, and all of them with a blank between each two fit
/// in the width, they are laid out on one line, just so.
pub proof fn law_what_fits_stays_on_one_line(pieces: Seq<Piece>, columns: nat)
    requires
        pieces_fit(pieces, columns),
        forall|i: int| 0 <= i < pieces.len() ==> (#[trigger] pieces[i]).0.len() > 0,
        spaced(pieces).len() <= columns,
    ensures
        laid_out(pieces, columns).0.len() == 0,
        laid_out(pieces, columns).1 == spaced(pieces),
    decreases pieces.len(),
{
    if pieces.len() > 0 {
        let rest = pieces.drop_last();
        assert(pieces_fit(rest, columns)) by {
            assert forall|i: int| 0 <= i < rest.len() implies (#[trigger] rest[i]).0.len() == rest[i].1 && rest[i].1 <= columns by {
                assert(rest[i] == pieces[i]);
            }
        }
        assert forall|i: int| 0 <= i < rest.len() implies (#[trigger] rest[i]).0.len() > 0 by {
            assert(rest[i] == pieces[i]);
        }
        assert(pieces.last() == pieces[pieces.len() - 1]);
        if pieces.len() > 1 {
            assert(rest.last() == rest[rest.len() - 1]);
            lemma_spaced_not_empty(rest);
        }
        law_what_fits_stays_on_one_line(rest, columns);
        law_said_lines_fit_in_the_width(rest, columns);
    }
}

/// Pieces with something in them are something on a line.
proof fn lemma_spaced_not_empty(pieces: Seq<Piece>)
    requires
        pieces.len() > 0,
        pieces.last().0.len() > 0,
    ensures
        spaced(pieces).len() > 0,
{
}

} // verus!
