//! How the hits of a search are laid out in the searcher: for each file from the first shown,
//! its path, then each of its lines with the number of the line, then a blank row, for as many
//! rows as there are. The selected path or line is highlighted while the hits are looked at.

use vstd::prelude::*;

use crate::keys::Size;
use crate::listing::{Line, Shown, Style};
use crate::searcher_contents::{ContentsView, FileHit, FileHitView, State, hits_view, lines_view};
use crate::text::{append, chars_of, decimal, decimal_string, push_char, slice, starts_with, string_of_chars};

verus! {

/// Some blanks.
pub open spec fn spaces(n: nat) -> Seq<char> {
    Seq::new(n, |i: int| ' ')
}

/// A line with each tab written as some blanks.
pub open spec fn detabbed(line: Seq<char>, tab_width: nat) -> Seq<char>
    decreases line.len(),
{
    if line.len() == 0 {
        Seq::empty()
    } else {
        detabbed(line.drop_last(), tab_width) + if line.last() == '\t' {
            spaces(tab_width)
        } else {
            seq![line.last()]
        }
    }
}

/// The path of a file as it is shown: without the directory which was searched in front of it,
/// nor the separator after that.
pub open spec fn relative(path: Seq<char>, dir: Seq<char>) -> Seq<char> {
    let rest = path.skip(dir.len() as int);
    if rest.len() > 0 && rest[0] == '/' {
        rest.skip(1)
    } else {
        rest
    }
}

/// The rows for the file with some number, each with whether it is highlighted: its path,
/// unless it is the first shown and its path is scrolled past, then each of its lines from the
/// first which is not scrolled past, then a blank row.
pub open spec fn file_rows(v: ContentsView, i: int, tab_width: nat) -> Seq<(Seq<char>, bool)> {
    let hit = v.hits[i];
    let first = i == v.file_offset;
    let focused = v.focussed && v.hit_number() == Some(i);
    let path_rows = if first && v.line_offset is Some {
        Seq::empty()
    } else {
        seq![(relative(hit.path, v.dir), focused && v.line_selected is None)]
    };
    let skipped: int = if first {
        match v.line_offset {
            Some(l) => l as int,
            None => 0,
        }
    } else {
        0
    };
    let line_rows = Seq::new(
        (hit.lines.len() - skipped) as nat,
        |k: int|
            {
                let n = skipped + k;
                (
                    decimal(hit.lines[n].line_number as nat) + ": "@ + detabbed(
                        hit.lines[n].line,
                        tab_width,
                    ),
                    focused && v.line_hit_number() == Some(n),
                )
            },
    );
    path_rows + line_rows + seq![(Seq::<char>::empty(), false)]
}

/// The rows for the files with numbers from one up to another.
pub open spec fn rows_of_files(v: ContentsView, from: int, to: int, tab_width: nat) -> Seq<(Seq<char>, bool)>
    decreases to - from,
{
    if to <= from {
        Seq::empty()
    } else {
        rows_of_files(v, from, to - 1, tab_width) + file_rows(v, to - 1, tab_width)
    }
}

/// What some lines are seen as: each text with whether it is highlighted.
pub open spec fn shown_lines(lines: Seq<Line>) -> Seq<(Seq<char>, bool)> {
    lines.map_values(|l: Line| (l.text@, l.style == Style::Selected))
}

/// What the hits are shown as at some size, with tabs written as some blanks: nothing before a
/// search, nor while one is on its way and has found nothing yet; that nothing matched once it
/// is over; and otherwise the rows of the files from the first shown, as many as fit.
pub open spec fn rendered(v: ContentsView, size: Size, tab_width: nat, shown: Shown) -> bool {
    if !v.searched {
        shown is Blank
    } else if v.hits.len() == 0 {
        if v.pending is Some {
            shown is Blank
        } else {
            shown matches Shown::Centered(text) && text@ == "No matches."@
        }
    } else {
        let all = rows_of_files(v, v.file_offset as int, v.hits.len() as int, tab_width);
        shown matches Shown::Lines(lines) && shown_lines(lines@) == all.take(
            if all.len() < size.rows { all.len() as int } else { size.rows as int },
        )
    }
}

/// The rows for files up to some number start the rows for files up to a later one.
proof fn lemma_rows_grow(v: ContentsView, from: int, mid: int, to: int, tab_width: nat)
    requires
        from <= mid <= to,
    ensures
        rows_of_files(v, from, mid, tab_width).len() <= rows_of_files(v, from, to, tab_width).len(),
        rows_of_files(v, from, to, tab_width).take(rows_of_files(v, from, mid, tab_width).len() as int)
            == rows_of_files(v, from, mid, tab_width),
    decreases to - mid,
{
    if mid < to {
        lemma_rows_grow(v, from, mid, to - 1, tab_width);
        let short = rows_of_files(v, from, mid, tab_width);
        let longer = rows_of_files(v, from, to - 1, tab_width);
        assert((longer + file_rows(v, to - 1, tab_width)).take(short.len() as int) =~= longer.take(
            short.len() as int,
        ));
    } else {
        let rows = rows_of_files(v, from, to, tab_width);
        assert(rows.take(rows.len() as int) =~= rows);
    }
}

/// Return a line with each tab written as some blanks.
fn detab(line: &str, tab_width: usize) -> (d: String)
    ensures
        d@ == detabbed(line@, tab_width as nat),
{
    let chars = chars_of(line);
    let mut d = String::new();
    let mut i: usize = 0;
    assert(line@.take(0) =~= Seq::<char>::empty());
    while i < chars.len()
        invariant
            i <= chars@.len(),
            chars@ == line@,
            d@ == detabbed(line@.take(i as int), tab_width as nat),
        decreases chars.len() - i,
    {
        let c = chars[i];
        assert(line@.take(i + 1).drop_last() =~= line@.take(i as int));
        if c == '\t' {
            let mut k: usize = 0;
            let ghost start = d@;
            while k < tab_width
                invariant
                    k <= tab_width,
                    d@ == start + spaces(k as nat),
                decreases tab_width - k,
            {
                push_char(&mut d, ' ');
                assert(spaces((k + 1) as nat) =~= spaces(k as nat).push(' '));
                k = k + 1;
            }
        } else {
            push_char(&mut d, c);
        }
        i = i + 1;
    }
    assert(line@.take(chars.len() as int) =~= line@);
    d
}

/// Return the path of a file as it is shown.
fn relative_path(path: &str, dir: &str) -> (r: String)
    requires
        starts_with(path@, dir@),
    ensures
        r@ == relative(path@, dir@),
{
    let chars = chars_of(path);
    let n = dir.unicode_len();
    let from: usize = if n < chars.len() && chars[n] == '/' {
        n + 1
    } else {
        n
    };
    let rest = slice(&chars, from, chars.len());
    assert(rest@ =~= relative(path@, dir@));
    string_of_chars(&rest)
}

/// Return the rows for the file with some number.
fn file_lines(
    v: Ghost<ContentsView>,
    hit: &FileHit,
    i: usize,
    dir: &str,
    state: &State,
    tab_width: usize,
) -> (lines: Vec<Line>)
    requires
        v@ == state.view(),
        v@.wf(),
        i < v@.hits.len(),
        v@.file_offset <= i,
        v@.hits[i as int] == (FileHitView { path: hit.path@, lines: lines_view(hit.line_hits@) }),
        dir@ == v@.dir,
        starts_with(hit.path@, dir@),
    ensures
        shown_lines(lines@) == file_rows(v@, i as int, tab_width as nat),
{
    let first = i == state.file_offset();
    let hit_number = state.hit_number();
    let focused = state.focussed() && hit_number == Some(i);
    let selected_line = state.line_selected();
    let base: usize = if state.file_selected() == 0 {
        match state.line_offset() {
            Some(l) => l,
            None => 0,
        }
    } else {
        0
    };
    let mut lines: Vec<Line> = Vec::new();
    let line_offset = state.line_offset();
    if !(first && line_offset.is_some()) {
        let selected = focused && state.line_selected().is_none();
        lines.push(
            Line {
                text: relative_path(hit.path.as_str(), dir),
                style: if selected {
                    Style::Selected
                } else {
                    Style::Plain
                },
            },
        );
    }
    let ghost path_count = lines@.len();
    let skipped: usize = if first {
        match line_offset {
            Some(l) => l,
            None => 0,
        }
    } else {
        0
    };
    let mut k: usize = skipped;
    while k < hit.line_hits.len()
        invariant
            v@ == state.view(),
            v@.wf(),
            i < v@.hits.len(),
            v@.hits[i as int] == (FileHitView { path: hit.path@, lines: lines_view(hit.line_hits@) }),
            skipped <= k <= hit.line_hits@.len(),
            lines@.len() == path_count + (k - skipped),
            shown_lines(lines@) == file_rows(v@, i as int, tab_width as nat).take(
                path_count + (k - skipped),
            ),
            path_count == (if first && line_offset is Some { 0int } else { 1int }),
            first == (i == v@.file_offset),
            line_offset == v@.line_offset,
            focused == (v@.focussed && v@.hit_number() == Some(i as int)),
            selected_line == v@.line_selected,
            base == (if v@.file_selected == 0 {
                match v@.line_offset {
                    Some(l) => l as int,
                    None => 0,
                }
            } else {
                0
            }),
            skipped == (if first {
                match v@.line_offset {
                    Some(l) => l as int,
                    None => 0,
                }
            } else {
                0
            }),
        decreases hit.line_hits.len() - k,
    {
        let line_hit = &hit.line_hits[k];
        let mut text = decimal_string(line_hit.line_number as u64);
        append(&mut text, ": ");
        append(&mut text, detab(line_hit.line.as_str(), tab_width).as_str());
        proof {
            reveal_strlit(": ");
        }
        let selected = focused && match selected_line {
            Some(x) => k >= base && k - base == x,
            None => false,
        };
        lines.push(Line { text, style: if selected { Style::Selected } else { Style::Plain } });
        proof {
            let all = file_rows(v@, i as int, tab_width as nat);
            assert(shown_lines(lines@) =~= all.take(path_count + (k + 1 - skipped)));
        }
        k = k + 1;
    }
    let ghost old_lines = lines@;
    lines.push(Line { text: String::new(), style: Style::Plain });
    proof {
        let all = file_rows(v@, i as int, tab_width as nat);
        let blank = (Seq::<char>::empty(), false);
        assert(shown_lines(lines@) =~= shown_lines(old_lines).push(blank));
        assert(all.len() == path_count + (k - skipped) + 1);
        assert(all.last() == blank);
        assert(all =~= all.take(path_count + (k - skipped)).push(blank));
        assert(shown_lines(lines@) =~= all);
    }
    lines
}

/// Return what the hits are shown as at some size, with tabs written as some blanks.
pub fn render(state: &State, size: Size, tab_width: usize) -> (shown: Shown)
    requires
        state.view().wf(),
        forall|i: int|
            0 <= i < state.view().hits.len() ==> starts_with(
                #[trigger] state.view().hits[i].path,
                state.view().dir,
            ),
    ensures
        rendered(state.view(), size, tab_width as nat, shown),
{
    let ghost v = state.view();
    if !state.searched() {
        return Shown::Blank;
    }
    let hits: &Vec<FileHit> = state.hits();
    if hits.len() == 0 {
        if state.is_pending() {
            return Shown::Blank;
        }
        let text = crate::text::string_of("No matches.");
        proof {
            reveal_strlit("No matches.");
        }
        return Shown::Centered(text);
    }
    let dir = state.dir();
    let from = state.file_offset();
    let mut lines: Vec<Line> = Vec::new();
    let mut i: usize = from;
    assert(rows_of_files(v, from as int, from as int, tab_width as nat) =~= Seq::empty());
    while i < hits.len() && lines.len() < size.rows
        invariant
            v == state.view(),
            v.wf(),
            hits_view(hits@) == v.hits,
            dir@ == v.dir,
            from == v.file_offset,
            from <= i <= hits@.len(),
            lines.len() <= size.rows,
            forall|j: int| 0 <= j < v.hits.len() ==> starts_with(#[trigger] v.hits[j].path, v.dir),
            ({
                let done = rows_of_files(v, from as int, i as int, tab_width as nat);
                if lines.len() < size.rows {
                    shown_lines(lines@) == done
                } else {
                    done.len() >= size.rows && shown_lines(lines@) == done.take(size.rows as int)
                }
            }),
        decreases hits.len() - i,
    {
        let hit = &hits[i];
        assert(v.hits[i as int] == FileHitView { path: hit.path@, lines: lines_view(hit.line_hits@) });
        assert(starts_with(v.hits[i as int].path, v.dir));
        let rows = file_lines(Ghost(v), hit, i, dir.as_str(), state, tab_width);
        let ghost before = lines@;
        let mut k: usize = 0;
        while k < rows.len() && lines.len() < size.rows
            invariant
                k <= rows@.len(),
                lines.len() <= size.rows,
                lines@.len() == before.len() + k,
                shown_lines(lines@) == shown_lines(before) + shown_lines(rows@).take(k as int),
            decreases rows.len() - k,
        {
            let row = &rows[k];
            let text = string_of_chars(&chars_of(row.text.as_str()));
            let ghost old_lines = lines@;
            let ghost x = shown_lines(rows@)[k as int];
            lines.push(Line { text, style: row.style });
            assert(shown_lines(lines@) =~= shown_lines(old_lines).push(x));
            assert(shown_lines(rows@).take(k + 1) =~= shown_lines(rows@).take(k as int).push(x));
            assert(shown_lines(lines@) =~= shown_lines(before) + shown_lines(rows@).take(k + 1));
            k = k + 1;
        }
        proof {
            let done = rows_of_files(v, from as int, i as int, tab_width as nat);
            let next = rows_of_files(v, from as int, i + 1, tab_width as nat);
            assert(next == done + file_rows(v, i as int, tab_width as nat));
            if k == rows.len() {
                assert(shown_lines(rows@).take(k as int) =~= shown_lines(rows@));
                assert(shown_lines(lines@) =~= next);
            } else {
                assert(shown_lines(lines@) =~= next.take(size.rows as int));
            }
        }
        i = i + 1;
    }
    proof {
        let all = rows_of_files(v, from as int, v.hits.len() as int, tab_width as nat);
        let done = rows_of_files(v, from as int, i as int, tab_width as nat);
        lemma_rows_grow(v, from as int, i as int, v.hits.len() as int, tab_width as nat);
        if lines.len() < size.rows {
            assert(i == hits.len());
            assert(all.take(all.len() as int) =~= all);
        } else {
            assert(all.take(size.rows as int) =~= done.take(size.rows as int));
        }
    }
    Shown::Lines(lines)
}

} // verus!
