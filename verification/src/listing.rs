//! How the entries of a directory are laid out in the browser: one row each for those which are
//! shown, with their metadata when it is asked for and fits, and the selected one highlighted.

use vstd::prelude::*;

use crate::browser::{ContentsView, State};
use crate::entry::{
    FileInfo, Widths, group, name, name_and_link_target, name_offset, row, spec_group, spec_name,
    spec_name_and_link_target, spec_name_offset, spec_row, spec_user, user,
};
use crate::keys::Size;
use crate::text::{decimal, decimal_string};

verus! {

/// How a row is colored.
#[derive(Clone, Copy, Debug, PartialEq, Eq, Structural)]
pub enum Style {
    /// The selected entry, highlighted.
    Selected,
    /// A hidden entry, grayed out from a column on: only its name is, not its metadata.
    Hidden {
        /// The column the graying starts at.
        from: usize,
    },
    /// Any other entry.
    Plain,
}

/// A row of the listing.
pub struct Line {
    /// What the row says.
    pub text: String,
    /// How it is colored.
    pub style: Style,
}

/// What the entries of a directory are shown as.
pub enum Shown {
    /// Nothing, while the entries are not known.
    Blank,
    /// A message in the middle: why the entries could not be read, or that there are none.
    Centered(String),
    /// A row for each entry shown, from the top.
    Lines(Vec<Line>),
}

/// The larger of two numbers.
pub open spec fn larger(a: nat, b: nat) -> nat {
    if a < b {
        b
    } else {
        a
    }
}

/// The widths the columns of metadata and the names need to show every one of some entries
/// without cutting anything off: the number of hard links, the user, the group, the size and
/// the name. Each column of metadata is at least one wide.
pub open spec fn widest(entries: Seq<FileInfo>) -> (nat, nat, nat, nat, nat)
    decreases entries.len(),
{
    if entries.len() == 0 {
        (1, 1, 1, 1, 0)
    } else {
        let (h, u, g, s, n) = widest(entries.drop_last());
        let entry = entries.last();
        let n2 = larger(n, spec_name_and_link_target(entry).len());
        match entry.metadata {
            Some(m) => (
                larger(h, decimal(m.hard_links as nat).len()),
                larger(u, spec_user(m).len()),
                larger(g, spec_group(m).len()),
                larger(s, decimal(m.size as nat).len()),
                n2,
            ),
            None => (h, u, g, s, n2),
        }
    }
}

/// The widths of the columns of metadata for some entries.
pub open spec fn widths_of(entries: Seq<FileInfo>) -> Widths {
    let (h, u, g, s, n) = widest(entries);
    Widths { hard_links: h as usize, user: u as usize, group: g as usize, size: s as usize }
}

/// The columns which come before the names of some entries shown with their metadata.
pub open spec fn offset_of(entries: Seq<FileInfo>) -> nat {
    let (h, u, g, s, n) = widest(entries);
    spec_name_offset(h, u, g, s)
}

/// Whether some entries are shown with their metadata at some number of columns: when it is
/// asked for, and the whole listing fits without anything being cut off. The columns are sized
/// by all of the entries, not just those shown, so that they do not shift around when
/// scrolling.
pub open spec fn shows_metadata(v: ContentsView, entries: Seq<FileInfo>, columns: usize) -> bool {
    v.metadata && offset_of(entries) + widest(entries).4 <= columns
}

/// How many entries are shown at some size: those from the first shown which the contents have
/// room for, and no more rows than there are.
pub open spec fn shown_count(v: ContentsView, entries: Seq<FileInfo>, size: Size) -> int {
    let end = if v.offset + v.size.rows < entries.len() {
        v.offset + v.size.rows
    } else {
        entries.len() as int
    };
    let visible = if entries.len() == 0 {
        0
    } else {
        end - v.offset
    };
    if visible < size.rows {
        visible
    } else {
        size.rows as int
    }
}

/// What the row for an entry says, given how its mode and time are written.
pub open spec fn line_text(
    v: ContentsView,
    entries: Seq<FileInfo>,
    columns: usize,
    entry: FileInfo,
    mode: Seq<char>,
    time: Seq<char>,
) -> Seq<char> {
    if shows_metadata(v, entries, columns) {
        spec_row(entry, mode, time, widths_of(entries))
    } else {
        spec_name(entry)
    }
}

/// How the row for an entry in some row is colored: the selected one is highlighted, and a
/// hidden one has its name grayed out.
pub open spec fn line_style(
    v: ContentsView,
    entries: Seq<FileInfo>,
    columns: usize,
    entry: FileInfo,
    row: int,
) -> Style {
    let name = spec_name(entry);
    if v.selected == Some(row as usize) {
        Style::Selected
    } else if name.len() > 0 && name[0] == '.' {
        Style::Hidden {
            from: if shows_metadata(v, entries, columns) {
                offset_of(entries) as usize
            } else {
                0
            },
        }
    } else {
        Style::Plain
    }
}

/// What the entries of a directory are shown as at some size, given how the modes and times of
/// those shown are written, in the order they are shown: nothing while the entries are not
/// known, why they could not be read when they could not be, that the directory is empty when
/// no entry is shown, and otherwise a row for each entry shown.
pub open spec fn rendered(
    v: ContentsView,
    size: Size,
    modes: Seq<Seq<char>>,
    times: Seq<Seq<char>>,
    shown: Shown,
) -> bool {
    match v.file_infos {
        None => shown is Blank,
        Some(Err(error)) => shown matches Shown::Centered(text) && text@ == error,
        Some(Ok(entries)) => {
            let count = shown_count(v, entries, size);
            if count == 0 {
                shown matches Shown::Centered(text) && text@ == "The directory is empty."@
            } else {
                shown matches Shown::Lines(lines) && lines@.len() == count && forall|r: int|
                    0 <= r < count ==> {
                        let entry = #[trigger] entries[v.offset + r];
                        &&& lines@[r].text@ == line_text(
                            v,
                            entries,
                            size.columns,
                            entry,
                            modes[r],
                            times[r],
                        )
                        &&& lines@[r].style == line_style(v, entries, size.columns, entry, r)
                    }
            }
        },
    }
}

/// When the whole listing with its metadata does not fit in the columns, each entry shown is
/// shown as its name alone, one row for each entry there is room for.
pub proof fn law_rows_without_room_show_only_names(
    v: ContentsView,
    size: Size,
    modes: Seq<Seq<char>>,
    times: Seq<Seq<char>>,
    shown: Shown,
    entries: Seq<FileInfo>,
)
    requires
        rendered(v, size, modes, times, shown),
        v.file_infos == Some(Ok::<Seq<FileInfo>, Seq<char>>(entries)),
        offset_of(entries) + widest(entries).4 > size.columns,
        shown_count(v, entries, size) > 0,
    ensures
        shown matches Shown::Lines(lines) && lines@.len() == shown_count(v, entries, size) && forall|r: int|
            0 <= r < lines@.len() ==> #[trigger] lines@[r].text@ == spec_name(entries[v.offset + r]),
{
    if let Shown::Lines(lines) = shown {
        assert forall|r: int| 0 <= r < lines@.len() implies #[trigger] lines@[r].text@ == spec_name(
            entries[v.offset + r],
        ) by {
            let entry = entries[v.offset + r];
        }
    }
}

/// The widths of the columns after one more entry.
proof fn lemma_widest_step(entries: Seq<FileInfo>, i: int)
    requires
        0 <= i < entries.len(),
    ensures
        widest(entries.take(i + 1)) == ({
            let (h, u, g, s, n) = widest(entries.take(i));
            let entry = entries[i];
            let n2 = larger(n, spec_name_and_link_target(entry).len());
            match entry.metadata {
                Some(m) => (
                    larger(h, decimal(m.hard_links as nat).len()),
                    larger(u, spec_user(m).len()),
                    larger(g, spec_group(m).len()),
                    larger(s, decimal(m.size as nat).len()),
                    n2,
                ),
                None => (h, u, g, s, n2),
            }
        }),
{
    assert(entries.take(i + 1).drop_last() =~= entries.take(i));
}

/// Return the widths the columns need to show every one of some entries without cutting
/// anything off.
fn widest_of(entries: &Vec<FileInfo>) -> (w: (usize, usize, usize, usize, usize))
    ensures
        w.0 as nat == widest(entries@).0,
        w.1 as nat == widest(entries@).1,
        w.2 as nat == widest(entries@).2,
        w.3 as nat == widest(entries@).3,
        w.4 as nat == widest(entries@).4,
{
    let mut h: usize = 1;
    let mut u: usize = 1;
    let mut g: usize = 1;
    let mut s: usize = 1;
    let mut n: usize = 0;
    let mut i: usize = 0;
    assert(entries@.take(0) =~= Seq::<FileInfo>::empty());
    while i < entries.len()
        invariant
            i <= entries.len(),
            widest(entries@.take(i as int)) == (h as nat, u as nat, g as nat, s as nat, n as nat),
        decreases entries.len() - i,
    {
        proof {
            lemma_widest_step(entries@, i as int);
        }
        let entry = &entries[i];
        let name_width = name_and_link_target(entry).unicode_len();
        if n < name_width {
            n = name_width;
        }
        match &entry.metadata {
            Some(m) => {
                let w = decimal_string(m.hard_links).unicode_len();
                if h < w {
                    h = w;
                }
                let w = user(m).unicode_len();
                if u < w {
                    u = w;
                }
                let w = group(m).unicode_len();
                if g < w {
                    g = w;
                }
                let w = decimal_string(m.size).unicode_len();
                if s < w {
                    s = w;
                }
            },
            None => {},
        }
        i = i + 1;
    }
    assert(entries@.take(entries.len() as int) =~= entries@);
    (h, u, g, s, n)
}

/// Return whether entries shown with their metadata in some widths fit in some number of
/// columns.
fn fits(hard_links: usize, user: usize, group: usize, size: usize, name: usize, columns: usize) -> (b: bool)
    ensures
        b == (spec_name_offset(hard_links as nat, user as nat, group as nat, size as nat) + name
            <= columns),
{
    let total: u128 = (crate::entry::FILE_MODE_WIDTH as u128) + 1 + (hard_links as u128) + 1
        + (user as u128) + 1 + (group as u128) + 1 + (size as u128) + 1
        + (crate::entry::FILE_TIME_WIDTH as u128) + 1 + (name as u128);
    total <= columns as u128
}

/// Return whether a name is that of a hidden entry.
fn is_hidden(name: &str) -> (b: bool)
    ensures
        b == (name@.len() > 0 && name@[0] == '.'),
{
    name.unicode_len() > 0 && name.get_char(0) == '.'
}

/// Return what the entries of a directory are shown as at some size, given how the modes and
/// times of those shown are written, in the order they are shown.
pub fn render(state: &State, size: Size, modes: &Vec<String>, times: &Vec<String>) -> (shown: Shown)
    requires
        state.view().wf(),
        state.view().entry_ok(),
        state.view().entries() matches Some(entries) ==> modes@.len() >= shown_count(
            state.view(),
            entries,
            size,
        ) && times@.len() >= shown_count(state.view(), entries, size),
    ensures
        rendered(
            state.view(),
            size,
            modes@.map_values(|m: String| m@),
            times@.map_values(|t: String| t@),
            shown,
        ),
{
    let ghost v = state.view();
    let entries: &Vec<FileInfo> = match state.file_infos() {
        None => {
            return Shown::Blank;
        },
        Some(Err(error)) => {
            return Shown::Centered(error.clone());
        },
        Some(Ok(entries)) => entries,
    };
    let (start, end) = match state.visible_range() {
        Some(range) => range,
        None => {
            return Shown::Blank;
        },
    };
    let count: usize = if end - start < size.rows {
        end - start
    } else {
        size.rows
    };
    if count == 0 {
        let text = String::from_str("The directory is empty.");
        proof {
            reveal_strlit("The directory is empty.");
        }
        return Shown::Centered(text);
    }
    let (h, u, g, s, n) = widest_of(entries);
    let show = state.metadata() && fits(h, u, g, s, n, size.columns);
    let widths = Widths { hard_links: h, user: u, group: g, size: s };
    let from: usize = if show {
        name_offset(h, u, g, s)
    } else {
        0
    };
    let ghost modes_view = modes@.map_values(|m: String| m@);
    let ghost times_view = times@.map_values(|t: String| t@);
    let mut lines: Vec<Line> = Vec::new();
    let mut r: usize = 0;
    while r < count
        invariant
            v == state.view(),
            v.entries() == Some(entries@),
            start == v.offset,
            start + count <= entries.len(),
            r <= count,
            count <= modes@.len(),
            count <= times@.len(),
            count == shown_count(v, entries@, size),
            widths == widths_of(entries@),
            show == shows_metadata(v, entries@, size.columns),
            show ==> from == offset_of(entries@),
            !show ==> from == 0,
            modes_view == modes@.map_values(|m: String| m@),
            times_view == times@.map_values(|t: String| t@),
            lines@.len() == r,
            forall|k: int|
                0 <= k < r ==> {
                    let entry = #[trigger] entries@[v.offset + k];
                    &&& lines@[k].text@ == line_text(
                        v,
                        entries@,
                        size.columns,
                        entry,
                        modes_view[k],
                        times_view[k],
                    )
                    &&& lines@[k].style == line_style(v, entries@, size.columns, entry, k)
                },
        decreases count - r,
    {
        let entry = &entries[start + r];
        let entry_name = name(entry);
        let hidden = is_hidden(entry_name.as_str());
        let text = if show {
            row(entry, modes[r].as_str(), times[r].as_str(), widths)
        } else {
            entry_name
        };
        let style = if state.selected() == Some(r) {
            Style::Selected
        } else if hidden {
            Style::Hidden { from }
        } else {
            Style::Plain
        };
        lines.push(Line { text, style });
        r = r + 1;
    }
    Shown::Lines(lines)
}

} // verus!
