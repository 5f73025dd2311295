//! How the files a finder found are laid out: one row for each file shown, its path under the
//! directory looked in, with the directories on the way grayed and the selected file
//! highlighted while the list is looked at.

use vstd::prelude::*;

use crate::finder_contents::{ContentsView, State, paths_of};
use crate::hit_listing::relative;
use crate::keys::Size;
use crate::paths::{file_name, path_file_name};
use crate::text::{chars_of, has_prefix, slice, starts_with, string_of_chars};

verus! {

/// A row for a file which was found.
pub struct Found {
    /// Its path under the directory looked in.
    pub text: String,
    /// Where its name starts in the path, counting characters: what comes before is the
    /// directories on the way, which are grayed.
    pub name_from: usize,
    /// Whether it is the selected file, highlighted.
    pub selected: bool,
}

/// What the files found are shown as.
pub enum FoundShown {
    /// Nothing, while no file is known to be found yet.
    Blank,
    /// A message in the middle, that no file matched.
    Centered(String),
    /// A row for each file shown, from the top.
    Paths(Vec<Found>),
}

/// How many files are shown at some size: those from the first shown which the list has room
/// for, and no more than there are rows.
pub open spec fn found_count(v: ContentsView, size: Size) -> int {
    let end = if v.offset + v.size.rows < v.entries.len() {
        v.offset + v.size.rows
    } else {
        v.entries.len() as int
    };
    let visible = if v.entries.len() == 0 {
        0
    } else {
        end - v.offset
    };
    if visible < size.rows {
        visible
    } else {
        size.rows as int
    }
}

/// Whether a file can be shown: its path is under the directory looked in, and it has a name.
pub open spec fn showable(path: Seq<char>, dir: Seq<char>) -> bool {
    starts_with(path, dir) && path_file_name(path) is Some
}

/// Where the name of a file starts in its path under the directory looked in.
pub open spec fn name_start(path: Seq<char>, dir: Seq<char>) -> int {
    let shown = relative(path, dir);
    let name = path_file_name(path).unwrap();
    if shown.len() >= name.len() {
        shown.len() - name.len()
    } else {
        0
    }
}

/// What the files found are shown as at some size, when every file shown can be: nothing
/// while no file is known to be found, that none matched once that is known, and otherwise a
/// row for each file shown.
pub open spec fn rendered(v: ContentsView, size: Size, shown: FoundShown) -> bool {
    match v.hits {
        None => shown is Blank,
        Some(false) => shown matches FoundShown::Centered(text) && text@ == "No matching files."@,
        Some(true) => shown matches FoundShown::Paths(rows) && rows@.len() == found_count(v, size)
            && forall|r: int|
            0 <= r < rows@.len() ==> {
                let path = #[trigger] v.entries[v.offset + r];
                &&& rows@[r].text@ == relative(path, v.dir)
                &&& rows@[r].name_from == name_start(path, v.dir)
                &&& rows@[r].selected == (v.focussed && v.selected == Some(r as usize))
            },
    }
}

/// Whether every file shown at some size can be shown.
pub open spec fn all_showable(v: ContentsView, size: Size) -> bool {
    v.hits == Some(true) ==> forall|r: int|
        0 <= r < found_count(v, size) ==> showable(#[trigger] v.entries[v.offset + r], v.dir)
}

/// Return what the files found are shown as at some size, or nothing when a file which would be
/// shown is not under the directory looked in or has no name.
pub fn render(state: &State, size: Size) -> (shown: Option<FoundShown>)
    requires
        state.view().wf(),
    ensures
        match shown {
            Some(shown) => all_showable(state.view(), size) && rendered(state.view(), size, shown),
            None => !all_showable(state.view(), size),
        },
{
    let ghost v = state.view();
    match state.hits() {
        None => {
            return Some(FoundShown::Blank);
        },
        Some(false) => {
            let text = crate::text::string_of("No matching files.");
            proof {
                reveal_strlit("No matching files.");
            }
            return Some(FoundShown::Centered(text));
        },
        Some(true) => {},
    }
    let entries = state.entries();
    let dir = state.dir();
    let (start, end) = state.visible_range();
    let count: usize = if end - start < size.rows {
        end - start
    } else {
        size.rows
    };
    let selected = state.selected();
    let focussed = state.focussed();
    let mut rows: Vec<Found> = Vec::new();
    let mut r: usize = 0;
    while r < count
        invariant
            v == state.view(),
            v.wf(),
            v.hits == Some(true),
            paths_of(entries@) == v.entries,
            dir@ == v.dir,
            start == (if v.entries.len() == 0 { 0 } else { v.offset as int }),
            count == found_count(v, size),
            start + count <= entries.len(),
            selected == v.selected,
            focussed == v.focussed,
            r <= count,
            rows@.len() == r,
            forall|k: int|
                0 <= k < r ==> {
                    let path = #[trigger] v.entries[v.offset + k];
                    &&& showable(path, v.dir)
                    &&& rows@[k].text@ == relative(path, v.dir)
                    &&& rows@[k].name_from == name_start(path, v.dir)
                    &&& rows@[k].selected == (v.focussed && v.selected == Some(k as usize))
                },
        decreases count - r,
    {
        let path = &entries[start + r];
        assert(v.entries[v.offset + r] == path@);
        if !has_prefix(path.as_str(), dir.as_str()) {
            return None;
        }
        let name = match file_name(path.as_str()) {
            Some(name) => name,
            None => {
                return None;
            },
        };
        let chars = chars_of(path.as_str());
        let n = dir.unicode_len();
        let from: usize = if n < chars.len() && chars[n] == '/' {
            n + 1
        } else {
            n
        };
        let rest = slice(&chars, from, chars.len());
        assert(rest@ =~= relative(path@, dir@));
        let name_length = name.unicode_len();
        let name_from: usize = if rest.len() >= name_length {
            rest.len() - name_length
        } else {
            0
        };
        rows.push(
            Found {
                text: string_of_chars(&rest),
                name_from,
                selected: focussed && selected == Some(r),
            },
        );
        r = r + 1;
    }
    assert(r == count);
    assert(rows@.len() == found_count(v, size));
    proof {
        assert forall|k: int| 0 <= k < found_count(v, size) implies showable(
            #[trigger] v.entries[v.offset + k],
            v.dir,
        ) by {
            let path = v.entries[v.offset + k];
            assert(showable(path, v.dir));
        }
    }
    let shown = FoundShown::Paths(rows);
    assert(rendered(v, size, shown));
    Some(shown)
}

} // verus!
