//! The hits of a search for a phrase: the files which contain it, each with the lines it is in,
//! which file or line is selected, and how far down the list is scrolled.
//!
//! The list is shown as a run of rows: for each file its path, then each of its lines, then a
//! blank row. The first file shown may have its path, and some of its lines, scrolled past.

use vstd::prelude::*;

use crate::args::VimArgs;
use crate::command_message::{CommandMessage, MessageView};
use crate::finder_contents::{message_view, ran, seconds_text, seconds_string};
use crate::ids::is_random_uuid;
use crate::input::{is_white_space, lemma_leading, leading_white_space, white_space};
use crate::commands::{CommandParser, KeyPattern, Parsed, first_spelled, keys_string, keys_text};
use crate::finder_contents::{anyhow, exactly};
use crate::footer::Info;
use crate::keys::{Key, KeyEvent, KeyMods, Size, TermEvent, control_mods, no_mods, shift_mods};
use crate::paths::{file_name, parent, path_file_name, path_parent};
use crate::requests::{Request, RequestParams, Response, ResponseParams, get_file_contents_request, search_phrase_request};
use crate::text::{chars_of, decimal, decimal_string, push_char, string_of, string_of_chars};

verus! {

/// A line which contains the phrase.
#[derive(Debug, Clone, PartialEq, Eq)]
pub struct LineHit {
    /// The number of the line in its file.
    pub line_number: usize,
    /// The line.
    pub line: String,
}

/// A file which contains the phrase, and the lines of it which do.
#[derive(Debug, Clone, PartialEq, Eq)]
pub struct FileHit {
    /// The path of the file.
    pub path: String,
    /// The lines which contain the phrase, in order.
    pub line_hits: Vec<LineHit>,
}

/// What a line hit is seen as.
pub struct LineHitView {
    /// The number of the line in its file.
    pub line_number: usize,
    /// The line.
    pub line: Seq<char>,
}

/// What a file hit is seen as.
pub struct FileHitView {
    /// The path of the file.
    pub path: Seq<char>,
    /// The lines which contain the phrase.
    pub lines: Seq<LineHitView>,
}

/// What some line hits are seen as.
pub open spec fn lines_view(lines: Seq<LineHit>) -> Seq<LineHitView> {
    lines.map_values(|l: LineHit| LineHitView { line_number: l.line_number, line: l.line@ })
}

/// What some file hits are seen as.
pub open spec fn hits_view(hits: Seq<FileHit>) -> Seq<FileHitView> {
    hits.map_values(|h: FileHit| FileHitView { path: h.path@, lines: lines_view(h.line_hits@) })
}

/// The number of rows some files take up from the `from`th on: each shows its path, its lines
/// and a blank row.
pub open spec fn rows_from(hits: Seq<FileHitView>, from: int) -> int
    decreases hits.len() - from,
{
    if from >= hits.len() || from < 0 {
        0
    } else {
        hits[from].lines.len() + 2 + rows_from(hits, from + 1)
    }
}

/// The number of rows the files from the `from`th up to the `to`th (not included) take up.
pub open spec fn rows_between(hits: Seq<FileHitView>, from: int, to: int) -> int
    decreases to - from,
{
    if from >= to {
        0
    } else {
        rows_between(hits, from, to - 1) + hits[to - 1].lines.len() + 2
    }
}

/// The number of lines of the files up to the `to`th (not included).
pub open spec fn lines_before(hits: Seq<FileHitView>, to: int) -> int
    decreases to,
{
    if to <= 0 {
        0
    } else {
        lines_before(hits, to - 1) + hits[to - 1].lines.len()
    }
}

/// What the hits are seen as.
pub struct ContentsView {
    /// The size they are shown at.
    pub size: Size,
    /// The directory which was searched.
    pub dir: Seq<char>,
    /// The phrase last searched for, if any.
    pub phrase: Option<Seq<char>>,
    /// Whether the list is being looked at.
    pub focussed: bool,
    /// Whether a search was started.
    pub searched: bool,
    /// The files which contain the phrase, in the order they came.
    pub hits: Seq<FileHitView>,
    /// How many files are scrolled past.
    pub file_offset: usize,
    /// Whether the path of the first file shown is scrolled past, and if so how many of its
    /// lines are too.
    pub line_offset: Option<usize>,
    /// The selected file, counted from the first one shown.
    pub file_selected: usize,
    /// The selected line of the selected file, or nothing when its path is selected. For the
    /// first file shown it is counted from the first of its lines which is shown.
    pub line_selected: Option<usize>,
    /// The request for the hits which is on its way, if any.
    pub pending: Option<u128>,
    /// The request for the contents of a file to copy, if any.
    pub pending_yank: Option<u128>,
    /// What the last command had to say for itself, if anything.
    pub message: Option<MessageView>,
    /// How many files have been searched.
    pub files_searched: usize,
    /// How long the search has taken, in nanoseconds.
    pub duration: u128,
}

impl ContentsView {
    /// The number of lines of the `i`th file.
    pub open spec fn count(self, i: int) -> int {
        self.hits[i].lines.len() as int
    }

    /// What the hits keep to: every file has a line, the whole list fits in a count of rows,
    /// nothing is scrolled or selected past the files, and the lines scrolled past are lines of
    /// the first file shown.
    pub open spec fn wf(self) -> bool {
        &&& forall|i: int| 0 <= i < self.hits.len() ==> #[trigger] self.hits[i].lines.len() >= 1
        &&& rows_from(self.hits, 0) <= usize::MAX
        &&& self.hits.len() == 0 ==> self.file_offset == 0 && self.file_selected == 0 && match self.line_offset {
            Some(l) => l == 0,
            None => true,
        }
        &&& self.hits.len() > 0 ==> self.file_offset + self.file_selected < self.hits.len()
        &&& self.hits.len() > 0 ==> match self.line_offset {
            Some(l) => l <= self.count(self.file_offset as int),
            None => true,
        }
    }

    /// The index of the selected file among all of them, if it is one of them.
    pub open spec fn hit_number(self) -> Option<int> {
        if self.file_offset + self.file_selected < self.hits.len() {
            Some(self.file_offset + self.file_selected)
        } else {
            None
        }
    }

    /// The index of the selected line among the lines of its file, if a line is selected.
    pub open spec fn line_hit_number(self) -> Option<int> {
        match self.line_selected {
            Some(x) => if self.file_selected == 0 {
                match self.line_offset {
                    Some(l) => Some(l + x),
                    None => Some(x as int),
                }
            } else {
                Some(x as int)
            },
            None => None,
        }
    }

    /// The row the selection is on, counted from the top row shown.
    pub open spec fn selected_row_number(self) -> int {
        if self.file_selected == 0 {
            match self.line_selected {
                None => 0,
                Some(x) => match self.line_offset {
                    None => x + 1,
                    Some(_) => x as int,
                },
            }
        } else {
            (self.count(self.file_offset as int) + 1 - match self.line_offset {
                None => 0,
                Some(l) => l + 1,
            }) + rows_between(
                self.hits,
                self.file_offset + 1,
                self.file_offset + self.file_selected,
            ) + match self.line_selected {
                None => 1,
                Some(x) => x + 2,
            }
        }
    }

    /// The hits as they are once a command has run, which clears what the last one said.
    pub open spec fn cleared(self) -> ContentsView {
        ContentsView { message: None, ..self }
    }
}

/// The list scrolled down by a row: the path of the first file is scrolled past, then its lines
/// one at a time (a selected line of it moving along so that it stays in view), then its blank
/// row, which brings the next file to the top. The last file is never scrolled past.
pub open spec fn scrolled_down_once(v: ContentsView) -> ContentsView {
    match v.line_offset {
        None => ContentsView { line_offset: Some(0), ..v },
        Some(l) => if l < v.count(v.file_offset as int) {
            ContentsView {
                line_offset: Some((l + 1) as usize),
                line_selected: if v.file_selected == 0 {
                    match v.line_selected {
                        Some(x) => Some(if x > 0 { (x - 1) as usize } else { 0 }),
                        None => None,
                    }
                } else {
                    v.line_selected
                },
                ..v
            }
        } else if v.file_offset + 1 < v.hits.len() {
            ContentsView {
                file_offset: (v.file_offset + 1) as usize,
                file_selected: if v.file_selected > 0 { (v.file_selected - 1) as usize } else { 0 },
                line_offset: None,
                ..v
            }
        } else {
            v
        },
    }
}

/// Whether the list can be scrolled down by a row: the lines of the first file are only read
/// when there is one.
pub open spec fn can_scroll_down_once(v: ContentsView) -> bool {
    v.line_offset is Some ==> v.hits.len() > 0
}

/// The list scrolled down by some rows, one at a time.
pub open spec fn scrolled_down(v: ContentsView, rows: nat) -> ContentsView
    decreases rows,
{
    if rows == 0 {
        v
    } else {
        scrolled_down(scrolled_down_once(v), (rows - 1) as nat)
    }
}

/// Whether the list can be scrolled down by some rows.
pub open spec fn can_scroll_down(v: ContentsView, rows: nat) -> bool
    decreases rows,
{
    rows == 0 || (can_scroll_down_once(v) && can_scroll_down(scrolled_down_once(v), (rows - 1) as nat))
}

/// The list scrolled up by some rows: back through the lines of the first file shown, then its
/// path, then the files before it, whose path stays scrolled past as the blank row of each comes
/// into view. A selected line of the first file is moved along with it; the first file is
/// never scrolled above.
pub open spec fn scrolled_up(v: ContentsView, rows: nat) -> ContentsView
    decreases rows,
{
    if rows == 0 {
        v
    } else {
        match v.line_offset {
            Some(l) => if rows <= l {
                ContentsView {
                    line_offset: Some((l - rows) as usize),
                    line_selected: if v.file_selected == 0 {
                        match v.line_selected {
                            Some(x) => Some((x + rows) as usize),
                            None => None,
                        }
                    } else {
                        v.line_selected
                    },
                    ..v
                }
            } else if rows == l + 1 {
                ContentsView {
                    line_offset: None,
                    line_selected: if v.file_selected == 0 {
                        match v.line_selected {
                            Some(x) => Some((x + rows + 1) as usize),
                            None => None,
                        }
                    } else {
                        v.line_selected
                    },
                    ..v
                }
            } else if v.file_offset == 0 {
                v
            } else {
                let w = ContentsView {
                    line_selected: if v.file_selected == 0 {
                        match v.line_selected {
                            Some(x) => Some((x + l) as usize),
                            None => None,
                        }
                    } else {
                        v.line_selected
                    },
                    file_offset: (v.file_offset - 1) as usize,
                    line_offset: Some(v.count(v.file_offset - 1) as usize),
                    ..v
                };
                scrolled_up(w, (rows - (l + 1)) as nat)
            },
            None => if v.file_offset == 0 {
                v
            } else {
                let w = ContentsView {
                    file_offset: (v.file_offset - 1) as usize,
                    file_selected: (v.file_selected + 1) as usize,
                    line_offset: Some(v.count(v.file_offset - 1) as usize),
                    ..v
                };
                scrolled_up(w, (rows - 1) as nat)
            },
        }
    }
}

/// Whether the list can be scrolled up by some rows: the selected line is only moved along as
/// far as a count of lines goes.
pub open spec fn can_scroll_up(v: ContentsView, rows: nat) -> bool
    decreases rows,
{
    if rows == 0 {
        true
    } else {
        let x: int = match v.line_selected {
            Some(x) => if v.file_selected == 0 { x as int } else { 0 },
            None => 0,
        };
        match v.line_offset {
            Some(l) => if rows <= l {
                x + rows <= usize::MAX
            } else if rows == l + 1 {
                x + rows + 1 <= usize::MAX
            } else if v.file_offset == 0 {
                true
            } else {
                x + l <= usize::MAX && can_scroll_up(
                    ContentsView {
                        line_selected: if v.file_selected == 0 {
                            match v.line_selected {
                                Some(x) => Some((x + l) as usize),
                                None => None,
                            }
                        } else {
                            v.line_selected
                        },
                        file_offset: (v.file_offset - 1) as usize,
                        line_offset: Some(v.count(v.file_offset - 1) as usize),
                        ..v
                    },
                    (rows - (l + 1)) as nat,
                )
            },
            None => v.file_offset == 0 || can_scroll_up(
                ContentsView {
                    file_offset: (v.file_offset - 1) as usize,
                    file_selected: (v.file_selected + 1) as usize,
                    line_offset: Some(v.count(v.file_offset - 1) as usize),
                    ..v
                },
                (rows - 1) as nat,
            ),
        }
    }
}

/// The selection moved down: from the path of a file to its first line, from a line to the
/// next, and from the last line of a file to the path of the next file. Nothing moves past the
/// last line of the last file.
pub open spec fn moved_down(v: ContentsView) -> ContentsView {
    match v.line_selected {
        None => ContentsView { line_selected: Some(0), ..v },
        Some(x) => if v.line_hit_number().unwrap() < v.count(v.hit_number().unwrap()) - 1 {
            ContentsView { line_selected: Some((x + 1) as usize), ..v }
        } else if v.hit_number().unwrap() < v.hits.len() - 1 {
            ContentsView { line_selected: None, file_selected: (v.file_selected + 1) as usize, ..v }
        } else {
            v
        },
    }
}

/// How many rows the list has to scroll down by for the selection to be on it.
pub open spec fn down_adjustment(v: ContentsView) -> nat {
    if v.selected_row_number() + 1 > v.size.rows {
        (v.selected_row_number() + 1 - v.size.rows) as nat
    } else {
        0
    }
}

/// The selection moved down, and the list scrolled as far as it takes to show it.
pub open spec fn down(v: ContentsView) -> ContentsView {
    let m = moved_down(v);
    scrolled_down(m, down_adjustment(m))
}

/// Whether the selection can be moved down: a selected line is one of a file's, and the row it
/// ends up on is a count of rows.
pub open spec fn can_down(v: ContentsView) -> bool {
    &&& v.line_selected is Some ==> v.hits.len() > 0 && v.line_hit_number().unwrap() <= usize::MAX
    &&& moved_down(v).selected_row_number() + 1 <= usize::MAX
    &&& can_scroll_down(moved_down(v), down_adjustment(moved_down(v)))
}

/// The list scrolled up by one row, some number of times.
pub open spec fn scrolled_up_each(v: ContentsView, times: nat) -> ContentsView
    decreases times,
{
    if times == 0 {
        v
    } else {
        scrolled_up_each(scrolled_up(v, 1), (times - 1) as nat)
    }
}

/// Whether the list can be scrolled up by one row, some number of times.
pub open spec fn can_scroll_up_each(v: ContentsView, times: nat) -> bool
    decreases times,
{
    times == 0 || (can_scroll_up(v, 1) && can_scroll_up_each(scrolled_up(v, 1), (times - 1) as nat))
}

/// The path of the last file selected, at the top; the list is then scrolled up a row at a time
/// for as many rows as the last file leaves empty below it.
pub open spec fn really_down(v: ContentsView) -> ContentsView {
    if v.hits.len() == 0 {
        v
    } else {
        let last = v.hits.len() - 1;
        let m = ContentsView {
            file_offset: last as usize,
            line_offset: None,
            file_selected: 0,
            line_selected: None,
            ..v
        };
        let room = v.count(last) + 1;
        scrolled_up_each(m, if v.size.rows > room { (v.size.rows - room) as nat } else { 0 })
    }
}

/// Whether the last file can be selected.
pub open spec fn can_really_down(v: ContentsView) -> bool {
    v.hits.len() > 0 ==> {
        let last = v.hits.len() - 1;
        let m = ContentsView {
            file_offset: last as usize,
            line_offset: None,
            file_selected: 0,
            line_selected: None,
            ..v
        };
        let room = v.count(last) + 1;
        can_scroll_up_each(m, if v.size.rows > room { (v.size.rows - room) as nat } else { 0 })
    }
}

/// The selection moved up: from a line to the one before, from the first line of a file to its
/// path, and from the path of a file to the last line of the file before, scrolling the list up
/// when that is above the top.
pub open spec fn up(v: ContentsView) -> ContentsView {
    match v.line_selected {
        None => if v.file_selected == 0 {
            if v.file_offset > 0 {
                ContentsView {
                    file_offset: (v.file_offset - 1) as usize,
                    line_offset: Some((v.count(v.file_offset - 1) - 1) as usize),
                    line_selected: Some(0),
                    ..v
                }
            } else {
                v
            }
        } else if v.file_selected == 1 {
            let n = v.count(v.file_offset as int);
            match v.line_offset {
                None => ContentsView { file_selected: 0, line_selected: Some((n - 1) as usize), ..v },
                Some(l) => if l == n {
                    ContentsView {
                        file_selected: 0,
                        line_offset: Some((l - 1) as usize),
                        line_selected: Some(0),
                        ..v
                    }
                } else {
                    ContentsView { file_selected: 0, line_selected: Some((n - 1 - l) as usize), ..v }
                },
            }
        } else {
            ContentsView {
                file_selected: (v.file_selected - 1) as usize,
                line_selected: Some((v.count(v.file_offset + v.file_selected - 1) - 1) as usize),
                ..v
            }
        },
        Some(x) => if x == 0 {
            if v.file_selected == 0 {
                match v.line_offset {
                    Some(l) if l > 0 => ContentsView { line_offset: Some((l - 1) as usize), ..v },
                    _ => ContentsView { line_offset: None, line_selected: None, ..v },
                }
            } else {
                ContentsView { line_selected: None, ..v }
            }
        } else {
            ContentsView { line_selected: Some((x - 1) as usize), ..v }
        },
    }
}

/// The path of the first file selected, with nothing scrolled past.
pub open spec fn really_up(v: ContentsView) -> ContentsView {
    if v.hits.len() == 0 {
        v
    } else {
        ContentsView { file_offset: 0, line_offset: None, file_selected: 0, line_selected: None, ..v }
    }
}

/// The list resized: the size is taken, and the list is scrolled so that the selection moves
/// from the row it was on to the row it was scaled to.
pub open spec fn resized(v: ContentsView, size: Size, scaled: usize) -> ContentsView {
    let row = v.selected_row_number();
    let w = ContentsView { size, ..v };
    if scaled < row {
        scrolled_down(w, (row - scaled) as nat)
    } else if scaled > row {
        scrolled_up(w, (scaled - row) as nat)
    } else {
        w
    }
}

/// Whether the list can be resized.
pub open spec fn can_resize(v: ContentsView, size: Size, scaled: usize) -> bool {
    let row = v.selected_row_number();
    let w = ContentsView { size, ..v };
    &&& row <= usize::MAX
    &&& scaled < row ==> can_scroll_down(w, (row - scaled) as nat)
    &&& scaled > row ==> can_scroll_up(w, (scaled - row) as nat)
}

/// The properties of the hits.
pub struct Props {
    /// The directory searched.
    pub dir: String,
    /// The size they are shown at.
    pub size: Size,
    /// The phrase searched for, if any.
    pub phrase: Option<String>,
    /// The request for the hits which is already on its way, if there is one.
    pub pending_request: Option<u128>,
}

/// An action on the hits.
pub enum Action {
    /// The list was resized, with the row the selection is scaled to, which is worked out by
    /// whoever resizes it.
    Resize {
        /// The new size.
        size: Size,
        /// The row the selection is scaled to.
        scaled: usize,
    },
    /// Go back to the phrase.
    Unfocus,
    /// Search for a phrase.
    Search {
        /// The phrase.
        phrase: String,
    },
    /// Move the selection down.
    Down,
    /// Select the last file.
    ReallyDown,
    /// Scroll down a row.
    ScrollDown,
    /// Move the selection up.
    Up,
    /// Select the first file.
    ReallyUp,
    /// Scroll up a row.
    ScrollUp,
    /// Search again.
    Refresh,
    /// Edit the selected file, at the selected line if there is one.
    Edit,
    /// Browse the directory of the selected file.
    Goto,
    /// Browse the directory of the selected file with the file selected.
    ReallyGoto,
    /// Copy the word under the selection: the first word of the selected line, or the name of
    /// the selected file.
    YankWord,
    /// Copy the selected line, or the path of the selected file.
    YankLine,
    /// Ask for the contents of the selected file, to copy them.
    YankContents,
    /// Take note that the keys pressed are not a command.
    UnknownCommand {
        /// How the keys are written.
        keys: String,
    },
    /// Handle a response from the daemon.
    HandleResponse(Response),
}

/// An effect of the hits.
pub enum Effect {
    /// Go back to the phrase.
    Unfocus,
    /// Browse a directory.
    Goto {
        /// The directory.
        dir: String,
        /// The file to select in it, if any.
        file: Option<String>,
    },
    /// Edit a file.
    OpenVim(VimArgs),
    /// Ring the bell.
    Bell,
    /// Make a request.
    Request(Request),
    /// Copy some text to the clipboard.
    Copy {
        /// The text.
        contents: String,
    },
}

/// Whether an effect copies some text.
pub open spec fn copies(r: Option<Effect>, contents: Seq<char>) -> bool {
    r matches Some(Effect::Copy { contents: c }) && c@ == contents
}

/// How many characters the first word of some text (with no white space before it) has.
pub open spec fn word_length(s: Seq<char>) -> nat
    decreases s.len(),
{
    if s.len() > 0 && !is_white_space(s[0]) {
        1 + word_length(s.drop_first())
    } else {
        0
    }
}

/// The first word of some text, as `str::split_whitespace` gives it first, if it has one.
pub open spec fn first_word(s: Seq<char>) -> Option<Seq<char>> {
    let rest = s.skip(leading_white_space(s) as int);
    if rest.len() == 0 {
        None
    } else {
        Some(rest.take(word_length(rest) as int))
    }
}

/// The selected file, if there is one.
pub open spec fn hit_of(v: ContentsView) -> Option<FileHitView> {
    match v.hit_number() {
        Some(h) => Some(v.hits[h]),
        None => None,
    }
}

/// The selected line, if a file and a line of it are selected.
pub open spec fn line_of(v: ContentsView) -> Option<LineHitView> {
    match (v.hit_number(), v.line_hit_number()) {
        (Some(h), Some(k)) => Some(v.hits[h].lines[k]),
        _ => None,
    }
}

/// Whether a request asks to search the files under a directory for a phrase.
pub open spec fn searches(request: Request, dir: Seq<char>, phrase: Seq<char>) -> bool {
    &&& request.params matches RequestParams::SearchPhrase { dir: d, phrase: p } && d@ == dir && p@
        == phrase
    &&& is_random_uuid(request.uuid)
}

/// What starting to search for a phrase does to the hits: the last search's hits are cleared
/// at once, rather than left showing until the first response of the new one comes.
pub open spec fn searched_for(before: ContentsView, after: ContentsView, phrase: Seq<char>, r: Option<Effect>) -> bool {
    r matches Some(Effect::Request(request)) && searches(request, before.dir, phrase) && after
        == ContentsView {
        focussed: true,
        phrase: Some(phrase),
        searched: true,
        hits: Seq::empty(),
        file_offset: 0,
        line_offset: None,
        file_selected: 0,
        line_selected: None,
        files_searched: 0,
        duration: 0,
        pending: Some(request.uuid),
        ..before
    }
}

/// Browsing the directory of the selected file, with the file selected or not.
pub open spec fn goes_to(v: ContentsView, really: bool, r: Option<Effect>) -> bool {
    match hit_of(v) {
        Some(hit) => match path_parent(hit.path) {
            Some(dir) => r matches Some(Effect::Goto { dir: d, file }) && d@ == dir && match file {
                Some(f) => really && f@ == hit.path,
                None => !really,
            },
            None => r is None,
        },
        None => r is None,
    }
}

/// Whether a selected line, if there is one, is a line of the selected file.
pub open spec fn line_ok(v: ContentsView) -> bool {
    match (v.hit_number(), v.line_hit_number()) {
        (Some(h), Some(k)) => k < v.count(h),
        _ => true,
    }
}

/// Whether some hits which came in keep the list to what it keeps to: each file has a line,
/// and all of the rows are a count of rows.
pub open spec fn fits(v: ContentsView, hits: Seq<FileHitView>) -> bool {
    &&& forall|i: int| 0 <= i < hits.len() ==> #[trigger] hits[i].lines.len() >= 1
    &&& rows_from(v.hits + hits, 0) <= usize::MAX
}

/// Whether an action can be performed on the hits.
pub open spec fn can_perform(v: ContentsView, action: Action) -> bool {
    match action {
        Action::Resize { size, scaled } => can_resize(v, size, scaled),
        Action::Down => can_down(v),
        Action::ReallyDown => can_really_down(v),
        Action::ScrollDown => can_scroll_down(v, 1),
        Action::ScrollUp => can_scroll_up(v, 1),
        Action::Edit => v.hit_number() is Some && line_ok(v) && (v.line_hit_number() matches Some(
            k,
        ) ==> k <= usize::MAX),
        Action::YankWord | Action::YankLine => line_ok(v) && (v.line_hit_number() matches Some(k)
            ==> k <= usize::MAX),
        Action::HandleResponse(response) => match response.params {
            ResponseParams::SearchPhrase { hits, .. } => v.pending == Some(response.uuid)
                && v.pending_yank != Some(response.uuid) ==> fits(v, hits_view(hits@)),
            _ => true,
        },
        _ => true,
    }
}

/// What performing an action does to the hits, and what it gives back.
pub open spec fn performed(before: ContentsView, after: ContentsView, action: Action, r: Option<Effect>) -> bool {
    let w = before.cleared();
    match action {
        Action::Resize { size, scaled } => r is None && after == resized(before, size, scaled).cleared(),
        Action::Unfocus => r == Some(Effect::Unfocus) && after == ContentsView { focussed: false, ..w },
        Action::Search { phrase } => searched_for(w, after, phrase@, r),
        Action::Down => r is None && after == down(before).cleared(),
        Action::ReallyDown => r is None && after == really_down(before).cleared(),
        Action::ScrollDown => r is None && after == scrolled_down(before, 1).cleared(),
        Action::Up => r is None && after == up(before).cleared(),
        Action::ReallyUp => r is None && after == really_up(before).cleared(),
        Action::ScrollUp => r is None && after == scrolled_up(before, 1).cleared(),
        Action::Refresh => match w.phrase {
            Some(phrase) => searched_for(w, after, phrase, r),
            None => r is None && after == w,
        },
        Action::Edit => {
            &&& after == w
            &&& r matches Some(Effect::OpenVim(args)) && args.path matches Some(p) && p@ == hit_of(
                w,
            ).unwrap().path && args.column is None && args.line == match line_of(w) {
                Some(line) => Some(line.line_number),
                None => None,
            }
        },
        Action::Goto => after == w && goes_to(w, false, r),
        Action::ReallyGoto => after == w && goes_to(w, true, r),
        Action::YankWord => match hit_of(w) {
            Some(hit) => match line_of(w) {
                Some(line) => match first_word(line.line) {
                    Some(word) => copies(r, word) && after == ContentsView {
                        message: ran("yanked word"@),
                        ..w
                    },
                    None => r is None && after == w,
                },
                None => match path_file_name(hit.path) {
                    Some(name) => copies(r, name) && after == ContentsView {
                        message: ran("yanked file name"@),
                        ..w
                    },
                    None => r is None && after == w,
                },
            },
            None => r is None && after == w,
        },
        Action::YankLine => match hit_of(w) {
            Some(hit) => match line_of(w) {
                Some(line) => copies(r, line.line) && after == ContentsView {
                    message: ran("yanked line"@),
                    ..w
                },
                None => copies(r, hit.path) && after == ContentsView {
                    message: ran("yanked path"@),
                    ..w
                },
            },
            None => r is None && after == w,
        },
        Action::YankContents => match hit_of(w) {
            Some(hit) => r matches Some(Effect::Request(request)) && request.params
                matches RequestParams::GetFileContents { path } && path@ == hit.path && is_random_uuid(
                request.uuid,
            ) && after == ContentsView { pending_yank: Some(request.uuid), ..w },
            None => r is None && after == w,
        },
        Action::UnknownCommand { keys } => r == Some(Effect::Bell) && after == ContentsView {
            message: Some(MessageView::UnknownCommand(keys@)),
            ..w
        },
        Action::HandleResponse(response) => responded(before, after, response, r),
    }
}

/// What handling a response does to the hits, and what it gives back.
///
/// The contents of a file to copy are copied, or why they could not be read is said. Hits for
/// the search on its way are added to the list; once the search is over with no hits, the list
/// is left.
pub open spec fn responded(before: ContentsView, after: ContentsView, response: Response, r: Option<Effect>) -> bool {
    if before.pending_yank == Some(response.uuid) {
        let v = ContentsView { pending_yank: None, ..before };
        match response.params {
            ResponseParams::GetFileContents { result } => match result {
                Ok(contents) => copies(r, contents@) && after == ContentsView {
                    message: ran("yanked file contents"@),
                    ..v
                },
                Err(error) => r == Some(Effect::Bell) && after == ContentsView {
                    message: Some(MessageView::Failed("failed to read the file contents: "@ + error@)),
                    ..v
                },
            },
            _ => r == Some(Effect::Bell) && after == v,
        }
    } else if before.pending != Some(response.uuid) {
        r is None && after == before
    } else {
        match response.params {
            ResponseParams::SearchPhrase { hits, searched, duration } => {
                let v = ContentsView {
                    hits: before.hits + hits_view(hits@),
                    files_searched: searched,
                    duration,
                    pending: if response.last { None } else { before.pending },
                    ..before
                };
                after == v && r == (if v.hits.len() == 0 && v.pending is None {
                    Some(Effect::Unfocus)
                } else {
                    None
                })
            },
            _ => r is None && after == before,
        }
    }
}

/// Scrolling up a row at a time leaves the path of the same file selected.
proof fn lemma_scrolling_up_keeps_the_selection(v: ContentsView, times: nat, k: int)
    requires
        v.line_selected is None,
        v.file_offset + v.file_selected == k,
        k <= usize::MAX,
    ensures
        scrolled_up_each(v, times).line_selected is None,
        scrolled_up_each(v, times).file_offset + scrolled_up_each(v, times).file_selected == k,
        scrolled_up_each(v, times).hits == v.hits,
    decreases times,
{
    if times > 0 {
        let w = scrolled_up(v, 1);
        assert(w.line_selected is None && w.file_offset + w.file_selected == k && w.hits == v.hits) by {
            reveal_with_fuel(scrolled_up, 2);
        }
        lemma_scrolling_up_keeps_the_selection(w, (times - 1) as nat, k);
    }
}

/// `K` selects the path of the first file, when there are files.
pub proof fn law_big_k_selects_the_first_file(before: ContentsView, after: ContentsView, r: Option<Effect>)
    requires
        performed(before, after, Action::ReallyUp, r),
        before.hits.len() > 0,
    ensures
        after.hit_number() == Some(0int),
        after.line_selected is None,
        r is None,
{
}

/// `J` selects the path of the last file, when there are files.
pub proof fn law_big_j_selects_the_last_file(before: ContentsView, after: ContentsView, r: Option<Effect>)
    requires
        performed(before, after, Action::ReallyDown, r),
        0 < before.hits.len() <= usize::MAX,
    ensures
        after.hit_number() == Some(before.hits.len() - 1),
        after.line_selected is None,
        r is None,
{
    let last = before.hits.len() - 1;
    let m = ContentsView {
        file_offset: last as usize,
        line_offset: None,
        file_selected: 0,
        line_selected: None,
        ..before
    };
    let room = before.count(last) + 1;
    let times: nat = if before.size.rows > room { (before.size.rows - room) as nat } else { 0 };
    lemma_scrolling_up_keeps_the_selection(m, times, last);
}

/// The rows of the files from the `from`th on are those of the files up to the `to`th followed
/// by those from there on.
pub proof fn lemma_rows_split(hits: Seq<FileHitView>, from: int, to: int)
    requires
        0 <= from <= to <= hits.len(),
    ensures
        rows_from(hits, from) == rows_between(hits, from, to) + rows_from(hits, to),
    decreases to - from,
{
    if from < to {
        lemma_rows_split(hits, from, to - 1);
        assert(rows_from(hits, to - 1) == hits[to - 1].lines.len() + 2 + rows_from(hits, to));
    }
}

/// The rows between two files are those up to a file in between followed by those from it.
pub proof fn lemma_rows_split_between(hits: Seq<FileHitView>, from: int, mid: int, to: int)
    requires
        from <= mid <= to,
    ensures
        rows_between(hits, from, to) == rows_between(hits, from, mid) + rows_between(hits, mid, to),
    decreases to - mid,
{
    if mid < to {
        lemma_rows_split_between(hits, from, mid, to - 1);
    }
}

/// The rows of the files from some file on are no more than the rows of all of them.
pub proof fn lemma_rows_from_shrinks(hits: Seq<FileHitView>, from: int)
    requires
        0 <= from <= hits.len(),
    ensures
        0 <= rows_from(hits, from) <= rows_from(hits, 0),
        rows_between(hits, 0, from) >= 0,
    decreases from,
{
    lemma_rows_split(hits, 0, from);
    lemma_rows_between_nonnegative(hits, 0, from);
    lemma_rows_from_nonnegative(hits, from);
}

/// A count of rows is never negative.
pub proof fn lemma_rows_between_nonnegative(hits: Seq<FileHitView>, from: int, to: int)
    ensures
        rows_between(hits, from, to) >= 0,
    decreases to - from,
{
    if from < to {
        lemma_rows_between_nonnegative(hits, from, to - 1);
    }
}

/// A count of rows is never negative.
pub proof fn lemma_rows_from_nonnegative(hits: Seq<FileHitView>, from: int)
    ensures
        rows_from(hits, from) >= 0,
    decreases hits.len() - from,
{
    if 0 <= from < hits.len() {
        lemma_rows_from_nonnegative(hits, from + 1);
    }
}

/// The hits with the size and the selection and scrolling given.
pub open spec fn at(v: ContentsView, size: Size, fo: usize, lo: Option<usize>, fs: usize, ls: Option<usize>) -> ContentsView {
    ContentsView { size, file_offset: fo, line_offset: lo, file_selected: fs, line_selected: ls, ..v }
}

/// The list can be scrolled down by some rows just when there are hits, or there is nothing to
/// scroll, or a single row brings the path of a first file that is not there out of view.
pub proof fn lemma_scroll_down_closed(v: ContentsView, rows: nat)
    ensures
        can_scroll_down(v, rows) == (rows == 0 || v.hits.len() > 0 || (rows == 1 && v.line_offset is None)),
    decreases rows,
{
    if rows > 0 {
        lemma_scroll_down_closed(scrolled_down_once(v), (rows - 1) as nat);
    }
}

/// The path of a file stays selected while scrolling up a row at a time, and each row can be
/// scrolled.
proof fn lemma_scroll_up_each_can(v: ContentsView, times: nat)
    requires
        v.line_selected is None,
    ensures
        can_scroll_up_each(v, times),
    decreases times,
{
    if times > 0 {
        let w = scrolled_up(v, 1);
        assert(w.line_selected is None) by {
            reveal_with_fuel(scrolled_up, 2);
        }
        assert(can_scroll_up(v, 1)) by {
            reveal_with_fuel(can_scroll_up, 2);
        }
        lemma_scroll_up_each_can(w, (times - 1) as nat);
    }
}

/// The last file can always be selected.
proof fn lemma_can_really_down(v: ContentsView)
    ensures
        can_really_down(v),
{
    if v.hits.len() > 0 {
        let last = v.hits.len() - 1;
        let m = ContentsView {
            file_offset: last as usize,
            line_offset: None,
            file_selected: 0,
            line_selected: None,
            ..v
        };
        let room = v.count(last) + 1;
        lemma_scroll_up_each_can(m, if v.size.rows > room { (v.size.rows - room) as nat } else { 0 });
    }
}


/// The state of the hits.
pub struct State {
    /// The size they are shown at.
    size: Size,
    /// The directory which was searched.
    dir: String,
    /// The phrase last searched for, if any.
    phrase: Option<String>,
    /// Whether the list is being looked at.
    focussed: bool,
    /// Whether a search was started.
    searched: bool,
    /// The files which contain the phrase.
    hits: Vec<FileHit>,
    /// How many files are scrolled past.
    file_offset: usize,
    /// Whether the path of the first file shown is scrolled past, and how many of its lines are.
    line_offset: Option<usize>,
    /// The selected file, counted from the first one shown.
    file_selected: usize,
    /// The selected line of the selected file, if one is.
    line_selected: Option<usize>,
    /// The request for the hits which is on its way, if any.
    pending_request: Option<u128>,
    /// The request for the contents of a file to copy, if any.
    pending_yank_request: Option<u128>,
    /// What the last command had to say for itself, if anything.
    message: Option<CommandMessage>,
    /// How many files have been searched.
    files_searched: usize,
    /// How long the search has taken, in nanoseconds.
    duration: u128,
}

impl State {
    /// What the hits are seen as.
    pub closed spec fn view(&self) -> ContentsView {
        ContentsView {
            size: self.size,
            dir: self.dir@,
            phrase: match self.phrase {
                Some(p) => Some(p@),
                None => None,
            },
            focussed: self.focussed,
            searched: self.searched,
            hits: hits_view(self.hits@),
            file_offset: self.file_offset,
            line_offset: self.line_offset,
            file_selected: self.file_selected,
            line_selected: self.line_selected,
            pending: self.pending_request,
            pending_yank: self.pending_yank_request,
            message: message_view(self.message),
            files_searched: self.files_searched,
            duration: self.duration,
        }
    }

    /// Return the number of lines of the `i`th file.
    fn count(&self, i: usize) -> (n: usize)
        requires
            i < self.view().hits.len(),
        ensures
            n == self.view().count(i as int),
    {
        assert(self.view().hits[i as int].lines.len() == self.hits@[i as int].line_hits@.len());
        self.hits[i].line_hits.len()
    }

    /// Scroll the list down by a row.
    fn scroll_down_once(&mut self)
        requires
            old(self).view().wf(),
            can_scroll_down_once(old(self).view()),
        ensures
            final(self).view().wf(),
            final(self).view() == scrolled_down_once(old(self).view()),
    {
        let len = self.hits.len();
        assert(self.view().hits.len() == len);
        match self.line_offset {
            None => {
                self.line_offset = Some(0);
            },
            Some(l) => {
                if l < self.count(self.file_offset) {
                    self.line_offset = Some(l + 1);
                    if self.file_selected == 0 {
                        if let Some(x) = self.line_selected {
                            self.line_selected = Some(if x > 0 { x - 1 } else { 0 });
                        }
                    }
                } else if self.file_offset + 1 < len {
                    self.file_offset = self.file_offset + 1;
                    self.file_selected = if self.file_selected > 0 { self.file_selected - 1 } else { 0 };
                    self.line_offset = None;
                }
            },
        }
    }

    /// Scroll the list down by some rows, one at a time.
    fn scroll_down(&mut self, rows: usize)
        requires
            old(self).view().wf(),
            can_scroll_down(old(self).view(), rows as nat),
        ensures
            final(self).view().wf(),
            final(self).view() == scrolled_down(old(self).view(), rows as nat),
    {
        let mut i: usize = 0;
        while i < rows
            invariant
                i <= rows,
                self.view().wf(),
                can_scroll_down(self.view(), (rows - i) as nat),
                scrolled_down(self.view(), (rows - i) as nat) == scrolled_down(old(self).view(), rows as nat),
            decreases rows - i,
        {
            self.scroll_down_once();
            i = i + 1;
        }
    }

    /// Scroll the list up by some rows.
    fn scroll_up(&mut self, rows: usize)
        requires
            old(self).view().wf(),
            can_scroll_up(old(self).view(), rows as nat),
        ensures
            final(self).view().wf(),
            final(self).view() == scrolled_up(old(self).view(), rows as nat),
    {
        let mut rows = rows;
        let ghost goal = scrolled_up(old(self).view(), rows as nat);
        loop
            invariant_except_break
                can_scroll_up(self.view(), rows as nat),
                scrolled_up(self.view(), rows as nat) == goal,
            invariant
                self.view().wf(),
            ensures
                self.view() == goal,
            decreases rows,
        {
            if rows == 0 {
                break;
            }
            match self.line_offset {
                Some(l) => {
                    if rows <= l {
                        self.line_offset = Some(l - rows);
                        if self.file_selected == 0 {
                            if let Some(x) = self.line_selected {
                                self.line_selected = Some(x + rows);
                            }
                        }
                        break;
                    }
                    if rows == l + 1 {
                        self.line_offset = None;
                        if self.file_selected == 0 {
                            if let Some(x) = self.line_selected {
                                self.line_selected = Some(x + rows + 1);
                            }
                        }
                        break;
                    }
                    if self.file_offset == 0 {
                        break;
                    }
                    if self.file_selected == 0 {
                        if let Some(x) = self.line_selected {
                            self.line_selected = Some(x + l);
                        }
                    }
                    rows = rows - (l + 1);
                    self.file_offset = self.file_offset - 1;
                    let n = self.count(self.file_offset);
                    self.line_offset = Some(n);
                },
                None => {
                    if self.file_offset == 0 {
                        break;
                    }
                    let len = self.hits.len();
                    assert(self.view().hits.len() == len);
                    rows = rows - 1;
                    self.file_offset = self.file_offset - 1;
                    self.file_selected = self.file_selected + 1;
                    let n = self.count(self.file_offset);
                    self.line_offset = Some(n);
                },
            }
        }
    }

    /// Return the index of the selected file among all of them, if it is one of them.
    pub fn hit_number(&self) -> (n: Option<usize>)
        requires
            self.view().wf(),
        ensures
            match n {
                Some(n) => self.view().hit_number() == Some(n as int),
                None => self.view().hit_number() is None,
            },
    {
        let len = self.hits.len();
        assert(self.view().hits.len() == len);
        if len == 0 {
            return None;
        }
        Some(self.file_offset + self.file_selected)
    }

    /// Return the index of the selected line among the lines of its file, if a line is selected.
    pub fn line_hit_number(&self) -> (n: Option<usize>)
        requires
            self.view().line_hit_number() matches Some(k) ==> k <= usize::MAX,
        ensures
            match n {
                Some(n) => self.view().line_hit_number() == Some(n as int),
                None => self.view().line_hit_number() is None,
            },
    {
        match self.line_selected {
            Some(x) => if self.file_selected == 0 {
                match self.line_offset {
                    Some(l) => Some(l + x),
                    None => Some(x),
                }
            } else {
                Some(x)
            },
            None => None,
        }
    }

    /// Return the row the selection is on, counted from the top row shown.
    fn selected_row_number(&self) -> (row: usize)
        requires
            self.view().wf(),
            self.view().selected_row_number() <= usize::MAX,
        ensures
            row == self.view().selected_row_number(),
    {
        let v = Ghost(self.view());
        if self.file_selected == 0 {
            return match self.line_selected {
                None => 0,
                Some(x) => match self.line_offset {
                    None => x + 1,
                    Some(_) => x,
                },
            };
        }
        let len = self.hits.len();
        assert(v@.hits.len() == len);
        let first = self.count(self.file_offset);
        proof {
            lemma_rows_from_shrinks(v@.hits, self.file_offset as int);
            lemma_rows_from_nonnegative(v@.hits, self.file_offset + 1);
            assert(rows_from(v@.hits, self.file_offset as int) == first + 2 + rows_from(
                v@.hits,
                self.file_offset + 1,
            ));
        }
        let skipped: usize = match self.line_offset {
            None => 0,
            Some(l) => l + 1,
        };
        let mut row: usize = first + 1 - skipped;
        let end = self.file_offset + self.file_selected;
        let mut i: usize = self.file_offset + 1;
        proof {
            lemma_rows_between_nonnegative(v@.hits, self.file_offset + 1, end as int);
        }
        while i < end
            invariant
                v@ == self.view(),
                self.file_offset + 1 <= i <= end,
                end == self.file_offset + self.file_selected,
                end < len,
                len == v@.hits.len(),
                row == (v@.count(self.file_offset as int) + 1 - skipped) + rows_between(
                    v@.hits,
                    self.file_offset + 1,
                    i as int,
                ),
                skipped == match v@.line_offset {
                    None => 0,
                    Some(l) => l + 1,
                },
                v@.selected_row_number() <= usize::MAX,
                rows_between(v@.hits, self.file_offset + 1, end as int) >= 0,
                v@.selected_row_number() == (v@.count(self.file_offset as int) + 1 - skipped)
                    + rows_between(v@.hits, self.file_offset + 1, end as int) + match v@.line_selected {
                    None => 1,
                    Some(x) => x + 2,
                },
            decreases end - i,
        {
            proof {
                lemma_rows_between_nonnegative(v@.hits, i + 1, end as int);
                lemma_rows_split_between(v@.hits, self.file_offset + 1, i + 1, end as int);
            }
            row = row + self.count(i) + 2;
            i = i + 1;
        }
        match self.line_selected {
            None => row + 1,
            Some(x) => row + x + 2,
        }
    }

    /// Move the selection down, and scroll as far as it takes to show it.
    fn down(&mut self)
        requires
            old(self).view().wf(),
            can_down(old(self).view()),
        ensures
            final(self).view().wf(),
            final(self).view() == down(old(self).view()),
    {
        let len = self.hits.len();
        assert(self.view().hits.len() == len);
        match self.line_selected {
            None => {
                self.line_selected = Some(0);
            },
            Some(x) => {
                let k = self.line_hit_number().unwrap();
                let h = self.hit_number().unwrap();
                if k < self.count(h) - 1 {
                    self.line_selected = Some(x + 1);
                } else if h < len - 1 {
                    self.line_selected = None;
                    self.file_selected = self.file_selected + 1;
                }
            },
        }
        let row = self.selected_row_number();
        let adjustment = if row + 1 > self.size.rows {
            row + 1 - self.size.rows
        } else {
            0
        };
        self.scroll_down(adjustment);
    }

    /// Select the path of the last file, and scroll up a row at a time for as many rows as it
    /// leaves empty below it.
    fn really_down(&mut self)
        requires
            old(self).view().wf(),
            can_really_down(old(self).view()),
        ensures
            final(self).view().wf(),
            final(self).view() == really_down(old(self).view()),
    {
        let len = self.hits.len();
        assert(self.view().hits.len() == len);
        if len == 0 {
            return;
        }
        self.file_offset = len - 1;
        self.line_offset = None;
        self.file_selected = 0;
        self.line_selected = None;
        proof {
            lemma_rows_from_shrinks(self.view().hits, len - 1);
            assert(rows_from(self.view().hits, len - 1) == self.view().count(len - 1) + 2
                + rows_from(self.view().hits, len as int));
        }
        let room = self.count(len - 1) + 1;
        let times = if self.size.rows > room {
            self.size.rows - room
        } else {
            0
        };
        let mut i: usize = 0;
        let ghost start = self.view();
        while i < times
            invariant
                i <= times,
                self.view().wf(),
                can_scroll_up_each(self.view(), (times - i) as nat),
                scrolled_up_each(self.view(), (times - i) as nat) == scrolled_up_each(start, times as nat),
            decreases times - i,
        {
            self.scroll_up(1);
            i = i + 1;
        }
    }

    /// Move the selection up.
    fn up(&mut self)
        requires
            old(self).view().wf(),
        ensures
            final(self).view().wf(),
            final(self).view() == up(old(self).view()),
    {
        let len = self.hits.len();
        assert(self.view().hits.len() == len);
        match self.line_selected {
            None => {
                if self.file_selected == 0 {
                    if self.file_offset > 0 {
                        self.file_offset = self.file_offset - 1;
                        let n = self.count(self.file_offset);
                        self.line_offset = Some(n - 1);
                        self.line_selected = Some(0);
                    }
                } else if self.file_selected == 1 {
                    self.file_selected = 0;
                    let n = self.count(self.file_offset);
                    match self.line_offset {
                        None => {
                            self.line_selected = Some(n - 1);
                        },
                        Some(l) => {
                            if l == n {
                                self.line_offset = Some(l - 1);
                                self.line_selected = Some(0);
                            } else {
                                self.line_selected = Some(n - 1 - l);
                            }
                        },
                    }
                } else {
                    self.file_selected = self.file_selected - 1;
                    let n = self.count(self.file_offset + self.file_selected);
                    self.line_selected = Some(n - 1);
                }
            },
            Some(x) => {
                if x == 0 {
                    if self.file_selected == 0 {
                        match self.line_offset {
                            Some(l) if l > 0 => {
                                self.line_offset = Some(l - 1);
                            },
                            _ => {
                                self.line_offset = None;
                                self.line_selected = None;
                            },
                        }
                    } else {
                        self.line_selected = None;
                    }
                } else {
                    self.line_selected = Some(x - 1);
                }
            },
        }
    }

    /// Select the path of the first file, with nothing scrolled past.
    fn really_up(&mut self)
        requires
            old(self).view().wf(),
        ensures
            final(self).view().wf(),
            final(self).view() == really_up(old(self).view()),
    {
        if self.hits.len() == 0 {
            assert(self.view().hits.len() == 0);
            return;
        }
        self.file_offset = 0;
        self.line_offset = None;
        self.file_selected = 0;
        self.line_selected = None;
    }

    /// Take a new size, and scroll so that the selection moves to the row it was scaled to.
    fn resize(&mut self, size: Size, scaled: usize)
        requires
            old(self).view().wf(),
            can_resize(old(self).view(), size, scaled),
        ensures
            final(self).view().wf(),
            final(self).view() == resized(old(self).view(), size, scaled),
    {
        let row = self.selected_row_number();
        self.size = size;
        if scaled < row {
            self.scroll_down(row - scaled);
        } else if scaled > row {
            self.scroll_up(scaled - row);
        }
    }

    /// Return the selected file, if there is one.
    fn hit(&self) -> (h: Option<&FileHit>)
        requires
            self.view().wf(),
        ensures
            match h {
                Some(h) => hit_of(self.view()) == Some(
                    FileHitView { path: h.path@, lines: lines_view(h.line_hits@) },
                ) && self.view().hit_number() is Some,
                None => hit_of(self.view()) is None,
            },
    {
        match self.hit_number() {
            Some(n) => Some(&self.hits[n]),
            None => None,
        }
    }

    /// Return the selected line of the selected file, if there is one.
    fn line(&self) -> (l: Option<&LineHit>)
        requires
            self.view().wf(),
            line_ok(self.view()),
            self.view().line_hit_number() matches Some(k) ==> k <= usize::MAX,
        ensures
            match l {
                Some(l) => line_of(self.view()) == Some(
                    LineHitView { line_number: l.line_number, line: l.line@ },
                ),
                None => line_of(self.view()) is None,
            },
    {
        let h = match self.hit_number() {
            Some(h) => h,
            None => {
                return None;
            },
        };
        match self.line_hit_number() {
            Some(k) => {
                assert(self.view().hits[h as int].lines.len() == self.hits@[h as int].line_hits@.len());
                Some(&self.hits[h].line_hits[k])
            },
            None => None,
        }
    }

    /// Start searching for a phrase.
    fn search(&mut self, phrase: String) -> (r: Option<Effect>)
        requires
            old(self).view().wf(),
        ensures
            final(self).view().wf(),
            searched_for(old(self).view(), final(self).view(), phrase@, r),
    {
        self.focussed = true;
        self.phrase = Some(phrase.clone());
        self.searched = true;
        self.hits = Vec::new();
        self.file_offset = 0;
        self.line_offset = None;
        self.file_selected = 0;
        self.line_selected = None;
        self.files_searched = 0;
        self.duration = 0;
        assert(hits_view(self.hits@) =~= Seq::<FileHitView>::empty());
        let request: Request = search_phrase_request(self.dir.clone(), phrase);
        self.pending_request = Some(request.uuid());
        Some(Effect::Request(request))
    }

    /// Browse the directory of the selected file, with the file selected or not.
    fn go_to(&self, really: bool) -> (r: Option<Effect>)
        requires
            self.view().wf(),
        ensures
            goes_to(self.view(), really, r),
    {
        let hit: &FileHit = match self.hit() {
            Some(hit) => hit,
            None => {
                return None;
            },
        };
        // A file which was found is always in some directory; a path without one gives nothing
        // to go to.
        let dir: String = match parent(hit.path.as_str()) {
            Some(dir) => dir,
            None => {
                return None;
            },
        };
        let file: Option<String> = if really {
            Some(hit.path.clone())
        } else {
            None
        };
        Some(Effect::Goto { dir, file })
    }
}

/// Return the first word of some text, if it has one.
pub fn first_word_of(s: &str) -> (word: Option<String>)
    ensures
        match word {
            Some(w) => first_word(s@) == Some(w@),
            None => first_word(s@) is None,
        },
{
    let chars = chars_of(s);
    let mut start: usize = 0;
    while start < chars.len() && white_space(chars[start])
        invariant
            start <= chars.len(),
            chars@ == s@,
            forall|j: int| 0 <= j < start ==> is_white_space(#[trigger] chars@[j]),
        decreases chars.len() - start,
    {
        start = start + 1;
    }
    proof {
        lemma_leading(s@, start as int);
    }
    if start == chars.len() {
        return None;
    }
    let mut end: usize = start;
    while end < chars.len() && !white_space(chars[end])
        invariant
            start <= end <= chars.len(),
            chars@ == s@,
            forall|j: int| start <= j < end ==> !is_white_space(#[trigger] chars@[j]),
        decreases chars.len() - end,
    {
        end = end + 1;
    }
    let ghost rest = s@.skip(start as int);
    proof {
        lemma_word_length(rest, end - start);
    }
    let mut word: Vec<char> = Vec::new();
    let mut i: usize = start;
    while i < end
        invariant
            start <= i <= end <= chars.len(),
            chars@ == s@,
            word@ == chars@.subrange(start as int, i as int),
        decreases end - i,
    {
        word.push(chars[i]);
        assert(chars@.subrange(start as int, i + 1) =~= chars@.subrange(start as int, i as int).push(chars@[i as int]));
        i = i + 1;
    }
    assert(rest.take(end - start) =~= chars@.subrange(start as int, end as int));
    Some(string_of_chars(&word))
}

/// The first word of some text runs up to its first character of white space.
pub proof fn lemma_word_length(s: Seq<char>, i: int)
    requires
        0 <= i <= s.len(),
        forall|j: int| 0 <= j < i ==> !is_white_space(#[trigger] s[j]),
        i == s.len() || is_white_space(s[i]),
    ensures
        word_length(s) == i,
    decreases i,
{
    if i > 0 {
        lemma_word_length(s.drop_first(), i - 1);
    }
}

/// The hits before anything has come in, given whether a search is already on its way.
pub open spec fn start_view(props_dir: Seq<char>, size: Size, phrase: Option<Seq<char>>, pending: Option<u128>) -> ContentsView {
    ContentsView {
        size,
        dir: props_dir,
        phrase,
        focussed: pending is Some,
        searched: pending is Some,
        hits: Seq::empty(),
        file_offset: 0,
        line_offset: None,
        file_selected: 0,
        line_selected: None,
        pending,
        pending_yank: None,
        message: None,
        files_searched: 0,
        duration: 0,
    }
}

impl State {
    /// Return the hits for some properties: none have come in, and the list is looked at when
    /// a search is already on its way.
    pub fn from_props(props: Props) -> (s: State)
        ensures
            s.view() == start_view(
                props.dir@,
                props.size,
                match props.phrase {
                    Some(p) => Some(p@),
                    None => None,
                },
                props.pending_request,
            ),
            s.view().wf(),
    {
        let pending = props.pending_request.is_some();
        let s = State {
            size: props.size,
            dir: props.dir,
            phrase: props.phrase,
            focussed: pending,
            searched: pending,
            hits: Vec::new(),
            file_offset: 0,
            line_offset: None,
            file_selected: 0,
            line_selected: None,
            pending_request: props.pending_request,
            pending_yank_request: None,
            message: None,
            files_searched: 0,
            duration: 0,
        };
        assert(hits_view(s.hits@) =~= Seq::<FileHitView>::empty());
        s
    }

    /// Return the directory searched.
    pub fn dir(&self) -> (d: &String)
        ensures
            d@ == self.view().dir,
    {
        &self.dir
    }

    /// Return the files which contain the phrase.
    pub fn hits(&self) -> (h: &Vec<FileHit>)
        ensures
            hits_view(h@) == self.view().hits,
    {
        &self.hits
    }

    /// Return whether the list is being looked at.
    pub fn focussed(&self) -> (f: bool)
        ensures
            f == self.view().focussed,
    {
        self.focussed
    }

    /// Return whether a search was started.
    pub fn searched(&self) -> (f: bool)
        ensures
            f == self.view().searched,
    {
        self.searched
    }

    /// Return whether a search is on its way.
    pub fn is_pending(&self) -> (p: bool)
        ensures
            p == self.view().pending is Some,
    {
        self.pending_request.is_some()
    }

    /// Return whether the contents of a file are being read to be copied.
    pub fn yanking(&self) -> (y: bool)
        ensures
            y == self.view().pending_yank is Some,
    {
        self.pending_yank_request.is_some()
    }

    /// Return what the last command had to say for itself, if anything.
    pub fn message(&self) -> (m: &Option<CommandMessage>)
        ensures
            message_view(*m) == self.view().message,
    {
        &self.message
    }

    /// Return how many files are scrolled past.
    pub fn file_offset(&self) -> (o: usize)
        ensures
            o == self.view().file_offset,
    {
        self.file_offset
    }

    /// Return whether the path of the first file shown is scrolled past, and how many of its
    /// lines are.
    pub fn line_offset(&self) -> (o: Option<usize>)
        ensures
            o == self.view().line_offset,
    {
        self.line_offset
    }

    /// Return the selected file, counted from the first one shown.
    pub fn file_selected(&self) -> (f: usize)
        ensures
            f == self.view().file_selected,
    {
        self.file_selected
    }

    /// Return the selected line of the selected file, if one is.
    pub fn line_selected(&self) -> (l: Option<usize>)
        ensures
            l == self.view().line_selected,
    {
        self.line_selected
    }

    /// Return the size the list is shown at.
    pub fn size(&self) -> (s: Size)
        ensures
            s == self.view().size,
    {
        self.size
    }

    /// Return the row the selection is on, counted from the top row shown, when it is a count
    /// of rows.
    pub fn selection_row(&self) -> (row: Option<usize>)
        requires
            self.view().wf(),
        ensures
            match row {
                Some(row) => row == self.view().selected_row_number(),
                None => self.view().selected_row_number() > usize::MAX,
            },
    {
        if self.file_selected == 0 {
            return match self.line_selected {
                None => Some(0),
                Some(x) => match self.line_offset {
                    None => if x < usize::MAX {
                        Some(x + 1)
                    } else {
                        None
                    },
                    Some(_) => Some(x),
                },
            };
        }
        let path_row = self.view_path_row_number();
        match self.line_selected {
            None => if path_row < usize::MAX {
                Some(path_row + 1)
            } else {
                None
            },
            Some(x) => if x <= usize::MAX - 2 && path_row <= usize::MAX - 2 - x {
                Some(path_row + x + 2)
            } else {
                None
            },
        }
    }

    /// Return the row of the path of the selected file, when a later file is selected.
    fn view_path_row_number(&self) -> (row: usize)
        requires
            self.view().wf(),
            self.view().file_selected > 0,
        ensures
            row + match self.view().line_selected {
                None => 1int,
                Some(x) => x + 2,
            } == self.view().selected_row_number(),
            row <= rows_from(self.view().hits, 0),
    {
        let ghost v = self.view();
        let len = self.hits.len();
        assert(v.hits.len() == len);
        let first = self.count(self.file_offset);
        proof {
            lemma_rows_from_shrinks(v.hits, self.file_offset as int);
            lemma_rows_from_nonnegative(v.hits, self.file_offset + 1);
            lemma_rows_split(v.hits, self.file_offset + 1, (self.file_offset + self.file_selected) as int);
            lemma_rows_from_nonnegative(v.hits, (self.file_offset + self.file_selected) as int);
            lemma_rows_between_nonnegative(v.hits, self.file_offset + 1, (self.file_offset + self.file_selected) as int);
        }
        let skipped: usize = match self.line_offset {
            None => 0,
            Some(l) => l + 1,
        };
        let mut row: usize = first + 1 - skipped;
        let end = self.file_offset + self.file_selected;
        let mut i: usize = self.file_offset + 1;
        while i < end
            invariant
                v == self.view(),
                self.file_offset + 1 <= i <= end,
                end == self.file_offset + self.file_selected,
                end < len,
                len == v.hits.len(),
                row == (v.count(self.file_offset as int) + 1 - skipped) + rows_between(
                    v.hits,
                    self.file_offset + 1,
                    i as int,
                ),
                (v.count(self.file_offset as int) + 1 - skipped) + rows_between(v.hits, self.file_offset + 1, end as int) <= rows_from(v.hits, 0),
                rows_from(v.hits, 0) <= usize::MAX,
                0 <= (v.count(self.file_offset as int) + 1 - skipped),
            decreases end - i,
        {
            proof {
                lemma_rows_between_nonnegative(v.hits, i + 1, end as int);
                lemma_rows_split_between(v.hits, self.file_offset + 1, i + 1, end as int);
                assert(rows_between(v.hits, self.file_offset + 1, i + 1) == rows_between(
                    v.hits,
                    self.file_offset + 1,
                    i as int,
                ) + v.hits[i as int].lines.len() + 2);
            }
            row = row + self.count(i) + 2;
            i = i + 1;
        }
        row
    }

    /// Take in a response to the request for the contents of a file to copy.
    fn handle_yank_response(&mut self, response: Response) -> (r: Option<Effect>)
        requires
            old(self).view().wf(),
            old(self).view().pending_yank == Some(response.uuid),
        ensures
            final(self).view().wf(),
            responded(old(self).view(), final(self).view(), response, r),
    {
        self.pending_yank_request = None;
        match response.params {
            ResponseParams::GetFileContents { result } => match result {
                Ok(contents) => {
                    let message = string_of("yanked file contents");
                    proof {
                        reveal_strlit("yanked file contents");
                    }
                    self.message = Some(CommandMessage::Ran(message));
                    Some(Effect::Copy { contents })
                },
                Err(error) => {
                    let mut why = string_of("failed to read the file contents: ");
                    proof {
                        reveal_strlit("failed to read the file contents: ");
                    }
                    why.append(error.as_str());
                    self.message = Some(CommandMessage::Failed(why));
                    Some(Effect::Bell)
                },
            },
            _ => Some(Effect::Bell),
        }
    }

    /// Take in a response.
    fn handle_response(&mut self, response: Response) -> (r: Option<Effect>)
        requires
            old(self).view().wf(),
            can_perform(old(self).view(), Action::HandleResponse(response)),
        ensures
            final(self).view().wf(),
            responded(old(self).view(), final(self).view(), response, r),
    {
        if Some(response.uuid) == self.pending_yank_request {
            return self.handle_yank_response(response);
        }
        let pending: u128 = match self.pending_request {
            Some(pending) => pending,
            None => {
                return None;
            },
        };
        if response.uuid != pending {
            return None;
        }
        match response.params {
            ResponseParams::SearchPhrase { hits, searched, duration } => {
                let mut hits = hits;
                let ghost before = self.hits@;
                let ghost more = hits@;
                self.hits.append(&mut hits);
                assert(hits_view(self.hits@) =~= hits_view(before) + hits_view(more));
                self.files_searched = searched;
                self.duration = duration;
                if response.last {
                    self.pending_request = None;
                }
                let len = self.hits.len();
                assert(self.view().hits.len() == len);
                if len == 0 && self.pending_request.is_none() {
                    return Some(Effect::Unfocus);
                }
                None
            },
            _ => None,
        }
    }

    /// Perform an action. Running a command clears what the last one had to say; responses are
    /// not commands, so they leave it alone.
    pub fn perform(&mut self, action: Action) -> (r: Option<Effect>)
        requires
            old(self).view().wf(),
            can_perform(old(self).view(), action),
        ensures
            final(self).view().wf(),
            performed(old(self).view(), final(self).view(), action, r),
    {
        if let Action::HandleResponse(response) = action {
            return self.handle_response(response);
        }
        match action {
            Action::Resize { size, scaled } => {
                self.resize(size, scaled);
                self.message = None;
                return None;
            },
            Action::Down => {
                self.down();
                self.message = None;
                return None;
            },
            Action::ReallyDown => {
                self.really_down();
                self.message = None;
                return None;
            },
            Action::ScrollDown => {
                self.scroll_down(1);
                self.message = None;
                return None;
            },
            Action::Up => {
                self.up();
                self.message = None;
                return None;
            },
            Action::ReallyUp => {
                self.really_up();
                self.message = None;
                return None;
            },
            Action::ScrollUp => {
                self.scroll_up(1);
                self.message = None;
                return None;
            },
            _ => {},
        }
        self.message = None;
        match action {
            Action::Unfocus => {
                self.focussed = false;
                Some(Effect::Unfocus)
            },
            Action::Search { phrase } => self.search(phrase),
            Action::Refresh => match self.phrase.clone() {
                Some(phrase) => self.search(phrase),
                None => None,
            },
            Action::Edit => {
                let path = self.hit().unwrap().path.clone();
                let line = match self.line() {
                    Some(line) => Some(line.line_number),
                    None => None,
                };
                Some(Effect::OpenVim(VimArgs { path: Some(path), line, column: None }))
            },
            Action::Goto => self.go_to(false),
            Action::ReallyGoto => self.go_to(true),
            Action::YankWord => {
                let hit: &FileHit = match self.hit() {
                    Some(hit) => hit,
                    None => {
                        return None;
                    },
                };
                let found: Option<(String, String)> = match self.line() {
                    Some(line) => match first_word_of(line.line.as_str()) {
                        Some(word) => {
                            let what = string_of("yanked word");
                            proof {
                                reveal_strlit("yanked word");
                            }
                            Some((what, word))
                        },
                        None => None,
                    },
                    None => match file_name(hit.path.as_str()) {
                        Some(name) => {
                            let what = string_of("yanked file name");
                            proof {
                                reveal_strlit("yanked file name");
                            }
                            Some((what, name))
                        },
                        None => None,
                    },
                };
                match found {
                    Some((what, word)) => {
                        self.message = Some(CommandMessage::Ran(what));
                        Some(Effect::Copy { contents: word })
                    },
                    None => None,
                }
            },
            Action::YankLine => {
                let hit: &FileHit = match self.hit() {
                    Some(hit) => hit,
                    None => {
                        return None;
                    },
                };
                let (what, contents) = match self.line() {
                    Some(line) => {
                        let what = string_of("yanked line");
                        proof {
                            reveal_strlit("yanked line");
                        }
                        (what, line.line.clone())
                    },
                    None => {
                        let what = string_of("yanked path");
                        proof {
                            reveal_strlit("yanked path");
                        }
                        (what, hit.path.clone())
                    },
                };
                self.message = Some(CommandMessage::Ran(what));
                Some(Effect::Copy { contents })
            },
            Action::YankContents => {
                let path: String = match self.hit() {
                    Some(hit) => hit.path.clone(),
                    None => {
                        return None;
                    },
                };
                let request: Request = get_file_contents_request(path);
                self.pending_yank_request = Some(request.uuid());
                Some(Effect::Request(request))
            },
            Action::UnknownCommand { keys } => {
                self.message = Some(CommandMessage::UnknownCommand(keys));
                Some(Effect::Bell)
            },
            _ => None,
        }
    }
}

impl State {
    /// Return whether the list at a size, selected and scrolled as given, can be scrolled up by
    /// some rows.
    fn scroll_up_ok(
        &self,
        size: Size,
        file_offset: usize,
        line_offset: Option<usize>,
        file_selected: usize,
        line_selected: Option<usize>,
        rows_up: usize,
    ) -> (b: bool)
        requires
            file_offset == 0 || file_offset + file_selected < self.view().hits.len(),
        ensures
            b == can_scroll_up(
                at(self.view(), size, file_offset, line_offset, file_selected, line_selected),
                rows_up as nat,
            ),
    {
        let ghost v = self.view();
        let mut fo = file_offset;
        let mut lo = line_offset;
        let mut fs = file_selected;
        let mut ls = line_selected;
        let mut rows = rows_up;
        let ghost goal = can_scroll_up(at(v, size, fo, lo, fs, ls), rows as nat);
        assert(v.hits.len() == self.hits.len());
        loop
            invariant
                v == self.view(),
                v.hits.len() <= usize::MAX,
                goal == can_scroll_up(
                    at(self.view(), size, file_offset, line_offset, file_selected, line_selected),
                    rows_up as nat,
                ),
                fo == 0 || fo + fs < v.hits.len(),
                goal == can_scroll_up(at(v, size, fo, lo, fs, ls), rows as nat),
            decreases rows,
        {
            let w = Ghost(at(v, size, fo, lo, fs, ls));
            if rows == 0 {
                return true;
            }
            let x: usize = match ls {
                Some(x) => if fs == 0 { x } else { 0 },
                None => 0,
            };
            match lo {
                Some(l) => {
                    if rows <= l {
                        return x <= usize::MAX - rows;
                    }
                    if rows - 1 == l {
                        return rows < usize::MAX && x <= usize::MAX - rows - 1;
                    }
                    if fo == 0 {
                        return true;
                    }
                    if x > usize::MAX - l {
                        return false;
                    }
                    let n = self.count(fo - 1);
                    ls = if fs == 0 {
                        match ls {
                            Some(x) => Some(x + l),
                            None => None,
                        }
                    } else {
                        ls
                    };
                    fo = fo - 1;
                    lo = Some(n);
                    rows = rows - (l + 1);
                    assert(at(v, size, fo, lo, fs, ls) == (ContentsView {
                        line_selected: if w@.file_selected == 0 {
                            match w@.line_selected {
                                Some(x) => Some((x + l) as usize),
                                None => None,
                            }
                        } else {
                            w@.line_selected
                        },
                        file_offset: (w@.file_offset - 1) as usize,
                        line_offset: Some(w@.count(w@.file_offset - 1) as usize),
                        ..w@
                    }));
                },
                None => {
                    if fo == 0 {
                        return true;
                    }
                    let n = self.count(fo - 1);
                    fo = fo - 1;
                    fs = fs + 1;
                    lo = Some(n);
                    rows = rows - 1;
                    assert(at(v, size, fo, lo, fs, ls) == (ContentsView {
                        file_offset: (w@.file_offset - 1) as usize,
                        file_selected: (w@.file_selected + 1) as usize,
                        line_offset: Some(w@.count(w@.file_offset - 1) as usize),
                        ..w@
                    }));
                },
            }
        }
    }
}

impl State {
    /// Return the row the selection is on at a selection and scrolling given, counted from the
    /// top row shown, when it is a count of rows.
    fn row_at(&self, size: Size, fo: usize, lo: Option<usize>, fs: usize, ls: Option<usize>) -> (r: Option<usize>)
        requires
            self.view().wf(),
            fs == 0 || (fo + fs < self.view().hits.len() && (lo matches Some(l) ==> l <= self.view().count(fo as int))),
        ensures
            match r {
                Some(r) => r == at(self.view(), size, fo, lo, fs, ls).selected_row_number(),
                None => at(self.view(), size, fo, lo, fs, ls).selected_row_number() > usize::MAX,
            },
    {
        let ghost v = self.view();
        let ghost w = at(v, size, fo, lo, fs, ls);
        if fs == 0 {
            return match ls {
                None => Some(0),
                Some(x) => match lo {
                    None => if x < usize::MAX { Some(x + 1) } else { None },
                    Some(_) => Some(x),
                },
            };
        }
        assert(v.hits.len() == self.hits.len());
        let end = fo + fs;
        proof {
            lemma_rows_split(v.hits, 0, fo + 1);
            lemma_rows_split(v.hits, fo + 1, end as int);
            lemma_rows_between_nonnegative(v.hits, 0, fo + 1);
            lemma_rows_between_nonnegative(v.hits, fo + 1, end as int);
            lemma_rows_from_nonnegative(v.hits, end as int);
        }
        let first = self.count(fo) as u128;
        let skipped: u128 = match lo {
            None => 0,
            Some(l) => l as u128 + 1,
        };
        let mut sum: u128 = 0;
        let mut i: usize = fo + 1;
        while i < end
            invariant
                v == self.view(),
                fo + 1 <= i <= end,
                end == fo + fs,
                end < v.hits.len(),
                sum == rows_between(v.hits, fo + 1, i as int),
                rows_between(v.hits, fo + 1, end as int) <= usize::MAX,
            decreases end - i,
        {
            proof {
                lemma_rows_split_between(v.hits, fo + 1, i + 1, end as int);
                lemma_rows_between_nonnegative(v.hits, i + 1, end as int);
            }
            sum = sum + self.count(i) as u128 + 2;
            i = i + 1;
        }
        let last: u128 = match ls {
            None => 1,
            Some(x) => x as u128 + 2,
        };
        let row: u128 = first + 1 - skipped + sum + last;
        assert(row == w.selected_row_number());
        if row <= usize::MAX as u128 {
            Some(row as usize)
        } else {
            None
        }
    }
}

impl State {
    /// Return whether some files which came in keep the list to what it keeps to: each has a
    /// line, and all of the rows are a count of rows.
    fn fits_hits(&self, hits: &Vec<FileHit>) -> (b: bool)
        ensures
            b == fits(self.view(), hits_view(hits@)),
    {
        let ghost v = self.view();
        let ghost s = v.hits + hits_view(hits@);
        let old_len = self.hits.len();
        assert(v.hits.len() == old_len);
        let mut j: usize = 0;
        while j < hits.len()
            invariant
                j <= hits.len(),
                forall|i: int| 0 <= i < j ==> #[trigger] hits_view(hits@)[i].lines.len() >= 1,
            decreases hits.len() - j,
        {
            assert(hits_view(hits@)[j as int].lines.len() == hits@[j as int].line_hits@.len());
            if hits[j].line_hits.len() == 0 {
                return false;
            }
            j = j + 1;
        }
        assert(s.len() == old_len + hits@.len()) by {
            assert(hits_view(hits@).len() == hits@.len());
        }
        proof {
            lemma_rows_split(s, 0, s.len() as int);
            lemma_rows_between_nonnegative(s, 0, s.len() as int);
        }
        let mut sum: u128 = 0;
        let mut i: usize = 0;
        while i < old_len
            invariant
                s == v.hits + hits_view(hits@),
                v == self.view(),
                old_len == v.hits.len(),
                s.len() == old_len + hits@.len(),
                i <= old_len,
                sum == rows_between(s, 0, i as int),
                sum <= usize::MAX,
                rows_from(s, 0) == rows_between(s, 0, s.len() as int),
            decreases old_len - i,
        {
            assert(s[i as int] == v.hits[i as int]);
            assert(v.hits[i as int].lines.len() == self.hits@[i as int].line_hits@.len());
            sum = sum + self.hits[i].line_hits.len() as u128 + 2;
            if sum > usize::MAX as u128 {
                proof {
                    lemma_rows_split_between(s, 0, i + 1, s.len() as int);
                    lemma_rows_between_nonnegative(s, i + 1, s.len() as int);
                }
                return false;
            }
            i = i + 1;
        }
        let mut j: usize = 0;
        while j < hits.len()
            invariant
                s == v.hits + hits_view(hits@),
                v == self.view(),
                old_len == v.hits.len(),
                s.len() == old_len + hits@.len(),
                j <= hits.len(),
                sum == rows_between(s, 0, old_len + j),
                sum <= usize::MAX,
                rows_from(s, 0) == rows_between(s, 0, s.len() as int),
                forall|k: int| 0 <= k < hits@.len() ==> #[trigger] hits_view(hits@)[k].lines.len() >= 1,
            decreases hits.len() - j,
        {
            assert(s[old_len + j] == hits_view(hits@)[j as int]);
            assert(hits_view(hits@)[j as int].lines.len() == hits@[j as int].line_hits@.len());
            sum = sum + hits[j].line_hits.len() as u128 + 2;
            assert(sum == rows_between(s, 0, old_len + j + 1));
            if sum > usize::MAX as u128 {
                proof {
                    lemma_rows_split_between(s, 0, old_len + j + 1, s.len() as int);
                    lemma_rows_between_nonnegative(s, old_len + j + 1, s.len() as int);
                    assert(rows_from(v.hits + hits_view(hits@), 0) > usize::MAX);
                }
                return false;
            }
            j = j + 1;
        }
        true
    }

    /// Return whether an action can be performed on the hits.
    pub fn performable(&self, action: &Action) -> (b: bool)
        requires
            self.view().wf(),
        ensures
            b == can_perform(self.view(), *action),
    {
        let ghost v = self.view();
        let len = self.hits.len();
        assert(v.hits.len() == len);
        let fo = self.file_offset;
        let lo = self.line_offset;
        let fs = self.file_selected;
        let ls = self.line_selected;
        assert(at(v, v.size, fo, lo, fs, ls) == v);
        match action {
            Action::Resize { size, scaled } => {
                let row = match self.row_at(self.size, fo, lo, fs, ls) {
                    Some(row) => row,
                    None => return false,
                };
                let scaled = *scaled;
                assert(at(v, *size, fo, lo, fs, ls) == (ContentsView { size: *size, ..v }));
                if scaled < row {
                    proof {
                        lemma_scroll_down_closed(ContentsView { size: *size, ..v }, (row - scaled) as nat);
                    }
                    row - scaled == 1 && lo.is_none() || len > 0
                } else if scaled > row {
                    self.scroll_up_ok(*size, fo, lo, fs, ls, scaled - row)
                } else {
                    true
                }
            },
            Action::Down => {
                let mut k: usize = 0;
                if let Some(x) = ls {
                    if len == 0 {
                        return false;
                    }
                    k = if fs == 0 {
                        match lo {
                            Some(l) => {
                                if x > usize::MAX - l {
                                    return false;
                                }
                                l + x
                            },
                            None => x,
                        }
                    } else {
                        x
                    };
                    assert(v.line_hit_number() == Some(k as int));
                }
                let (fs2, ls2): (usize, Option<usize>) = match ls {
                    None => (fs, Some(0)),
                    Some(x) => {
                        let h = fo + fs;
                        assert(v.hit_number() == Some(h as int));
                        let n = self.count(h);
                        if k < n - 1 {
                            (fs, Some(x + 1))
                        } else if h < len - 1 {
                            (fs + 1, None)
                        } else {
                            (fs, ls)
                        }
                    },
                };
                let ghost m = at(v, v.size, fo, lo, fs2, ls2);
                assert(m == moved_down(v));
                let row = match self.row_at(self.size, fo, lo, fs2, ls2) {
                    Some(row) => row,
                    None => return false,
                };
                if row == usize::MAX {
                    return false;
                }
                let adjustment: usize = if row + 1 > self.size.rows { row + 1 - self.size.rows } else { 0 };
                assert(adjustment == down_adjustment(m));
                proof {
                    lemma_scroll_down_closed(m, adjustment as nat);
                }
                adjustment == 0 || len > 0 || (adjustment == 1 && lo.is_none())
            },
            Action::ReallyDown => {
                proof {
                    lemma_can_really_down(v);
                }
                true
            },
            Action::ScrollDown => {
                proof {
                    lemma_scroll_down_closed(v, 1);
                }
                len > 0 || lo.is_none()
            },
            Action::ScrollUp => self.scroll_up_ok(self.size, fo, lo, fs, ls, 1),
            Action::Edit | Action::YankWord | Action::YankLine => {
                let h: Option<usize> = if len > 0 { Some(fo + fs) } else { None };
                assert(match h { Some(h) => v.hit_number() == Some(h as int), None => v.hit_number() is None });
                let k: Option<usize> = match ls {
                    Some(x) => if fs == 0 {
                        match lo {
                            Some(l) => {
                                if x > usize::MAX - l {
                                    return false;
                                }
                                Some(l + x)
                            },
                            None => Some(x),
                        }
                    } else {
                        Some(x)
                    },
                    None => None,
                };
                assert(match k { Some(k) => v.line_hit_number() == Some(k as int), None => v.line_hit_number() is None });
                let line_ok = match (h, k) {
                    (Some(h), Some(k)) => k < self.count(h),
                    _ => true,
                };
                match action {
                    Action::Edit => h.is_some() && line_ok,
                    _ => line_ok,
                }
            },
            Action::HandleResponse(response) => self.response_ok(response),
            _ => true,
        }
    }

    /// Return whether a response can be taken in: files found for the search waited for have to
    /// keep the list to what it keeps to.
    pub fn response_ok(&self, response: &Response) -> (b: bool)
        ensures
            b == can_perform(self.view(), Action::HandleResponse(*response)),
    {
        match &response.params {
            ResponseParams::SearchPhrase { hits, .. } => {
                if self.pending_request == Some(response.uuid) && self.pending_yank_request != Some(response.uuid) {
                    self.fits_hits(hits)
                } else {
                    true
                }
            },
            _ => true,
        }
    }
}

} // verus!

verus! {

/// A command which keys can be bound to.
#[derive(Clone, Copy, Debug, PartialEq, Eq, Structural)]
pub enum Command {
    /// Go back to the phrase.
    Unfocus,
    /// Move the selection down.
    Down,
    /// Select the last file.
    ReallyDown,
    /// Scroll down a row.
    ScrollDown,
    /// Move the selection up.
    Up,
    /// Select the first file.
    ReallyUp,
    /// Scroll up a row.
    ScrollUp,
    /// Search again.
    Refresh,
    /// Edit the selected file.
    Edit,
    /// Browse the directory of the selected file.
    Goto,
    /// Browse the directory of the selected file with the file selected.
    ReallyGoto,
    /// Copy the word under the selection.
    YankWord,
    /// Copy the selected line.
    YankLine,
    /// Copy the contents of the selected file.
    YankContents,
}

/// The action a command asks for.
pub open spec fn action_of(command: Command) -> Action {
    match command {
        Command::Unfocus => Action::Unfocus,
        Command::Down => Action::Down,
        Command::ReallyDown => Action::ReallyDown,
        Command::ScrollDown => Action::ScrollDown,
        Command::Up => Action::Up,
        Command::ReallyUp => Action::ReallyUp,
        Command::ScrollUp => Action::ScrollUp,
        Command::Refresh => Action::Refresh,
        Command::Edit => Action::Edit,
        Command::Goto => Action::Goto,
        Command::ReallyGoto => Action::ReallyGoto,
        Command::YankWord => Action::YankWord,
        Command::YankLine => Action::YankLine,
        Command::YankContents => Action::YankContents,
    }
}

/// Return the action a command asks for.
pub fn command_action(command: Command) -> (a: Action)
    ensures
        a == action_of(command),
{
    match command {
        Command::Unfocus => Action::Unfocus,
        Command::Down => Action::Down,
        Command::ReallyDown => Action::ReallyDown,
        Command::ScrollDown => Action::ScrollDown,
        Command::Up => Action::Up,
        Command::ReallyUp => Action::ReallyUp,
        Command::ScrollUp => Action::ScrollUp,
        Command::Refresh => Action::Refresh,
        Command::Edit => Action::Edit,
        Command::Goto => Action::Goto,
        Command::ReallyGoto => Action::ReallyGoto,
        Command::YankWord => Action::YankWord,
        Command::YankLine => Action::YankLine,
        Command::YankContents => Action::YankContents,
    }
}

/// The keys the hits respond to, and the commands they type.
pub open spec fn bindings() -> Seq<(Seq<KeyPattern>, Command)> {
    seq![
        (seq![exactly(Key::Char('q'), control_mods())], Command::Unfocus),
        (seq![exactly(Key::Char('j'), no_mods())], Command::Down),
        (seq![exactly(Key::Char('J'), shift_mods())], Command::ReallyDown),
        (seq![exactly(Key::Char('j'), control_mods())], Command::ScrollDown),
        (seq![exactly(Key::Char('k'), no_mods())], Command::Up),
        (seq![exactly(Key::Char('K'), shift_mods())], Command::ReallyUp),
        (seq![exactly(Key::Char('k'), control_mods())], Command::ScrollUp),
        (seq![exactly(Key::Char('r'), no_mods())], Command::Refresh),
        (seq![anyhow(Key::Char('l'))], Command::Edit),
        (seq![anyhow(Key::CarriageReturn)], Command::Edit),
        (seq![exactly(Key::Char('g'), no_mods())], Command::Goto),
        (seq![exactly(Key::Char('G'), shift_mods())], Command::ReallyGoto),
        (
            seq![exactly(Key::Char('y'), no_mods()), exactly(Key::Char('E'), shift_mods())],
            Command::YankWord,
        ),
        (
            seq![exactly(Key::Char('y'), no_mods()), exactly(Key::Char('y'), no_mods())],
            Command::YankLine,
        ),
        (seq![exactly(Key::Char('Y'), shift_mods())], Command::YankContents),
    ]
}

/// A binding of a single key.
fn one(key: KeyPattern) -> (keys: Vec<KeyPattern>)
    ensures
        keys@ == seq![key],
{
    let mut keys = Vec::new();
    keys.push(key);
    keys
}

/// A binding of two keys, one after the other.
fn two(first: KeyPattern, second: KeyPattern) -> (keys: Vec<KeyPattern>)
    ensures
        keys@ == seq![first, second],
{
    let mut keys = Vec::new();
    keys.push(first);
    keys.push(second);
    keys
}

/// Return a parser for the keys the hits respond to.
pub fn command_parser() -> (p: CommandParser<Command>)
    ensures
        p.bindings() == bindings(),
        p.spec_pending() == Seq::<KeyEvent>::empty(),
{
    let none = KeyMods::none();
    let shift = KeyMods::shift();
    let control = KeyMods::control();
    let p = CommandParser::new()
        .bind(one(KeyPattern::exact(Key::Char('q'), control)), Command::Unfocus)
        .bind(one(KeyPattern::exact(Key::Char('j'), none)), Command::Down)
        .bind(one(KeyPattern::exact(Key::Char('J'), shift)), Command::ReallyDown)
        .bind(one(KeyPattern::exact(Key::Char('j'), control)), Command::ScrollDown)
        .bind(one(KeyPattern::exact(Key::Char('k'), none)), Command::Up)
        .bind(one(KeyPattern::exact(Key::Char('K'), shift)), Command::ReallyUp)
        .bind(one(KeyPattern::exact(Key::Char('k'), control)), Command::ScrollUp)
        .bind(one(KeyPattern::exact(Key::Char('r'), none)), Command::Refresh)
        .bind(one(KeyPattern::any(Key::Char('l'))), Command::Edit)
        .bind(one(KeyPattern::any(Key::CarriageReturn)), Command::Edit)
        .bind(one(KeyPattern::exact(Key::Char('g'), none)), Command::Goto)
        .bind(one(KeyPattern::exact(Key::Char('G'), shift)), Command::ReallyGoto)
        .bind(
            two(KeyPattern::exact(Key::Char('y'), none), KeyPattern::exact(Key::Char('E'), shift)),
            Command::YankWord,
        )
        .bind(
            two(KeyPattern::exact(Key::Char('y'), none), KeyPattern::exact(Key::Char('y'), none)),
            Command::YankLine,
        )
        .bind(one(KeyPattern::exact(Key::Char('Y'), shift)), Command::YankContents);
    assert(p.bindings() =~= bindings());
    p
}

/// An event for the hits.
pub enum Event {
    /// Search for a phrase.
    Search {
        /// The phrase.
        phrase: String,
    },
    /// The list was resized, with the row the selection is scaled to.
    Resize {
        /// The new size.
        size: Size,
        /// The row the selection is scaled to.
        scaled: usize,
    },
    /// A response from the daemon.
    Response(Response),
    /// Something from the terminal. A change of its size comes as a `Resize` instead, with the
    /// row the selection scales to.
    TermEvent(TermEvent),
}

/// The hits along with the keys pressed since the last command.
pub struct Contents {
    /// The state of the hits.
    state: State,
    /// Turns the keys pressed into commands.
    command_parser: CommandParser<Command>,
}

/// What the keys pressed come to, given the keys pressed before them since the last command.
pub open spec fn command_of(pending: Seq<KeyEvent>, key: KeyEvent) -> Option<Command> {
    match first_spelled(bindings(), pending.push(key)) {
        Some(i) => Some(bindings()[i].1),
        None => None,
    }
}

/// The action an event asks of the hits, if it is not a key which only starts a command or is
/// not one.
pub open spec fn event_action(pending: Seq<KeyEvent>, event: Event) -> Option<Action> {
    match event {
        Event::Search { phrase } => Some(Action::Search { phrase }),
        Event::Resize { size, scaled } => Some(Action::Resize { size, scaled }),
        Event::Response(response) => Some(Action::HandleResponse(response)),
        Event::TermEvent(TermEvent::KeyEvent(key)) => match command_of(pending, key) {
            Some(command) => Some(action_of(command)),
            None => None,
        },
        Event::TermEvent(_) => None,
    }
}

/// Whether the hits can handle an event: what it asks has to be something they can do.
pub open spec fn can_handle(v: ContentsView, pending: Seq<KeyEvent>, event: Event) -> bool {
    match event_action(pending, event) {
        Some(action) => can_perform(v, action),
        None => true,
    }
}

/// What handling an event does to the hits and to the keys pressed since the last command, and
/// what it gives back.
pub open spec fn handled(
    before: ContentsView,
    pending: Seq<KeyEvent>,
    after: ContentsView,
    pending_after: Seq<KeyEvent>,
    event: Event,
    r: Option<Effect>,
) -> bool {
    match event {
        Event::TermEvent(TermEvent::KeyEvent(key)) => {
            let keys = pending.push(key);
            match command_of(pending, key) {
                Some(command) => pending_after == Seq::<KeyEvent>::empty() && performed(
                    before,
                    after,
                    action_of(command),
                    r,
                ),
                None => if exists|i: int|
                    0 <= i < bindings().len() && crate::commands::begins(
                        #[trigger] bindings()[i].0,
                        keys,
                    ) {
                    pending_after == keys && after == before && r is None
                } else {
                    pending_after == Seq::<KeyEvent>::empty() && r == Some(Effect::Bell) && after
                        == ContentsView {
                        message: Some(MessageView::UnknownCommand(keys_text(keys))),
                        ..before.cleared()
                    }
                },
            }
        },
        Event::TermEvent(_) => pending_after == pending && after == before && r is None,
        _ => pending_after == pending && performed(
            before,
            after,
            event_action(pending, event).unwrap(),
            r,
        ),
    }
}

impl Contents {
    /// The state of the hits.
    pub closed spec fn view(&self) -> ContentsView {
        self.state.view()
    }

    /// The keys pressed since the last command.
    pub closed spec fn pending(&self) -> Seq<KeyEvent> {
        self.command_parser.spec_pending()
    }

    /// What the hits keep to.
    pub closed spec fn wf(&self) -> bool {
        self.state.view().wf() && self.command_parser.bindings() == bindings()
    }

    /// Return the hits for some properties.
    pub fn new(props: Props) -> (c: Contents)
        ensures
            c.wf(),
            c.view() == start_view(
                props.dir@,
                props.size,
                match props.phrase {
                    Some(p) => Some(p@),
                    None => None,
                },
                props.pending_request,
            ),
            c.pending() == Seq::<KeyEvent>::empty(),
    {
        Contents { state: State::from_props(props), command_parser: command_parser() }
    }

    /// Return the state of the hits.
    pub fn state(&self) -> (s: &State)
        ensures
            s.view() == self.view(),
    {
        &self.state
    }

    /// Return the keys pressed since the last command.
    pub fn pending_keys(&self) -> (keys: &Vec<KeyEvent>)
        ensures
            keys@ == self.pending(),
    {
        self.command_parser.pending()
    }

    /// Return whether the hits can handle an event: what it asks has to be something they can
    /// do.
    pub fn can_handle_event(&self, event: &Event) -> (b: bool)
        requires
            self.wf(),
        ensures
            b == can_handle(self.view(), self.pending(), *event),
    {
        match event {
            Event::Search { .. } => true,
            Event::Resize { size, scaled } => self.state.performable(&Action::Resize { size: *size, scaled: *scaled }),
            Event::Response(response) => self.state.response_ok(response),
            Event::TermEvent(TermEvent::KeyEvent(key)) => match self.command_parser.peek(*key) {
                Some(command) => self.state.performable(&command_action(command)),
                None => true,
            },
            Event::TermEvent(_) => true,
        }
    }

    /// Handle an event: what it asks is done, and keys which are not a command ring the bell.
    pub fn handle(&mut self, event: Event) -> (r: Option<Effect>)
        requires
            old(self).wf(),
            can_handle(old(self).view(), old(self).pending(), event),
        ensures
            final(self).wf(),
            handled(old(self).view(), old(self).pending(), final(self).view(), final(self).pending(), event, r),
    {
        let action: Action = match event {
            Event::Search { phrase } => Action::Search { phrase },
            Event::Resize { size, scaled } => Action::Resize { size, scaled },
            Event::Response(response) => Action::HandleResponse(response),
            Event::TermEvent(term_event) => match term_event {
                TermEvent::KeyEvent(key) => match self.command_parser.parse(key) {
                    Parsed::Command(command) => command_action(command),
                    Parsed::Pending => {
                        return None;
                    },
                    Parsed::Unknown(keys) => Action::UnknownCommand { keys: keys_string(&keys) },
                },
                _ => {
                    return None;
                },
            },
        };
        self.state.perform(action)
    }
}

/// The lines before a file are those of the rows before it, less the paths and blank rows.
pub proof fn lemma_lines_before(hits: Seq<FileHitView>, to: int)
    requires
        0 <= to <= hits.len(),
    ensures
        lines_before(hits, to) + 2 * to == rows_between(hits, 0, to),
        lines_before(hits, to) >= 0,
    decreases to,
{
    if to > 0 {
        lemma_lines_before(hits, to - 1);
    }
}

/// The index of the selected line among the lines of all the files, if a line is selected. A
/// selected line past the last line of its file counts as its last line.
pub open spec fn selected_line_hit(v: ContentsView) -> Option<int> {
    match (v.hit_number(), v.line_hit_number()) {
        (Some(h), Some(k)) => {
            let last = if v.count(h) > 0 { v.count(h) - 1 } else { 0 };
            Some(lines_before(v.hits, h) + if k < last { k } else { last })
        },
        _ => None,
    }
}

/// Where the selected line is among the lines of all the files, counted from one; a dash when
/// a file is selected instead of one of its lines, and nothing when there are no lines.
pub open spec fn position_text(v: ContentsView) -> Seq<char> {
    let total = lines_before(v.hits, v.hits.len() as int);
    if total == 0 {
        Seq::empty()
    } else {
        match selected_line_hit(v) {
            Some(selected) => if selected < total {
                decimal((selected + 1) as nat) + seq!['/'] + decimal(total as nat)
            } else {
                Seq::empty()
            },
            None => seq!['-', '/'] + decimal(total as nat),
        }
    }
}

/// How the search is going: how many files have been searched and how long that has taken, or
/// nothing when no search was started.
pub open spec fn progress_text(v: ContentsView) -> Seq<char> {
    if !v.searched {
        Seq::empty()
    } else {
        decimal(v.files_searched as nat) + " file"@ + (if v.files_searched == 1 {
            Seq::empty()
        } else {
            seq!['s']
        }) + " searched ("@ + seconds_text(v.duration as nat) + "s)"@
    }
}

/// What the footer shows on its left: the keys of a command being typed, or what the last
/// command had to say, or nothing while the contents of a file to copy are on their way, or how
/// the search is going.
pub open spec fn footer_text(v: ContentsView, pending: Seq<KeyEvent>) -> Seq<char> {
    if pending.len() > 0 {
        keys_text(pending)
    } else {
        match v.message {
            Some(m) => m.text(),
            None => if v.pending_yank is Some {
                Seq::empty()
            } else {
                progress_text(v)
            },
        }
    }
}

/// Add a piece of text to the end of a string.
fn push_str(s: &mut String, text: &str)
    ensures
        final(s)@ == old(s)@ + text@,
{
    s.append(text);
}

impl State {
    /// Return the number of lines of the files up to the `to`th.
    fn lines_up_to(&self, to: usize) -> (n: usize)
        requires
            self.view().wf(),
            to <= self.view().hits.len(),
        ensures
            n == lines_before(self.view().hits, to as int),
    {
        let ghost v = self.view();
        proof {
            lemma_lines_before(v.hits, to as int);
            lemma_rows_split(v.hits, 0, to as int);
            lemma_rows_from_nonnegative(v.hits, to as int);
        }
        let mut n: usize = 0;
        let mut i: usize = 0;
        while i < to
            invariant
                v == self.view(),
                i <= to <= v.hits.len(),
                n == lines_before(v.hits, i as int),
                lines_before(v.hits, to as int) <= usize::MAX,
            decreases to - i,
        {
            proof {
                lemma_lines_before(v.hits, i + 1);
                lemma_lines_before_grows(v.hits, i + 1, to as int);
            }
            n = n + self.count(i);
            i = i + 1;
        }
        n
    }

    /// Return how the search is going, or nothing when no search was started.
    pub fn progress(&self) -> (p: String)
        ensures
            p@ == progress_text(self.view()),
    {
        if !self.searched {
            let p = string_of("");
            proof {
                reveal_strlit("");
            }
            return p;
        }
        let mut p = decimal_string(self.files_searched as u64);
        push_str(&mut p, " file");
        if self.files_searched != 1 {
            push_char(&mut p, 's');
        }
        push_str(&mut p, " searched (");
        let seconds = seconds_string(self.duration);
        push_str(&mut p, seconds.as_str());
        push_str(&mut p, "s)");
        assert(p@ =~= progress_text(self.view()));
        p
    }

    /// Return where the selected line is among the lines of all the files.
    pub fn position_string(&self) -> (p: String)
        requires
            self.view().wf(),
        ensures
            p@ == position_text(self.view()),
    {
        let ghost v = self.view();
        let len = self.hits.len();
        assert(v.hits.len() == len);
        let total = self.lines_up_to(len);
        if total == 0 {
            let p = string_of("");
            proof {
                reveal_strlit("");
            }
            return p;
        }
        let selected: Option<usize> = match self.hit_number() {
            None => None,
            Some(h) => match self.line_selected {
                None => None,
                Some(x) => {
                    let n = self.count(h);
                    let last = if n > 0 { n - 1 } else { 0 };
                    // The index of the line, or the last line when that is further.
                    let k = if self.file_selected == 0 {
                        match self.line_offset {
                            Some(l) => if l >= last || x >= last - l { last } else { l + x },
                            None => if x < last { x } else { last },
                        }
                    } else if x < last {
                        x
                    } else {
                        last
                    };
                    let before = self.lines_up_to(h);
                    proof {
                        lemma_lines_before_grows(v.hits, h + 1, len as int);
                        lemma_lines_before(v.hits, h + 1);
                    }
                    Some(before + k)
                },
            },
        };
        match selected {
            Some(selected) => if selected < total {
                let mut p = decimal_string((selected + 1) as u64);
                push_char(&mut p, '/');
                let t = decimal_string(total as u64);
                push_str(&mut p, t.as_str());
                assert(p@ =~= position_text(v));
                p
            } else {
                let p = string_of("");
                proof {
                    reveal_strlit("");
                }
                p
            },
            None => {
                let mut p = string_of("-/");
                proof {
                    reveal_strlit("-/");
                }
                let t = decimal_string(total as u64);
                push_str(&mut p, t.as_str());
                assert(p@ =~= position_text(v));
                p
            },
        }
    }
}

/// The lines before a file are no more than those before a later one.
pub proof fn lemma_lines_before_grows(hits: Seq<FileHitView>, from: int, to: int)
    requires
        0 <= from <= to <= hits.len(),
    ensures
        lines_before(hits, from) <= lines_before(hits, to),
    decreases to - from,
{
    if from < to {
        lemma_lines_before_grows(hits, from, to - 1);
    }
}

impl Contents {
    /// Return what the footer shows on its left.
    pub fn footer_text(&self) -> (t: String)
        ensures
            t@ == footer_text(self.view(), self.pending()),
    {
        let pending = self.command_parser.pending();
        if pending.len() > 0 {
            return keys_string(pending);
        }
        match &self.state.message {
            Some(message) => message.text(),
            None => if self.state.yanking() {
                let t = string_of("");
                proof {
                    reveal_strlit("");
                }
                t
            } else {
                self.state.progress()
            },
        }
    }

    /// Return where the selected line is among the lines of all the files.
    pub fn position_string(&self) -> (p: String)
        requires
            self.wf(),
        ensures
            p@ == position_text(self.view()),
    {
        self.state.position_string()
    }
}


} // verus!
