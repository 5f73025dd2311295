//! The files the finder found: the paths of those whose names match the pattern, which one is
//! selected, and how far down the list is scrolled.

use vstd::prelude::*;

use crate::args::VimArgs;
use crate::browser::resized_place;
use crate::command_message::{CommandMessage, MessageView};
use crate::ids::is_random_uuid;
use crate::commands::{CommandParser, KeyPattern, Parsed, first_spelled, keys_string, keys_text};
use crate::keys::{Key, KeyEvent, KeyMods, Size, TermEvent, control_mods, no_mods, shift_mods};
use crate::paths::{file_name, parent, path_file_name, path_parent};
use crate::requests::{Request, RequestParams, Response, ResponseParams, find_files_request, get_file_contents_request};
use crate::footer::Info;
use crate::text::{decimal, decimal_string, decimal_string_wide, digit, push_char, string_of};

verus! {

/// The properties of the found files.
pub struct Props {
    /// The directory the files are found under.
    pub dir: String,
    /// The size they are shown at.
    pub size: Size,
}

/// An action on the found files.
pub enum Action {
    /// Stop looking at the files and go back to the pattern.
    Unfocus,
    /// Find the files whose names match a pattern.
    Find {
        /// The pattern.
        phrase: String,
    },
    /// The list was resized. What is selected stays at about the same height, which is worked
    /// out by whoever resizes it as the row it scales to.
    Resize {
        /// The new size.
        size: Size,
        /// The row the selected file is scaled to.
        scaled: usize,
    },
    /// Select the next file.
    Down,
    /// Select the last file.
    ReallyDown,
    /// Select the previous file.
    Up,
    /// Select the first file.
    ReallyUp,
    /// Find the files again.
    Refresh,
    /// Edit the selected file.
    Edit,
    /// Browse the directory of the selected file.
    Goto,
    /// Browse the directory of the selected file with the file selected.
    ReallyGoto,
    /// Copy the name of the selected file.
    YankName,
    /// Copy the path of the selected file.
    YankPath,
    /// Ask for the contents of the selected file, to copy them.
    YankContents,
    /// Take note that the keys pressed are not a command.
    UnknownCommand {
        /// How the keys are written.
        keys: String,
    },
    /// Handle a response from the daemon.
    HandleResponse(Response),
}

/// An effect of the found files.
pub enum Effect {
    /// Go back to the pattern.
    Unfocus,
    /// Make a request.
    Request(Request),
    /// Browse a directory.
    Goto {
        /// The directory.
        dir: String,
        /// The file to select in it, if any.
        file: Option<String>,
    },
    /// Edit a file.
    OpenVim(VimArgs),
    /// Copy some text to the clipboard.
    Copy {
        /// The text.
        contents: String,
    },
    /// Ring the bell.
    Bell,
}

/// What the found files are seen as.
pub struct ContentsView {
    /// The size they are shown at.
    pub size: Size,
    /// The directory the files are found under.
    pub dir: Seq<char>,
    /// The pattern last looked for, if any.
    pub phrase: Option<Seq<char>>,
    /// Whether the list is being looked at.
    pub focussed: bool,
    /// Whether any file was found, once that is known.
    pub hits: Option<bool>,
    /// The paths of the files found, in the order they came.
    pub entries: Seq<Seq<char>>,
    /// The row of the selected file, counted from the first row shown.
    pub selected: Option<usize>,
    /// How many files are scrolled past.
    pub offset: usize,
    /// The request for the files which is on its way, if any.
    pub pending: Option<u128>,
    /// The request for the contents of a file to copy, if any.
    pub pending_yank: Option<u128>,
    /// What the last command had to say for itself, if anything.
    pub message: Option<MessageView>,
    /// Whether a response to the request on its way has come yet.
    pub received_first: bool,
    /// How many files have been looked at.
    pub searched: usize,
    /// How long the finding has taken, in nanoseconds.
    pub duration: u128,
}

impl ContentsView {
    /// The index of the selected file among all of them, if one is selected.
    pub open spec fn entry_number(self) -> Option<int> {
        match self.selected {
            Some(s) => Some(self.offset + s),
            None => None,
        }
    }

    /// What the list keeps to: a file is selected whenever there are files, the selected one is
    /// one of them (or, when there are none, the first row is), and the list is only scrolled
    /// when there are enough files below to fill it.
    pub open spec fn wf(self) -> bool {
        &&& self.entries.len() > 0 ==> self.selected is Some
        &&& match self.selected {
            Some(s) => self.offset + s < self.entries.len() || (self.entries.len() == 0
                && self.offset == 0 && s == 0),
            None => true,
        }
        &&& self.offset > 0 ==> self.offset + self.size.rows <= self.entries.len()
    }

    /// The path of the selected file, if there is one.
    pub open spec fn entry(self) -> Option<Seq<char>> {
        match self.entry_number() {
            Some(n) if n < self.entries.len() => Some(self.entries[n]),
            _ => None,
        }
    }

    /// Whether the selected row is a file, when a row is selected.
    pub open spec fn entry_ok(self) -> bool {
        match self.entry_number() {
            Some(n) => n < self.entries.len(),
            None => true,
        }
    }

    /// The files as they are once a command has run, which clears what the last one said.
    pub open spec fn cleared(self) -> ContentsView {
        ContentsView { message: None, ..self }
    }
}

/// Whether an action reads the selected file, which is only done when a row that is a file is
/// selected.
pub open spec fn reads_entry(action: Action) -> bool {
    match action {
        Action::Edit | Action::Goto | Action::ReallyGoto | Action::YankName | Action::YankPath
        | Action::YankContents => true,
        _ => false,
    }
}

/// Whether an action can be performed: one which reads the selected file needs the selected row
/// to be a file.
pub open spec fn can_perform(v: ContentsView, action: Action) -> bool {
    reads_entry(action) ==> v.entry_ok()
}

/// Whether an effect copies some text.
pub open spec fn copies(r: Option<Effect>, contents: Seq<char>) -> bool {
    r matches Some(Effect::Copy { contents: c }) && c@ == contents
}

/// Whether a request asks for the files under a directory whose names match a pattern.
pub open spec fn finds(request: Request, dir: Seq<char>, phrase: Seq<char>) -> bool {
    &&& request.params matches RequestParams::FindFiles { dir: d, pattern } && d@ == dir && pattern@
        == phrase
    &&& is_random_uuid(request.uuid)
}

/// What starting to find the files matching a pattern does to the list.
pub open spec fn found(before: ContentsView, after: ContentsView, phrase: Seq<char>, r: Option<Effect>) -> bool {
    r matches Some(Effect::Request(request)) && finds(request, before.dir, phrase) && after
        == ContentsView {
        focussed: true,
        phrase: Some(phrase),
        received_first: false,
        searched: 0,
        duration: 0,
        pending: Some(request.uuid),
        ..before
    }
}

/// Browsing the directory of the selected file, with the file selected or not.
pub open spec fn goes_to(v: ContentsView, really: bool, r: Option<Effect>) -> bool {
    match v.entry() {
        Some(path) => match path_parent(path) {
            Some(dir) => r matches Some(Effect::Goto { dir: d, file }) && d@ == dir && match file {
                Some(f) => really && f@ == path,
                None => !really,
            },
            None => r is None,
        },
        None => r is None,
    }
}

/// The message of a command which ran.
pub open spec fn ran(what: Seq<char>) -> Option<MessageView> {
    Some(MessageView::Ran(what))
}

/// What performing an action does to the found files, and what it gives back.
pub open spec fn performed(before: ContentsView, after: ContentsView, action: Action, r: Option<Effect>) -> bool {
    let w = before.cleared();
    match action {
        Action::Unfocus => r == Some(Effect::Unfocus) && after == ContentsView { focussed: false, ..w },
        Action::Find { phrase } => found(w, after, phrase@, r),
        Action::Resize { size, scaled } => r is None && match w.selected {
            Some(s) => {
                let (selected, offset) = resized_place(
                    w.offset + s,
                    w.entries.len() as int,
                    size.rows as int,
                    scaled as int,
                );
                after == ContentsView {
                    selected: Some(selected as usize),
                    offset: offset as usize,
                    size,
                    ..w
                }
            },
            None => after == ContentsView { size, ..w },
        },
        Action::Down => r is None && if w.entries.len() == 0 || w.size.rows == 0
            || w.entry_number().unwrap() >= w.entries.len() - 1 {
            after == w
        } else if w.selected.unwrap() < w.size.rows - 1 {
            after == ContentsView { selected: Some((w.selected.unwrap() + 1) as usize), ..w }
        } else {
            after == ContentsView { offset: (w.offset + 1) as usize, ..w }
        },
        Action::ReallyDown => r is None && if w.entries.len() == 0 || w.size.rows == 0 {
            after == w
        } else if w.entries.len() > w.size.rows {
            after == ContentsView {
                offset: (w.entries.len() - w.size.rows) as usize,
                selected: Some((w.size.rows - 1) as usize),
                ..w
            }
        } else {
            after == ContentsView { selected: Some((w.entries.len() - 1) as usize), ..w }
        },
        Action::Up => r is None && match w.selected {
            Some(s) => if s > 0 {
                after == ContentsView { selected: Some((s - 1) as usize), ..w }
            } else {
                after == ContentsView {
                    offset: if w.offset > 0 { (w.offset - 1) as usize } else { 0 },
                    ..w
                }
            },
            None => after == w,
        },
        Action::ReallyUp => r is None && after == ContentsView { offset: 0, selected: Some(0), ..w },
        Action::Refresh => match w.phrase {
            Some(phrase) => found(w, after, phrase, r),
            None => r is None && after == w,
        },
        Action::Edit => after == w && match w.entry() {
            Some(path) => r matches Some(Effect::OpenVim(args)) && args.path matches Some(p) && p@
                == path && args.line is None && args.column is None,
            None => r is None,
        },
        Action::Goto => after == w && goes_to(w, false, r),
        Action::ReallyGoto => after == w && goes_to(w, true, r),
        Action::YankName => match w.entry() {
            Some(path) => match path_file_name(path) {
                Some(name) => copies(r, name) && after == ContentsView {
                    message: ran("yanked file name"@),
                    ..w
                },
                None => r is None && after == w,
            },
            None => r is None && after == w,
        },
        Action::YankPath => match w.entry() {
            Some(path) => copies(r, path) && after == ContentsView {
                message: ran("yanked path"@),
                ..w
            },
            None => r is None && after == w,
        },
        Action::YankContents => match w.entry() {
            Some(path) => r matches Some(Effect::Request(request)) && request.params
                matches RequestParams::GetFileContents { path: p } && p@ == path && is_random_uuid(
                request.uuid,
            ) && after == ContentsView { pending_yank: Some(request.uuid), ..w },
            None => r is None && after == w,
        },
        Action::UnknownCommand { keys } => r == Some(Effect::Bell) && after == ContentsView {
            message: Some(MessageView::UnknownCommand(keys@)),
            ..w
        },
        Action::HandleResponse(response) => responded(before, after, response, r),
    }
}

/// What handling a response does to the found files, and what it gives back.
///
/// The contents of a file to copy are copied, or why they could not be read is said. Files found
/// for the pattern being looked for are added to the list, which is emptied by the first response
/// to each request; a response with no files in it is only news of how the finding is going.
pub open spec fn responded(before: ContentsView, after: ContentsView, response: Response, r: Option<Effect>) -> bool {
    if before.pending_yank == Some(response.uuid) {
        let v = ContentsView { pending_yank: None, ..before };
        match response.params {
            ResponseParams::GetFileContents { result } => match result {
                Ok(contents) => copies(r, contents@) && after == ContentsView {
                    message: ran("yanked file contents"@),
                    ..v
                },
                Err(error) => r == Some(Effect::Bell) && after == ContentsView {
                    message: Some(MessageView::Failed("failed to read the file contents: "@ + error@)),
                    ..v
                },
            },
            _ => r == Some(Effect::Bell) && after == v,
        }
    } else if before.pending != Some(response.uuid) {
        r is None && after == before
    } else {
        let v = if before.received_first {
            before
        } else {
            ContentsView {
                hits: None,
                entries: Seq::empty(),
                selected: None,
                offset: 0,
                ..before
            }
        };
        let v = ContentsView { received_first: true, ..v };
        match response.params {
            ResponseParams::FindFiles { entries, searched, duration } => {
                let v = ContentsView {
                    entries: v.entries + paths_of(entries@),
                    searched,
                    duration,
                    pending: if response.last { None } else { v.pending },
                    ..v
                };
                if v.entries.len() == 0 {
                    if response.last {
                        r == Some(Effect::Unfocus) && after == ContentsView {
                            hits: Some(false),
                            selected: None,
                            ..v
                        }
                    } else {
                        r is None && after == v
                    }
                } else {
                    r is None && after == ContentsView {
                        hits: Some(true),
                        selected: if v.selected is None { Some(0) } else { v.selected },
                        ..v
                    }
                }
            },
            _ => r is None && after == v,
        }
    }
}

/// The state of the found files.
pub struct State {
    /// The size they are shown at.
    size: Size,
    /// The directory the files are found under.
    dir: String,
    /// The pattern last looked for, if any.
    phrase: Option<String>,
    /// Whether the list is being looked at.
    focussed: bool,
    /// Whether any file was found, once that is known.
    hits: Option<bool>,
    /// The paths of the files found, in the order they came.
    entries: Vec<String>,
    /// The row of the selected file, counted from the first row shown.
    selected: Option<usize>,
    /// How many files are scrolled past.
    offset: usize,
    /// The request for the files which is on its way, if any.
    pending_request: Option<u128>,
    /// The request for the contents of a file to copy, if any.
    pending_yank_request: Option<u128>,
    /// What the last command had to say for itself, if anything.
    message: Option<CommandMessage>,
    /// Whether a response to the request on its way has come yet.
    received_first_resp: bool,
    /// How many files have been looked at.
    files_searched: usize,
    /// How long the finding has taken, in nanoseconds.
    duration: u128,
}

/// `K` selects the first file found.
pub proof fn law_big_k_selects_the_first_hit(before: ContentsView, after: ContentsView, r: Option<Effect>)
    requires
        performed(before, after, Action::ReallyUp, r),
    ensures
        after.entry_number() == Some(0int),
        r is None,
{
}

/// `J` selects the last file found, when there are files and a row to show them on.
pub proof fn law_big_j_selects_the_last_hit(before: ContentsView, after: ContentsView, r: Option<Effect>)
    requires
        before.wf(),
        performed(before, after, Action::ReallyDown, r),
        0 < before.entries.len() <= usize::MAX,
        before.size.rows > 0,
    ensures
        after.entry_number() == Some(before.entries.len() - 1),
        r is None,
{
}

/// `k` takes the selection back to the file it was on before `j`, when `j` had a file below to
/// go to and the selection was on a row of the list.
pub proof fn law_up_undoes_down_among_hits(
    a: ContentsView,
    b: ContentsView,
    c: ContentsView,
    r1: Option<Effect>,
    r2: Option<Effect>,
)
    requires
        performed(a, b, Action::Down, r1),
        performed(b, c, Action::Up, r2),
        a.selected matches Some(s) && s < a.size.rows,
        a.entry_number().unwrap() < a.entries.len() - 1,
        a.entries.len() <= usize::MAX,
    ensures
        c.entry_number() == a.entry_number(),
{
}

/// The found files before anything is looked for.
pub open spec fn start_view(dir: Seq<char>, size: Size) -> ContentsView {
    ContentsView {
        size,
        dir,
        phrase: None,
        focussed: false,
        hits: None,
        entries: Seq::empty(),
        selected: None,
        offset: 0,
        pending: None,
        pending_yank: None,
        message: None,
        received_first: false,
        searched: 0,
        duration: 0,
    }
}

/// The text of each of some strings.
pub open spec fn paths_of(entries: Seq<String>) -> Seq<Seq<char>> {
    entries.map_values(|e: String| e@)
}

/// The view of a message which may not be there.
pub open spec fn message_view(m: Option<CommandMessage>) -> Option<MessageView> {
    match m {
        Some(m) => Some(m@),
        None => None,
    }
}

impl State {
    /// What the found files are seen as.
    pub closed spec fn view(&self) -> ContentsView {
        ContentsView {
            size: self.size,
            dir: self.dir@,
            phrase: match self.phrase {
                Some(p) => Some(p@),
                None => None,
            },
            focussed: self.focussed,
            hits: self.hits,
            entries: paths_of(self.entries@),
            selected: self.selected,
            offset: self.offset,
            pending: self.pending_request,
            pending_yank: self.pending_yank_request,
            message: message_view(self.message),
            received_first: self.received_first_resp,
            searched: self.files_searched,
            duration: self.duration,
        }
    }

    /// Return the state of a list in which nothing has been looked for yet.
    pub fn from_props(props: Props) -> (s: State)
        ensures
            s.view() == start_view(props.dir@, props.size),
            s.view().wf(),
    {
        let s = State {
            size: props.size,
            dir: props.dir,
            phrase: None,
            focussed: false,
            hits: None,
            entries: Vec::new(),
            selected: None,
            offset: 0,
            pending_request: None,
            pending_yank_request: None,
            message: None,
            received_first_resp: false,
            files_searched: 0,
            duration: 0,
        };
        assert(s.view().entries =~= Seq::<Seq<char>>::empty());
        s
    }

    /// Return the directory the files are found under.
    pub fn dir(&self) -> (d: &String)
        ensures
            d@ == self.view().dir,
    {
        &self.dir
    }

    /// Return the paths of the files found.
    pub fn entries(&self) -> (e: &Vec<String>)
        ensures
            paths_of(e@) == self.view().entries,
    {
        &self.entries
    }

    /// Return whether the list is being looked at.
    pub fn focussed(&self) -> (f: bool)
        ensures
            f == self.view().focussed,
    {
        self.focussed
    }

    /// Return whether any file was found, once that is known.
    pub fn hits(&self) -> (h: Option<bool>)
        ensures
            h == self.view().hits,
    {
        self.hits
    }

    /// Return the row of the selected file.
    pub fn selected(&self) -> (s: Option<usize>)
        ensures
            s == self.view().selected,
    {
        self.selected
    }

    /// Return how many files are scrolled past.
    pub fn offset(&self) -> (o: usize)
        ensures
            o == self.view().offset,
    {
        self.offset
    }

    /// Return the size the list is shown at.
    pub fn size(&self) -> (s: Size)
        ensures
            s == self.view().size,
    {
        self.size
    }

    /// Return what the last command had to say for itself, if anything.
    pub fn message(&self) -> (m: &Option<CommandMessage>)
        ensures
            message_view(*m) == self.view().message,
    {
        &self.message
    }

    /// Return whether the contents of a file are being read to be copied.
    pub fn yanking(&self) -> (y: bool)
        ensures
            y == self.view().pending_yank is Some,
    {
        self.pending_yank_request.is_some()
    }

    /// Return the index of the selected file among all of them, if one is selected.
    pub fn entry_number(&self) -> (n: Option<usize>)
        requires
            self.view().wf(),
        ensures
            match n {
                Some(n) => self.view().entry_number() == Some(n as int),
                None => self.view().entry_number() is None,
            },
    {
        let count = self.entries.len();
        assert(self.view().entries.len() == count);
        match self.selected {
            Some(selected) => Some(self.offset + selected),
            None => None,
        }
    }

    /// Return the path of the selected file, if there is one.
    fn entry_path(&self) -> (p: Option<&String>)
        requires
            self.view().wf(),
            self.view().entry_ok(),
        ensures
            match p {
                Some(p) => self.view().entry() == Some(p@),
                None => self.view().entry() is None,
            },
    {
        match self.entry_number() {
            Some(n) => Some(&self.entries[n]),
            None => None,
        }
    }

    /// Return which of the files are shown: those from the scroll position down, as many as
    /// there are rows, as a start and an end.
    pub fn visible_range(&self) -> (r: (usize, usize))
        requires
            self.view().wf(),
        ensures
            r.0 == (if self.view().entries.len() == 0 { 0 } else { self.view().offset as int }),
            r.1 == (if self.view().entries.len() == 0 {
                0
            } else if self.view().offset + self.view().size.rows < self.view().entries.len() {
                self.view().offset + self.view().size.rows
            } else {
                self.view().entries.len() as int
            }),
    {
        if self.entries.len() == 0 {
            return (0, 0);
        }
        let end = if self.size.rows < self.entries.len() - self.offset {
            self.offset + self.size.rows
        } else {
            self.entries.len()
        };
        (self.offset, end)
    }

    /// Start finding the files matching a pattern.
    fn find(&mut self, phrase: String) -> (r: Option<Effect>)
        requires
            old(self).view().wf(),
        ensures
            final(self).view().wf(),
            found(old(self).view(), final(self).view(), phrase@, r),
    {
        self.focussed = true;
        self.phrase = Some(phrase.clone());
        self.received_first_resp = false;
        self.files_searched = 0;
        self.duration = 0;
        let request: Request = find_files_request(self.dir.clone(), phrase);
        self.pending_request = Some(request.uuid());
        Some(Effect::Request(request))
    }

    /// The files resized: the same file stays selected, at the row it was scaled to, unless the
    /// list would then end above the bottom.
    fn resize(&mut self, size: Size, scaled: usize) -> (r: Option<Effect>)
        requires
            old(self).view().wf(),
            old(self).view().message is None,
        ensures
            final(self).view().wf(),
            performed(old(self).view(), final(self).view(), Action::Resize { size, scaled }, r),
    {
        let count = self.entries.len();
        assert(self.view().entries.len() == count);
        if let Some(selected) = self.selected {
            let entry_number = self.offset + selected;
            if entry_number <= scaled {
                self.offset = 0;
                self.selected = Some(entry_number);
            } else {
                let mut new_offset = entry_number - scaled;
                let mut new_selected = scaled;
                if count - new_offset < size.rows {
                    let bottom = if count > size.rows { count - size.rows } else { 0 };
                    new_selected = new_selected + (new_offset - bottom);
                    new_offset = bottom;
                }
                self.offset = new_offset;
                self.selected = Some(new_selected);
            }
        }
        self.size = size;
        None
    }

    /// Select the next file, scrolling down when the selected one is on the bottom row.
    fn down(&mut self) -> (r: Option<Effect>)
        requires
            old(self).view().wf(),
            old(self).view().message is None,
        ensures
            final(self).view().wf(),
            performed(old(self).view(), final(self).view(), Action::Down, r),
    {
        let count = self.entries.len();
        assert(self.view().entries.len() == count);
        // There is nowhere to move to if none of the files are shown, which happens when the
        // terminal is too short for anything but the directory, the pattern and the footer.
        if count == 0 || self.size.rows == 0 {
            return None;
        }
        let selected = self.selected.unwrap();
        let entry_number = self.offset + selected;
        if entry_number >= count - 1 {
            return None;
        }
        if selected < self.size.rows - 1 {
            self.selected = Some(selected + 1);
        } else {
            self.offset = self.offset + 1;
        }
        None
    }

    /// Select the last file, scrolling so that it is on the bottom row when they do not all fit.
    fn really_down(&mut self) -> (r: Option<Effect>)
        requires
            old(self).view().wf(),
            old(self).view().message is None,
        ensures
            final(self).view().wf(),
            performed(old(self).view(), final(self).view(), Action::ReallyDown, r),
    {
        let count = self.entries.len();
        assert(self.view().entries.len() == count);
        if count == 0 || self.size.rows == 0 {
            return None;
        }
        if count > self.size.rows {
            self.offset = count - self.size.rows;
            self.selected = Some(self.size.rows - 1);
        } else {
            self.selected = Some(count - 1);
        }
        None
    }

    /// Select the previous file, scrolling up when the selected one is on the top row.
    fn up(&mut self) -> (r: Option<Effect>)
        requires
            old(self).view().wf(),
            old(self).view().message is None,
        ensures
            final(self).view().wf(),
            performed(old(self).view(), final(self).view(), Action::Up, r),
    {
        if let Some(selected) = self.selected {
            if selected > 0 {
                self.selected = Some(selected - 1);
            } else {
                self.offset = if self.offset > 0 { self.offset - 1 } else { 0 };
            }
        }
        None
    }

    /// Select the first file, scrolled to the top.
    fn really_up(&mut self) -> (r: Option<Effect>)
        requires
            old(self).view().wf(),
            old(self).view().message is None,
        ensures
            final(self).view().wf(),
            performed(old(self).view(), final(self).view(), Action::ReallyUp, r),
    {
        self.offset = 0;
        self.selected = Some(0);
        None
    }

    /// Browse the directory of the selected file, with the file selected or not.
    fn go_to(&self, really: bool) -> (r: Option<Effect>)
        requires
            self.view().wf(),
            self.view().entry_ok(),
        ensures
            goes_to(self.view(), really, r),
    {
        let path: &String = match self.entry_path() {
            Some(path) => path,
            None => {
                return None;
            },
        };
        // A file which was found is always in some directory; a path without one gives nothing
        // to go to.
        let dir: String = match parent(path.as_str()) {
            Some(dir) => dir,
            None => {
                return None;
            },
        };
        let file: Option<String> = if really {
            Some(path.clone())
        } else {
            None
        };
        Some(Effect::Goto { dir, file })
    }

    /// Ask for the contents of the selected file, to copy them once they come.
    fn yank_contents(&mut self) -> (r: Option<Effect>)
        requires
            old(self).view().wf(),
            old(self).view().entry_ok(),
            old(self).view().message is None,
        ensures
            final(self).view().wf(),
            performed(old(self).view(), final(self).view(), Action::YankContents, r),
    {
        let path: String = match self.entry_path() {
            Some(path) => path.clone(),
            None => {
                return None;
            },
        };
        let request: Request = get_file_contents_request(path);
        self.pending_yank_request = Some(request.uuid());
        Some(Effect::Request(request))
    }

    /// Take in a response to the request for the contents of a file to copy.
    fn handle_yank_response(&mut self, response: Response) -> (r: Option<Effect>)
        requires
            old(self).view().wf(),
            old(self).view().pending_yank == Some(response.uuid),
        ensures
            final(self).view().wf(),
            responded(old(self).view(), final(self).view(), response, r),
    {
        self.pending_yank_request = None;
        match response.params {
            ResponseParams::GetFileContents { result } => match result {
                Ok(contents) => {
                    let message = string_of("yanked file contents");
                    proof {
                        reveal_strlit("yanked file contents");
                    }
                    self.message = Some(CommandMessage::Ran(message));
                    Some(Effect::Copy { contents })
                },
                Err(error) => {
                    let mut why = string_of("failed to read the file contents: ");
                    proof {
                        reveal_strlit("failed to read the file contents: ");
                    }
                    why.append(error.as_str());
                    self.message = Some(CommandMessage::Failed(why));
                    Some(Effect::Bell)
                },
            },
            _ => Some(Effect::Bell),
        }
    }

    /// Take in a response to the request for the files.
    fn handle_response(&mut self, response: Response) -> (r: Option<Effect>)
        requires
            old(self).view().wf(),
        ensures
            final(self).view().wf(),
            responded(old(self).view(), final(self).view(), response, r),
    {
        let ghost start = self.view();
        if Some(response.uuid) == self.pending_yank_request {
            return self.handle_yank_response(response);
        }
        let pending: u128 = match self.pending_request {
            Some(pending) => pending,
            None => {
                return None;
            },
        };
        if response.uuid != pending {
            return None;
        }
        if !self.received_first_resp {
            self.hits = None;
            self.entries = Vec::new();
            self.selected = None;
            self.offset = 0;
            assert(paths_of(self.entries@) =~= Seq::<Seq<char>>::empty());
        }
        self.received_first_resp = true;
        let ghost v = self.view();
        assert(v.entries.len() == self.entries@.len());
        assert(v == ContentsView {
            received_first: true,
            ..(if start.received_first {
                start
            } else {
                ContentsView { hits: None, entries: Seq::empty(), selected: None, offset: 0, ..start }
            })
        });
        match response.params {
            ResponseParams::FindFiles { entries, searched, duration } => {
                let mut i: usize = 0;
                while i < entries.len()
                    invariant
                        i <= entries.len(),
                        self.view() == (ContentsView {
                            entries: v.entries + paths_of(entries@.take(i as int)),
                            ..v
                        }),
                    decreases entries.len() - i,
                {
                    let ghost before = self.entries@;
                    let entry = entries[i].clone();
                    self.entries.push(entry);
                    assert(self.entries@ == before.push(entry));
                    assert(paths_of(self.entries@) =~= paths_of(before).push(entry@));
                    assert(paths_of(entries@.take(i + 1)) =~= paths_of(entries@.take(i as int)).push(entries@[i as int]@));
                    assert(paths_of(self.entries@) =~= v.entries + paths_of(entries@.take(i + 1)));
                    i = i + 1;
                }
                assert(entries@.take(entries.len() as int) =~= entries@);
                self.files_searched = searched;
                self.duration = duration;
                if response.last {
                    self.pending_request = None;
                }
                let count = self.entries.len();
                assert(self.view().entries.len() == count);
                // A response which does not have any files is only news of how the finding is
                // going, so nothing is shown yet unless there is nothing left to find.
                if count == 0 {
                    if response.last {
                        self.hits = Some(false);
                        self.selected = None;
                        return Some(Effect::Unfocus);
                    }
                    return None;
                }
                self.hits = Some(true);
                if self.selected.is_none() {
                    self.selected = Some(0);
                }
                None
            },
            _ => None,
        }
    }

    /// Perform an action. Running a command clears what the last one had to say; responses are
    /// not commands, so they leave it alone.
    pub fn perform(&mut self, action: Action) -> (r: Option<Effect>)
        requires
            old(self).view().wf(),
            can_perform(old(self).view(), action),
        ensures
            final(self).view().wf(),
            performed(old(self).view(), final(self).view(), action, r),
    {
        if let Action::HandleResponse(response) = action {
            return self.handle_response(response);
        }
        self.message = None;
        match action {
            Action::Unfocus => {
                self.focussed = false;
                Some(Effect::Unfocus)
            },
            Action::Find { phrase } => self.find(phrase),
            Action::Resize { size, scaled } => self.resize(size, scaled),
            Action::Down => self.down(),
            Action::ReallyDown => self.really_down(),
            Action::Up => self.up(),
            Action::ReallyUp => self.really_up(),
            Action::Refresh => match self.phrase.clone() {
                Some(phrase) => self.find(phrase),
                None => None,
            },
            Action::Edit => match self.entry_path() {
                Some(path) => Some(
                    Effect::OpenVim(VimArgs { path: Some(path.clone()), line: None, column: None }),
                ),
                None => None,
            },
            Action::Goto => self.go_to(false),
            Action::ReallyGoto => self.go_to(true),
            Action::YankName => {
                let name: Option<String> = match self.entry_path() {
                    Some(path) => file_name(path.as_str()),
                    None => None,
                };
                match name {
                    Some(name) => {
                        let message = string_of("yanked file name");
                        proof {
                            reveal_strlit("yanked file name");
                        }
                        self.message = Some(CommandMessage::Ran(message));
                        Some(Effect::Copy { contents: name })
                    },
                    None => None,
                }
            },
            Action::YankPath => match self.entry_path() {
                Some(path) => {
                    let contents = path.clone();
                    let message = string_of("yanked path");
                    proof {
                        reveal_strlit("yanked path");
                    }
                    self.message = Some(CommandMessage::Ran(message));
                    Some(Effect::Copy { contents })
                },
                None => None,
            },
            Action::YankContents => self.yank_contents(),
            Action::UnknownCommand { keys } => {
                self.message = Some(CommandMessage::UnknownCommand(keys));
                Some(Effect::Bell)
            },
            Action::HandleResponse(_) => None,
        }
    }
}

} // verus!

verus! {

/// A command which keys can be bound to.
#[derive(Clone, Copy, Debug, PartialEq, Eq, Structural)]
pub enum Command {
    /// Go back to the pattern.
    Unfocus,
    /// Select the next file.
    Down,
    /// Select the last file.
    ReallyDown,
    /// Select the previous file.
    Up,
    /// Select the first file.
    ReallyUp,
    /// Find the files again.
    Refresh,
    /// Edit the selected file.
    Edit,
    /// Browse the directory of the selected file.
    Goto,
    /// Browse the directory of the selected file with the file selected.
    ReallyGoto,
    /// Copy the name of the selected file.
    YankName,
    /// Copy the path of the selected file.
    YankPath,
    /// Copy the contents of the selected file.
    YankContents,
}

/// The action a command asks for.
pub open spec fn action_of(command: Command) -> Action {
    match command {
        Command::Unfocus => Action::Unfocus,
        Command::Down => Action::Down,
        Command::ReallyDown => Action::ReallyDown,
        Command::Up => Action::Up,
        Command::ReallyUp => Action::ReallyUp,
        Command::Refresh => Action::Refresh,
        Command::Edit => Action::Edit,
        Command::Goto => Action::Goto,
        Command::ReallyGoto => Action::ReallyGoto,
        Command::YankName => Action::YankName,
        Command::YankPath => Action::YankPath,
        Command::YankContents => Action::YankContents,
    }
}

/// Return the action a command asks for.
pub fn command_action(command: Command) -> (a: Action)
    ensures
        a == action_of(command),
{
    match command {
        Command::Unfocus => Action::Unfocus,
        Command::Down => Action::Down,
        Command::ReallyDown => Action::ReallyDown,
        Command::Up => Action::Up,
        Command::ReallyUp => Action::ReallyUp,
        Command::Refresh => Action::Refresh,
        Command::Edit => Action::Edit,
        Command::Goto => Action::Goto,
        Command::ReallyGoto => Action::ReallyGoto,
        Command::YankName => Action::YankName,
        Command::YankPath => Action::YankPath,
        Command::YankContents => Action::YankContents,
    }
}

/// A key pressed with exactly the given modifiers.
pub open spec fn exactly(key: Key, mods: KeyMods) -> KeyPattern {
    KeyPattern { key, mods: Some(mods) }
}

/// A key pressed with any modifiers.
pub open spec fn anyhow(key: Key) -> KeyPattern {
    KeyPattern { key, mods: None }
}

/// The keys the found files respond to, and the commands they type.
pub open spec fn bindings() -> Seq<(Seq<KeyPattern>, Command)> {
    seq![
        (seq![exactly(Key::Char('q'), control_mods())], Command::Unfocus),
        (seq![exactly(Key::Char('j'), no_mods())], Command::Down),
        (seq![exactly(Key::Down, no_mods())], Command::Down),
        (seq![exactly(Key::Char('J'), shift_mods())], Command::ReallyDown),
        (seq![exactly(Key::End, no_mods())], Command::ReallyDown),
        (seq![exactly(Key::Char('k'), no_mods())], Command::Up),
        (seq![exactly(Key::Up, no_mods())], Command::Up),
        (seq![exactly(Key::Char('K'), shift_mods())], Command::ReallyUp),
        (seq![exactly(Key::Home, no_mods())], Command::ReallyUp),
        (seq![exactly(Key::Char('r'), no_mods())], Command::Refresh),
        (seq![anyhow(Key::Char('l'))], Command::Edit),
        (seq![anyhow(Key::CarriageReturn)], Command::Edit),
        (seq![exactly(Key::Right, no_mods())], Command::Edit),
        (seq![exactly(Key::Char('g'), no_mods())], Command::Goto),
        (seq![exactly(Key::Char('G'), shift_mods())], Command::ReallyGoto),
        (
            seq![exactly(Key::Char('y'), no_mods()), exactly(Key::Char('E'), shift_mods())],
            Command::YankName,
        ),
        (
            seq![exactly(Key::Char('y'), no_mods()), exactly(Key::Char('y'), no_mods())],
            Command::YankPath,
        ),
        (seq![exactly(Key::Char('Y'), shift_mods())], Command::YankContents),
    ]
}

/// A binding of a single key.
fn one(key: KeyPattern) -> (keys: Vec<KeyPattern>)
    ensures
        keys@ == seq![key],
{
    let mut keys = Vec::new();
    keys.push(key);
    keys
}

/// A binding of two keys, one after the other.
fn two(first: KeyPattern, second: KeyPattern) -> (keys: Vec<KeyPattern>)
    ensures
        keys@ == seq![first, second],
{
    let mut keys = Vec::new();
    keys.push(first);
    keys.push(second);
    keys
}

/// Return a parser for the keys the found files respond to.
pub fn command_parser() -> (p: CommandParser<Command>)
    ensures
        p.bindings() == bindings(),
        p.spec_pending() == Seq::<KeyEvent>::empty(),
{
    let none = KeyMods::none();
    let shift = KeyMods::shift();
    let control = KeyMods::control();
    let p = CommandParser::new()
        .bind(one(KeyPattern::exact(Key::Char('q'), control)), Command::Unfocus)
        .bind(one(KeyPattern::exact(Key::Char('j'), none)), Command::Down)
        .bind(one(KeyPattern::exact(Key::Down, none)), Command::Down)
        .bind(one(KeyPattern::exact(Key::Char('J'), shift)), Command::ReallyDown)
        .bind(one(KeyPattern::exact(Key::End, none)), Command::ReallyDown)
        .bind(one(KeyPattern::exact(Key::Char('k'), none)), Command::Up)
        .bind(one(KeyPattern::exact(Key::Up, none)), Command::Up)
        .bind(one(KeyPattern::exact(Key::Char('K'), shift)), Command::ReallyUp)
        .bind(one(KeyPattern::exact(Key::Home, none)), Command::ReallyUp)
        .bind(one(KeyPattern::exact(Key::Char('r'), none)), Command::Refresh)
        .bind(one(KeyPattern::any(Key::Char('l'))), Command::Edit)
        .bind(one(KeyPattern::any(Key::CarriageReturn)), Command::Edit)
        .bind(one(KeyPattern::exact(Key::Right, none)), Command::Edit)
        .bind(one(KeyPattern::exact(Key::Char('g'), none)), Command::Goto)
        .bind(one(KeyPattern::exact(Key::Char('G'), shift)), Command::ReallyGoto)
        .bind(
            two(KeyPattern::exact(Key::Char('y'), none), KeyPattern::exact(Key::Char('E'), shift)),
            Command::YankName,
        )
        .bind(
            two(KeyPattern::exact(Key::Char('y'), none), KeyPattern::exact(Key::Char('y'), none)),
            Command::YankPath,
        )
        .bind(one(KeyPattern::exact(Key::Char('Y'), shift)), Command::YankContents);
    assert(p.bindings() =~= bindings());
    p
}

/// An event for the found files.
pub enum Event {
    /// Find the files whose names match a pattern.
    Find {
        /// The pattern.
        phrase: String,
    },
    /// The list was resized, with the row the selected file is scaled to.
    Resize {
        /// The new size.
        size: Size,
        /// The row the selected file is scaled to.
        scaled: usize,
    },
    /// A response from the daemon.
    Response(Response),
    /// Something from the terminal. A change of its size comes as a `Resize` instead, with the
    /// row the selection scales to.
    TermEvent(TermEvent),
}

/// The found files along with the keys pressed since the last command.
pub struct Contents {
    /// The state of the found files.
    state: State,
    /// Turns the keys pressed into commands.
    command_parser: CommandParser<Command>,
}

/// What the keys pressed come to, given the keys pressed before them since the last command: a
/// command, the start of one, or neither.
pub open spec fn command_of(pending: Seq<KeyEvent>, key: KeyEvent) -> Option<Command> {
    match first_spelled(bindings(), pending.push(key)) {
        Some(i) => Some(bindings()[i].1),
        None => None,
    }
}

/// Whether the found files can handle an event: a key which completes a command that reads the
/// selected file needs the selected row to be a file.
pub open spec fn can_handle(v: ContentsView, pending: Seq<KeyEvent>, event: Event) -> bool {
    match event {
        Event::TermEvent(TermEvent::KeyEvent(key)) => match command_of(pending, key) {
            Some(command) => can_perform(v, action_of(command)),
            None => true,
        },
        _ => true,
    }
}

/// What handling an event does to the found files and to the keys pressed since the last
/// command, and what it gives back.
pub open spec fn handled(
    before: ContentsView,
    pending: Seq<KeyEvent>,
    after: ContentsView,
    pending_after: Seq<KeyEvent>,
    event: Event,
    r: Option<Effect>,
) -> bool {
    match event {
        Event::Find { phrase } => pending_after == pending && performed(
            before,
            after,
            Action::Find { phrase },
            r,
        ),
        Event::Resize { size, scaled } => pending_after == pending && performed(
            before,
            after,
            Action::Resize { size, scaled },
            r,
        ),
        Event::Response(response) => pending_after == pending && performed(
            before,
            after,
            Action::HandleResponse(response),
            r,
        ),
        Event::TermEvent(TermEvent::KeyEvent(key)) => {
            let keys = pending.push(key);
            match command_of(pending, key) {
                Some(command) => pending_after == Seq::<KeyEvent>::empty() && performed(
                    before,
                    after,
                    action_of(command),
                    r,
                ),
                None => if exists|i: int|
                    0 <= i < bindings().len() && crate::commands::begins(
                        #[trigger] bindings()[i].0,
                        keys,
                    ) {
                    pending_after == keys && after == before && r is None
                } else {
                    pending_after == Seq::<KeyEvent>::empty() && r == Some(Effect::Bell) && after
                        == ContentsView {
                        message: Some(MessageView::UnknownCommand(keys_text(keys))),
                        ..before.cleared()
                    }
                },
            }
        },
        // There is nothing to paste into a list of files.
        Event::TermEvent(_) => pending_after == pending && after == before && r is None,
    }
}

impl Contents {
    /// The state of the found files.
    pub closed spec fn view(&self) -> ContentsView {
        self.state.view()
    }

    /// The keys pressed since the last command.
    pub closed spec fn pending(&self) -> Seq<KeyEvent> {
        self.command_parser.spec_pending()
    }

    /// What the found files keep to.
    pub closed spec fn wf(&self) -> bool {
        self.state.view().wf() && self.command_parser.bindings() == bindings()
    }

    /// Return the found files for some properties: nothing has been looked for yet.
    pub fn new(props: Props) -> (c: Contents)
        ensures
            c.wf(),
            c.view() == start_view(props.dir@, props.size),
            c.pending() == Seq::<KeyEvent>::empty(),
    {
        Contents { state: State::from_props(props), command_parser: command_parser() }
    }

    /// Return the state of the found files.
    pub fn state(&self) -> (s: &State)
        ensures
            s.view() == self.view(),
    {
        &self.state
    }

    /// Return the keys pressed since the last command.
    pub fn pending_keys(&self) -> (keys: &Vec<KeyEvent>)
        ensures
            keys@ == self.pending(),
    {
        self.command_parser.pending()
    }

    /// Return whether the found files can handle an event: a key which completes a command that
    /// reads the selected file needs the selected row to be a file.
    pub fn can_handle_event(&self, event: &Event) -> (b: bool)
        requires
            self.wf(),
        ensures
            b == can_handle(self.view(), self.pending(), *event),
    {
        match event {
            Event::TermEvent(TermEvent::KeyEvent(key)) => match self.command_parser.peek(*key) {
                Some(command) => {
                    let reads = match command {
                        Command::Edit | Command::Goto | Command::ReallyGoto | Command::YankName
                        | Command::YankPath | Command::YankContents => true,
                        _ => false,
                    };
                    if !reads {
                        return true;
                    }
                    let count = self.state.entries.len();
                    assert(self.view().entries.len() == count);
                    match self.state.selected {
                        Some(s) => s < count && self.state.offset < count - s,
                        None => true,
                    }
                },
                None => true,
            },
            _ => true,
        }
    }

    /// Handle an event: what it asks is done, and keys which are not a command ring the bell.
    pub fn handle(&mut self, event: Event) -> (r: Option<Effect>)
        requires
            old(self).wf(),
            can_handle(old(self).view(), old(self).pending(), event),
        ensures
            final(self).wf(),
            handled(old(self).view(), old(self).pending(), final(self).view(), final(self).pending(), event, r),
    {
        let action: Action = match event {
            Event::Find { phrase } => Action::Find { phrase },
            Event::Resize { size, scaled } => Action::Resize { size, scaled },
            Event::Response(response) => Action::HandleResponse(response),
            Event::TermEvent(term_event) => match term_event {
                TermEvent::KeyEvent(key) => match self.command_parser.parse(key) {
                    Parsed::Command(command) => command_action(command),
                    Parsed::Pending => {
                        return None;
                    },
                    Parsed::Unknown(keys) => Action::UnknownCommand { keys: keys_string(&keys) },
                },
                _ => {
                    return None;
                },
            },
        };
        self.state.perform(action)
    }
}

/// A duration in nanoseconds as seconds with two decimals, rounded to the nearest hundredth of a
/// second (halves up), as `{:.2}` writes a number of seconds.
pub open spec fn seconds_text(nanos: nat) -> Seq<char> {
    let hundredths: nat = nanos / 10_000_000 + if nanos % 10_000_000 >= 5_000_000 { 1nat } else { 0nat };
    decimal(hundredths / 100) + seq!['.', digit((hundredths % 100) / 10), digit(hundredths % 10)]
}

/// How finding the files is going: how many files have been looked at and how long that has
/// taken, or nothing when nothing has been looked for.
pub open spec fn progress_text(v: ContentsView) -> Seq<char> {
    match v.phrase {
        None => Seq::empty(),
        Some(_) => decimal(v.searched as nat) + " file"@ + (if v.searched == 1 {
            Seq::empty()
        } else {
            seq!['s']
        }) + " searched ("@ + seconds_text(v.duration as nat) + "s)"@,
    }
}

/// What the footer shows on its left: the keys of a command being typed, or what the last
/// command had to say, or nothing while the contents of a file to copy are on their way, or how
/// the finding is going.
pub open spec fn footer_text(v: ContentsView, pending: Seq<KeyEvent>) -> Seq<char> {
    if pending.len() > 0 {
        keys_text(pending)
    } else {
        match v.message {
            Some(m) => m.text(),
            None => if v.pending_yank is Some {
                Seq::empty()
            } else {
                progress_text(v)
            },
        }
    }
}

/// Where the selected file is among those found, counted from one, or nothing when no file is
/// selected.
pub open spec fn position_text(v: ContentsView) -> Seq<char> {
    match v.entry_number() {
        Some(n) if n < v.entries.len() => decimal((n + 1) as nat) + seq!['/'] + decimal(
            v.entries.len(),
        ),
        _ => Seq::empty(),
    }
}

/// Add a piece of text to the end of a string.
fn push_str(s: &mut String, text: &str)
    ensures
        final(s)@ == old(s)@ + text@,
{
    s.append(text);
}

/// Return a duration in nanoseconds as seconds with two decimals.
pub fn seconds_string(nanos: u128) -> (s: String)
    ensures
        s@ == seconds_text(nanos as nat),
{
    let hundredths: u128 = nanos / 10_000_000 + if nanos % 10_000_000 >= 5_000_000 { 1 } else { 0 };
    let mut s = decimal_string_wide(hundredths / 100);
    push_char(&mut s, '.');
    let tens: u128 = (hundredths % 100) / 10;
    let ones: u128 = hundredths % 10;
    let tens_string = decimal_string_wide(tens);
    let ones_string = decimal_string_wide(ones);
    assert(decimal(tens as nat) == seq![digit(tens as nat)]);
    assert(decimal(ones as nat) == seq![digit(ones as nat)]);
    push_str(&mut s, tens_string.as_str());
    push_str(&mut s, ones_string.as_str());
    assert(s@ =~= seconds_text(nanos as nat));
    s
}

impl State {
    /// Return how finding the files is going, or nothing when nothing has been looked for.
    pub fn progress(&self) -> (p: String)
        ensures
            p@ == progress_text(self.view()),
    {
        if self.phrase.is_none() {
            let p = string_of("");
            proof {
                reveal_strlit("");
            }
            return p;
        }
        let mut p = decimal_string(self.files_searched as u64);
        push_str(&mut p, " file");
        if self.files_searched != 1 {
            push_char(&mut p, 's');
        }
        push_str(&mut p, " searched (");
        let seconds = seconds_string(self.duration);
        push_str(&mut p, seconds.as_str());
        push_str(&mut p, "s)");
        assert(p@ =~= progress_text(self.view()));
        p
    }
}

impl Contents {
    /// Return what the footer shows on its left.
    pub fn footer_text(&self) -> (t: String)
        ensures
            t@ == footer_text(self.view(), self.pending()),
    {
        let pending = self.command_parser.pending();
        if pending.len() > 0 {
            return keys_string(pending);
        }
        match &self.state.message {
            Some(message) => message.text(),
            None => if self.state.yanking() {
                let t = string_of("");
                proof {
                    reveal_strlit("");
                }
                t
            } else {
                self.state.progress()
            },
        }
    }

    /// Return where the selected file is among those found.
    pub fn position_string(&self) -> (p: String)
        ensures
            p@ == position_text(self.view()),
    {
        let count = self.state.entries.len();
        assert(self.view().entries.len() == count);
        let number: Option<usize> = match self.state.selected {
            Some(s) if s < count && self.state.offset < count - s => Some(self.state.offset + s),
            _ => None,
        };
        match number {
            Some(n) => {
                let mut p = decimal_string((n + 1) as u64);
                push_char(&mut p, '/');
                let total = decimal_string(count as u64);
                push_str(&mut p, total.as_str());
                assert(p@ =~= position_text(self.view()));
                p
            },
            _ => {
                let p = string_of("");
                proof {
                    reveal_strlit("");
                }
                p
            },
        }
    }
}

impl Info for Contents {
    fn text(&self) -> (t: String)
        ensures
            t@ == footer_text(self.view(), self.pending()),
    {
        self.footer_text()
    }

    fn position(&self) -> (p: String)
        ensures
            p@ == position_text(self.view()),
    {
        self.position_string()
    }
}

} // verus!
