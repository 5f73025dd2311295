//! The contents of the browser: the entries of a directory, which one is selected, and how far
//! down the list is scrolled.

use vstd::prelude::*;

use crate::args::VimArgs;
use crate::config::Config;
use crate::entry::{FileInfo, FileType};
use crate::ids::is_random_uuid;
use crate::keys::{Key, KeyEvent, KeyMods, Size, TermEvent, no_mods, shift_mods};
use crate::paths::{pop, path_parent};
use crate::requests::{Request, Response, ResponseParams, get_files_request, is_get_files};
use crate::text::{push_char, str_equal};

verus! {

/// What the path of an entry is on disk, which is looked at when the entry is opened or copied.
#[derive(Debug, Clone, Copy, PartialEq, Eq, Structural)]
pub enum PathKind {
    /// A directory.
    Dir,
    /// A file.
    File,
    /// Neither, or nothing at all.
    Other,
}

/// The properties of the contents.
pub struct Props {
    /// The configuration.
    pub config: Config,
    /// The directory.
    pub dir: String,
    /// The size the contents are shown at.
    pub size: Size,
    /// The entry to select once the entries are known, if there is one.
    pub file: Option<String>,
    /// The request for the entries which is already on its way, if there is one.
    pub pending_request: Option<u128>,
}

/// A browser action.
pub enum Action {
    /// The contents were resized. What is selected stays at about the same height, which is
    /// worked out by whoever resizes them as the row it scales to.
    Resize {
        /// The new size.
        size: Size,
        /// The row the selected entry is scaled to.
        scaled: usize,
    },
    /// Select the next entry.
    Down,
    /// Select the last entry.
    ReallyDown,
    /// Select the previous entry.
    Up,
    /// Select the first entry.
    ReallyUp,
    /// Read the entries again.
    Refresh,
    /// Open the selected entry, given what its path is on disk.
    Push {
        /// What the path of the selected entry is.
        kind: PathKind,
    },
    /// Go to the directory above.
    Pop,
    /// Copy the name of the selected entry, given what its path is on disk.
    Yank {
        /// What the path of the selected entry is.
        kind: PathKind,
    },
    /// Copy the path of the selected entry, given what its path is on disk.
    ReallyYank {
        /// What the path of the selected entry is.
        kind: PathKind,
    },
    /// Create a file or a directory.
    OpenFileCreator {
        /// Which to create.
        file_type: FileType,
    },
    /// Find files.
    OpenFinder,
    /// Search the contents of files.
    OpenSearcher,
    /// Run bash.
    RunBash,
    /// Show or hide the metadata of the entries.
    ToggleMetadata,
    /// Show a different directory, unless it is the one shown.
    SetDir {
        /// The directory.
        dir: String,
    },
    /// Handle a response from the daemon.
    HandleResponse(Response),
}

/// A browser effect.
pub enum Effect {
    /// Show a different directory, whose entries are asked for.
    SetDir {
        /// The directory.
        dir: String,
        /// The request for its entries.
        get_files_request: Request,
    },
    /// Show the directory above, whose entries are asked for.
    PopDir {
        /// The request for its entries.
        get_files_request: Request,
    },
    /// Create a file or a directory.
    OpenFileCreator {
        /// The directory to create it in.
        dir: String,
        /// Which to create.
        file_type: FileType,
    },
    /// Find files.
    OpenFinder {
        /// The directory to find them in.
        dir: String,
    },
    /// Search the contents of files.
    OpenSearcher {
        /// The directory to search in.
        dir: String,
    },
    /// Edit a file.
    OpenVim(VimArgs),
    /// Run bash.
    RunBash {
        /// The directory to run it in.
        dir: String,
    },
    /// Copy some text to the clipboard.
    Copy {
        /// The text.
        contents: String,
    },
    /// Ring the bell.
    Bell,
    /// Make a request.
    Request(Request),
}

/// What the contents of the browser are seen as.
pub struct ContentsView {
    /// The configuration.
    pub config: Config,
    /// The size the contents are shown at.
    pub size: Size,
    /// The directory.
    pub dir: Seq<char>,
    /// The entry to select once the entries are known, if there is one.
    pub starting_file: Option<Seq<char>>,
    /// The offset to return to once that entry is found, if possible.
    pub starting_offset: Option<usize>,
    /// The request for the entries which is waited for, if there is one.
    pub pending: Option<u128>,
    /// The entries, or why they could not be read, once they are known.
    pub file_infos: Option<Result<Seq<FileInfo>, Seq<char>>>,
    /// Whether the entries are shown with their metadata.
    pub metadata: bool,
    /// Which of the shown entries is selected, counting from the first one shown.
    pub selected: Option<usize>,
    /// The first entry shown.
    pub offset: usize,
}

impl ContentsView {
    /// The entries, when they are known and could be read.
    pub open spec fn entries(self) -> Option<Seq<FileInfo>> {
        match self.file_infos {
            Some(Ok(entries)) => Some(entries),
            _ => None,
        }
    }

    /// The number of the selected entry, counting from the first.
    pub open spec fn entry_number(self) -> Option<int> {
        match self.selected {
            Some(s) => Some(self.offset + s),
            None => None,
        }
    }

    /// What the contents keep to: an entry is selected whenever there are entries.
    pub open spec fn wf(self) -> bool {
        self.entries() matches Some(entries) && entries.len() > 0 ==> self.selected is Some
    }

    /// Whether the selected entry, if there is one to read, is one of the entries.
    pub open spec fn entry_ok(self) -> bool {
        match (self.entries(), self.entry_number()) {
            (Some(entries), Some(n)) => n < entries.len(),
            _ => true,
        }
    }

    /// The selected entry, if there is one.
    pub open spec fn entry(self) -> Option<FileInfo> {
        match (self.entries(), self.entry_number()) {
            (Some(entries), Some(n)) => Some(entries[n]),
            _ => None,
        }
    }

    /// Whether any of the known entries has its metadata.
    pub open spec fn have_metadata(self) -> bool {
        match self.entries() {
            Some(entries) => exists|i: int| 0 <= i < entries.len() && (#[trigger] entries[i]).metadata is Some,
            None => false,
        }
    }

    /// The contents once the selected entry (and the scroll position) are remembered, so that
    /// they can be returned to once the entries are known again. When there is no selected entry
    /// to remember, the position which is already remembered is kept.
    pub open spec fn remembered(self) -> ContentsView {
        match self.entry() {
            Some(entry) => ContentsView {
                starting_file: Some(entry.path@),
                starting_offset: Some(self.offset),
                ..self
            },
            None => self,
        }
    }

    /// The contents with no entries known.
    pub open spec fn reset(self) -> ContentsView {
        ContentsView { file_infos: None, selected: None, offset: 0, ..self }
    }
}

/// Where a list of entries is scrolled to and which is selected, once a response gives them: the
/// entry which was asked for is selected, from the scroll position remembered if it is still in
/// view from there, from the top if it is in the first screenful, and at the top otherwise. When
/// none was asked for, or it is not there, the first is selected.
pub open spec fn placed(
    entries: Seq<FileInfo>,
    starting_file: Option<Seq<char>>,
    starting_offset: Option<usize>,
    rows: usize,
) -> (Option<usize>, usize) {
    if entries.len() == 0 {
        (None, 0)
    } else {
        match starting_file {
            Some(file) => match first_with_path(entries, file) {
                Some(index) => match starting_offset {
                    Some(o) if o <= index < o + rows => (Some((index - o) as usize), o),
                    _ => if index < rows {
                        (Some(index as usize), 0)
                    } else {
                        (Some(0), index as usize)
                    },
                },
                None => (Some(0), 0),
            },
            None => (Some(0), 0),
        }
    }
}

/// Where an entry with a path first appears in a list of them, if it does.
pub open spec fn first_with_path(entries: Seq<FileInfo>, path: Seq<char>) -> Option<nat>
    decreases entries.len(),
{
    if entries.len() == 0 {
        None
    } else if entries[0].path@ == path {
        Some(0)
    } else {
        match first_with_path(entries.drop_first(), path) {
            Some(i) => Some(i + 1),
            None => None,
        }
    }
}

/// The place a selection goes to when the contents are resized: the same entry stays selected,
/// at the row it scales to, as long as the list does not then end above the bottom.
pub open spec fn resized_place(entry: int, count: int, rows: int, scaled: int) -> (int, int) {
    if entry <= scaled {
        (entry, 0)
    } else {
        let offset = entry - scaled;
        if count - offset < rows {
            let bottom = if count > rows { count - rows } else { 0 };
            (scaled + (offset - bottom), bottom)
        } else {
            (scaled, offset)
        }
    }
}

/// What a request for the entries of the directory shown asks.
pub open spec fn asks_for_entries(request: Request, v: ContentsView) -> bool {
    is_get_files(request.params, v.dir, v.config, v.metadata) && is_random_uuid(request.uuid)
}

/// Whether an effect copies some text.
pub open spec fn copies(r: Option<Effect>, contents: Seq<char>) -> bool {
    r matches Some(Effect::Copy { contents: c }) && c@ == contents
}

/// What performing an action does to the contents of the browser, and what it gives back.
pub open spec fn performed(before: ContentsView, after: ContentsView, action: Action, r: Option<Effect>) -> bool {
    match action {
        Action::Resize { size, scaled } => r is None && match (before.selected, before.entries()) {
            (Some(s), Some(entries)) => {
                let (selected, offset) = resized_place(
                    before.offset + s,
                    entries.len() as int,
                    size.rows as int,
                    scaled as int,
                );
                after == ContentsView {
                    selected: Some(selected as usize),
                    offset: offset as usize,
                    size,
                    ..before
                }
            },
            _ => after == ContentsView { size, ..before },
        },
        Action::Down => r is None && match (before.entries(), before.selected) {
            (Some(entries), Some(s)) => if entries.len() == 0 || before.offset + s >= entries.len() - 1 {
                after == before
            } else if s < before.size.rows - 1 {
                after == ContentsView { selected: Some((s + 1) as usize), ..before }
            } else {
                after == ContentsView { offset: (before.offset + 1) as usize, ..before }
            },
            _ => after == before,
        },
        Action::ReallyDown => r is None && match before.entries() {
            Some(entries) => if entries.len() == 0 {
                after == before
            } else if entries.len() > before.size.rows {
                after == ContentsView {
                    offset: (entries.len() - before.size.rows) as usize,
                    selected: Some((before.size.rows - 1) as usize),
                    ..before
                }
            } else {
                after == ContentsView { selected: Some((entries.len() - 1) as usize), ..before }
            },
            None => after == before,
        },
        Action::Up => r is None && match before.selected {
            Some(s) => if s > 0 {
                after == ContentsView { selected: Some((s - 1) as usize), ..before }
            } else {
                after == ContentsView {
                    offset: if before.offset > 0 { (before.offset - 1) as usize } else { 0 },
                    ..before
                }
            },
            None => after == before,
        },
        Action::ReallyUp => r is None && after == ContentsView { offset: 0, selected: Some(0), ..before },
        Action::Refresh => {
            let remembered = before.remembered().reset();
            r matches Some(Effect::Request(request)) && asks_for_entries(request, remembered)
                && after == ContentsView { pending: Some(request.uuid), ..remembered }
        },
        Action::Push { kind } => match before.entry() {
            Some(entry) => if kind == PathKind::Dir {
                r matches Some(Effect::SetDir { dir, get_files_request }) && dir@ == entry.path@
                    && asks_for_entries(get_files_request, ContentsView { dir: entry.path@, ..before })
                    && after == ContentsView {
                    dir: entry.path@,
                    pending: Some(get_files_request.uuid),
                    ..before
                }
            } else if kind == PathKind::File {
                r matches Some(Effect::OpenVim(args)) && opt_text(args.path) == Some(entry.path@)
                    && args.line is None && args.column is None && after == before
            } else {
                r is None && after == before
            },
            None => r is None && after == before,
        },
        Action::Pop => match path_parent(before.dir) {
            Some(parent) => {
                let popped = ContentsView { dir: parent, ..before }.reset();
                r matches Some(Effect::PopDir { get_files_request }) && asks_for_entries(
                    get_files_request,
                    popped,
                ) && after == ContentsView { pending: Some(get_files_request.uuid), ..popped }
            },
            None => r is None && after == before,
        },
        // If the entry is a directory, a trailing slash is added.
        Action::Yank { kind } => after == before && match before.entry() {
            Some(entry) => copies(r, yanked(opt_text(entry.name).unwrap(), kind)),
            None => r is None,
        },
        Action::ReallyYank { kind } => after == before && match before.entry() {
            Some(entry) => copies(r, yanked(entry.path@, kind)),
            None => r is None,
        },
        Action::OpenFileCreator { file_type } => {
            &&& after == before
            &&& r matches Some(Effect::OpenFileCreator { dir, file_type: t }) && dir@ == before.dir && t == file_type
        },
        Action::OpenFinder => {
            &&& after == before
            &&& r matches Some(Effect::OpenFinder { dir }) && dir@ == before.dir
        },
        Action::OpenSearcher => {
            &&& after == before
            &&& r matches Some(Effect::OpenSearcher { dir }) && dir@ == before.dir
        },
        Action::RunBash => {
            &&& after == before
            &&& r matches Some(Effect::RunBash { dir }) && dir@ == before.dir
        },
        // When the metadata is now shown but is not known yet, the entries are asked for again.
        // The entries which are already known are kept so that they stay shown (without their
        // metadata) until the response is handled.
        Action::ToggleMetadata => {
            let toggled = ContentsView { metadata: !before.metadata, ..before };
            if !toggled.metadata || toggled.have_metadata() {
                r is None && after == toggled
            } else {
                let remembered = toggled.remembered();
                r matches Some(Effect::Request(request)) && asks_for_entries(request, remembered)
                    && after == ContentsView { pending: Some(request.uuid), ..remembered }
            }
        },
        // A different directory has its entries asked for, from the top.
        Action::SetDir { dir } => if dir@ == before.dir {
            r is None && after == before
        } else {
            let shown = ContentsView { dir: dir@, ..before }.reset();
            r matches Some(Effect::Request(request)) && asks_for_entries(request, shown) && after
                == ContentsView { pending: Some(request.uuid), ..shown }
        },
        Action::HandleResponse(response) => r is None && match (before.pending, response.params) {
            (Some(pending), ResponseParams::GetFiles { result }) if pending == response.uuid => {
                let file_infos = match result {
                    Ok(entries) => Ok(entries@),
                    Err(e) => Err(e@),
                };
                let (selected, offset) = match file_infos {
                    Ok(entries) => placed(entries, before.starting_file, before.starting_offset, before.size.rows),
                    Err(_) => (Some(0usize), 0usize),
                };
                after == ContentsView {
                    file_infos: Some(file_infos),
                    selected,
                    offset,
                    starting_file: None,
                    starting_offset: None,
                    ..before
                }
            },
            _ => after == before,
        },
    }
}

/// The text which may not be there.
pub open spec fn opt_text(s: Option<String>) -> Option<Seq<char>> {
    match s {
        Some(s) => Some(s@),
        None => None,
    }
}

/// What is copied of an entry: its name or path, with a trailing slash if it is a directory.
pub open spec fn yanked(text: Seq<char>, kind: PathKind) -> Seq<char> {
    if kind == PathKind::Dir { text.push('/') } else { text }
}

/// What an action needs of the contents for it to be done: moving down needs rows to move in
/// once there are entries, and reading the selected entry needs it to be one of them. A copied
/// name needs the entry to have one.
pub open spec fn can_perform(v: ContentsView, action: Action) -> bool {
    &&& v.wf()
    &&& match action {
        Action::Down => v.entries() matches Some(entries) && entries.len() > 0 ==> v.size.rows > 0,
        Action::ReallyDown => v.entries() matches Some(entries) && entries.len() > 0 ==> v.size.rows > 0,
        Action::Resize { .. } | Action::Refresh | Action::Push { .. } | Action::ReallyYank { .. } | Action::ToggleMetadata => v.entry_ok(),
        Action::Yank { .. } => v.entry_ok() && (v.entry() matches Some(entry) ==> entry.name is Some),
        _ => true,
    }
}


/// The state of the contents of the browser.
pub struct State {
    /// The configuration.
    config: Config,
    /// The size the contents are shown at.
    size: Size,
    /// The directory.
    dir: String,
    /// The entry to select once the entries are known, if there is one.
    starting_file: Option<String>,
    /// The offset to return to once the starting file is found (if possible).
    starting_offset: Option<usize>,
    /// The request for the entries which is waited for, if there is one.
    pending_request: Option<u128>,
    /// The entries (if they can be read).
    file_infos: Option<Result<Vec<FileInfo>, String>>,
    /// Whether or not the entries are shown with their metadata.
    metadata: bool,
    /// Which of the shown entries is selected.
    selected: Option<usize>,
    /// The first entry shown.
    offset: usize,
}

impl State {
    /// What the contents are seen as.
    pub closed spec fn view(&self) -> ContentsView {
        ContentsView {
            config: self.config,
            size: self.size,
            dir: self.dir@,
            starting_file: opt_text(self.starting_file),
            starting_offset: self.starting_offset,
            pending: self.pending_request,
            file_infos: match self.file_infos {
                Some(Ok(entries)) => Some(Ok(entries@)),
                Some(Err(e)) => Some(Err(e@)),
                None => None,
            },
            metadata: self.metadata,
            selected: self.selected,
            offset: self.offset,
        }
    }

    /// Return the contents of a directory whose entries are not known yet. The metadata is shown
    /// if it is configured to be (a request already on its way asks for it then too).
    pub fn from_props(props: Props) -> (s: State)
        ensures
            s.view() == (ContentsView {
                config: props.config,
                size: props.size,
                dir: props.dir@,
                starting_file: opt_text(props.file),
                starting_offset: None,
                pending: props.pending_request,
                file_infos: None,
                metadata: props.config.browser.metadata,
                selected: None,
                offset: 0,
            }),
            s.view().wf(),
    {
        let metadata = props.config.browser().metadata();
        State {
            config: props.config,
            size: props.size,
            dir: props.dir,
            starting_file: props.file,
            starting_offset: None,
            pending_request: props.pending_request,
            file_infos: None,
            metadata,
            selected: None,
            offset: 0,
        }
    }

    /// Return the entries of the directory, once they are known.
    pub fn file_infos(&self) -> (f: &Option<Result<Vec<FileInfo>, String>>)
        ensures
            match *f {
                Some(Ok(entries)) => self.view().file_infos == Some(Ok::<Seq<FileInfo>, Seq<char>>(entries@)),
                Some(Err(e)) => self.view().file_infos == Some(Err::<Seq<FileInfo>, Seq<char>>(e@)),
                None => self.view().file_infos is None,
            },
    {
        &self.file_infos
    }

    /// Return which of the shown entries is selected.
    pub fn selected(&self) -> (s: Option<usize>)
        ensures
            s == self.view().selected,
    {
        self.selected
    }

    /// Return the first entry shown.
    pub fn offset(&self) -> (o: usize)
        ensures
            o == self.view().offset,
    {
        self.offset
    }

    /// Return the size the contents are shown at.
    pub fn size(&self) -> (s: Size)
        ensures
            s == self.view().size,
    {
        self.size
    }

    /// Return whether the entries are shown with their metadata.
    pub fn metadata(&self) -> (m: bool)
        ensures
            m == self.view().metadata,
    {
        self.metadata
    }

    /// Return the directory.
    pub fn dir(&self) -> (d: &String)
        ensures
            d@ == self.view().dir,
    {
        &self.dir
    }

    /// Return which of the entries are shown: from the first one shown, as many as there are
    /// rows for, or nothing when the entries are not known or could not be read.
    pub fn visible_range(&self) -> (r: Option<(usize, usize)>)
        requires
            self.view().entry_ok(),
            self.view().wf(),
        ensures
            match self.view().entries() {
                Some(entries) => r matches Some((start, end)) && if entries.len() == 0 {
                    start == 0 && end == 0
                } else {
                    start == self.view().offset && end == (if self.view().offset + self.view().size.rows < entries.len() {
                        self.view().offset + self.view().size.rows
                    } else {
                        entries.len() as int
                    })
                },
                None => r is None,
            },
    {
        match &self.file_infos {
            Some(Ok(entries)) => {
                if entries.len() == 0 {
                    return Some((0, 0));
                }
                let end = if self.size.rows < entries.len() - self.offset {
                    self.offset + self.size.rows
                } else {
                    entries.len()
                };
                Some((self.offset, end))
            },
            _ => None,
        }
    }

    /// Return whether the selected entry, if there is one to read, is one of the entries.
    pub fn entry_ok(&self) -> (b: bool)
        ensures
            b == self.view().entry_ok(),
    {
        match (&self.file_infos, self.selected) {
            (Some(Ok(entries)), Some(s)) => s < entries.len() && self.offset < entries.len() - s,
            _ => true,
        }
    }

    /// Return whether an action can be performed on the contents.
    pub fn performable(&self, action: &Action) -> (b: bool)
        ensures
            b == can_perform(self.view(), *action),
    {
        let wf = match (&self.file_infos, self.selected) {
            (Some(Ok(entries)), None) => entries.len() == 0,
            _ => true,
        };
        if !wf {
            return false;
        }
        let has_entries = match &self.file_infos {
            Some(Ok(entries)) => entries.len() > 0,
            _ => false,
        };
        match action {
            Action::Down | Action::ReallyDown => !has_entries || self.size.rows > 0,
            Action::Resize { .. } | Action::Refresh | Action::Push { .. } | Action::ReallyYank { .. }
            | Action::ToggleMetadata => self.entry_ok(),
            Action::Yank { .. } => {
                if !self.entry_ok() {
                    return false;
                }
                match self.entry() {
                    Some(entry) => entry.name.is_some(),
                    None => true,
                }
            },
            _ => true,
        }
    }

    /// Return the number of the selected entry, counting from the first.
    pub fn entry_number(&self) -> (n: Option<usize>)
        requires
            self.view().entry_ok(),
            self.view().entries() is Some,
        ensures
            match n {
                Some(n) => self.view().entry_number() == Some(n as int),
                None => self.view().entry_number() is None,
            },
    {
        match &self.file_infos {
            Some(Ok(entries)) => {
                assert(self.view().entries() == Some(entries@));
                match self.selected {
                    Some(s) => {
                        assert(self.view().entry_number() == Some(self.offset + s));
                        let len = entries.len();
                        assert(self.offset + s < len);
                        Some(self.offset + s)
                    },
                    None => None,
                }
            },
            _ => None,
        }
    }

    /// Return the selected entry, if there is one.
    pub fn entry(&self) -> (e: Option<&FileInfo>)
        requires
            self.view().entry_ok(),
        ensures
            match e {
                Some(e) => self.view().entry() == Some(*e),
                None => self.view().entry() is None,
            },
    {
        match &self.file_infos {
            Some(Ok(entries)) => {
                assert(self.view().entries() == Some(entries@));
                match self.selected {
                    Some(s) => {
                        assert(self.view().entry_number() == Some(self.offset + s));
                        let len = entries.len();
                        assert(self.offset + s < len);
                        Some(&entries[self.offset + s])
                    },
                    None => None,
                }
            },
            _ => None,
        }
    }

    /// Return whether or not the entries which are known have their metadata.
    pub fn have_metadata(&self) -> (h: bool)
        ensures
            h == self.view().have_metadata(),
    {
        match &self.file_infos {
            Some(Ok(entries)) => {
                assert(self.view().entries() == Some(entries@));
                let mut i: usize = 0;
                while i < entries.len()
                    invariant
                        i <= entries.len(),
                        self.view().entries() == Some(entries@),
                        forall|j: int| 0 <= j < i ==> (#[trigger] entries@[j]).metadata is None,
                    decreases entries.len() - i,
                {
                    if entries[i].metadata.is_some() {
                        assert(entries@[i as int].metadata is Some);
                        return true;
                    }
                    i = i + 1;
                }
                false
            },
            _ => false,
        }
    }

    /// Remember the selected entry (and the scroll position) so that they can be returned to once
    /// the entries are known again.
    fn remember_position(&mut self)
        requires
            old(self).view().entry_ok(),
        ensures
            final(self).view() == old(self).view().remembered(),
    {
        let path: String = match self.entry() {
            Some(entry) => entry.path.clone(),
            None => return,
        };
        self.starting_file = Some(path);
        self.starting_offset = Some(self.offset);
    }

    /// Forget the entries.
    fn reset_file_infos(&mut self)
        ensures
            final(self).view() == old(self).view().reset(),
    {
        self.file_infos = None;
        self.selected = None;
        self.offset = 0;
    }

    /// Return a request for the entries of the directory.
    fn get_files_request(&self) -> (r: Request)
        ensures
            asks_for_entries(r, self.view()),
    {
        get_files_request(self.dir.clone(), &self.config, self.metadata)
    }

    /// Perform an action.
    pub fn perform(&mut self, action: Action) -> (r: Option<Effect>)
        requires
            can_perform(old(self).view(), action),
        ensures
            performed(old(self).view(), final(self).view(), action, r),
            final(self).view().wf(),
    {
        match action {
            Action::Resize { size, scaled } => {
                if let Some(selected) = self.selected {
                    if let Some(Ok(entries)) = &self.file_infos {
                        let count = entries.len();
                        let entry = self.offset + selected;
                        let mut new_selected: usize = scaled;
                        let mut new_offset: usize;
                        if entry <= new_selected {
                            new_offset = 0;
                            new_selected = entry;
                        } else {
                            new_offset = entry - new_selected;
                            if count - new_offset < size.rows {
                                let bottom = count.saturating_sub(size.rows);
                                let difference = new_offset - bottom;
                                new_selected = new_selected + difference;
                                new_offset = bottom;
                            }
                        }
                        self.offset = new_offset;
                        self.selected = Some(new_selected);
                    }
                }
                self.size = size;
                None
            },
            Action::Down => {
                if let Some(Ok(entries)) = &self.file_infos {
                    if entries.len() == 0 {
                        return None;
                    }
                    let selected = match self.selected {
                        Some(selected) => selected,
                        None => return None,
                    };
                    // This is `offset + selected >= entries - 1` without the sum.
                    if self.offset >= entries.len() - 1 || selected >= entries.len() - 1 - self.offset {
                        return None;
                    }
                    if selected < self.size.rows - 1 {
                        self.selected = Some(selected + 1);
                    } else {
                        self.offset = self.offset + 1;
                    }
                }
                None
            },
            Action::ReallyDown => {
                if let Some(Ok(entries)) = &self.file_infos {
                    if entries.len() == 0 {
                        return None;
                    }
                    if entries.len() > self.size.rows {
                        self.offset = entries.len() - self.size.rows;
                        self.selected = Some(self.size.rows - 1);
                    } else {
                        self.selected = Some(entries.len() - 1);
                    }
                }
                None
            },
            Action::Up => {
                if let Some(selected) = self.selected {
                    if selected > 0 {
                        self.selected = Some(selected - 1);
                    } else {
                        self.offset = self.offset.saturating_sub(1);
                    }
                }
                None
            },
            Action::ReallyUp => {
                self.offset = 0;
                self.selected = Some(0);
                None
            },
            Action::Refresh => {
                self.remember_position();
                self.reset_file_infos();
                let request = self.get_files_request();
                self.pending_request = Some(request.uuid());
                Some(Effect::Request(request))
            },
            Action::Push { kind } => {
                let path: String = match self.entry() {
                    Some(entry) => entry.path.clone(),
                    None => return None,
                };
                match kind {
                    PathKind::Dir => {
                        self.dir = path.clone();
                        let request = self.get_files_request();
                        self.pending_request = Some(request.uuid());
                        Some(Effect::SetDir { dir: path, get_files_request: request })
                    },
                    PathKind::File => Some(Effect::OpenVim(VimArgs { path: Some(path), line: None, column: None })),
                    PathKind::Other => None,
                }
            },
            Action::Pop => {
                let popped: bool = pop(&mut self.dir);
                if popped {
                    self.reset_file_infos();
                    let request = self.get_files_request();
                    self.pending_request = Some(request.uuid());
                    return Some(Effect::PopDir { get_files_request: request });
                }
                None
            },
            Action::Yank { kind } => {
                let mut contents: String = match self.entry() {
                    Some(entry) => match &entry.name {
                        Some(name) => name.clone(),
                        None => return None,
                    },
                    None => return None,
                };
                if kind == PathKind::Dir {
                    push_char(&mut contents, '/');
                }
                Some(Effect::Copy { contents })
            },
            Action::ReallyYank { kind } => {
                let mut contents: String = match self.entry() {
                    Some(entry) => entry.path.clone(),
                    None => return None,
                };
                if kind == PathKind::Dir {
                    push_char(&mut contents, '/');
                }
                Some(Effect::Copy { contents })
            },
            Action::OpenFileCreator { file_type } => Some(Effect::OpenFileCreator { dir: self.dir.clone(), file_type }),
            Action::OpenFinder => Some(Effect::OpenFinder { dir: self.dir.clone() }),
            Action::OpenSearcher => Some(Effect::OpenSearcher { dir: self.dir.clone() }),
            Action::RunBash => Some(Effect::RunBash { dir: self.dir.clone() }),
            Action::ToggleMetadata => {
                self.metadata = !self.metadata;
                if !self.metadata || self.have_metadata() {
                    return None;
                }
                self.remember_position();
                let request = self.get_files_request();
                self.pending_request = Some(request.uuid());
                Some(Effect::Request(request))
            },
            Action::SetDir { dir } => {
                if str_equal(dir.as_str(), self.dir.as_str()) {
                    return None;
                }
                self.dir = dir;
                self.reset_file_infos();
                let request = self.get_files_request();
                self.pending_request = Some(request.uuid());
                Some(Effect::Request(request))
            },
            Action::HandleResponse(response) => self.handle_response(response),
        }
    }

    /// Handle a response from the daemon: the entries it gives are shown if it answers the
    /// request waited for, with the entry which was asked for selected.
    fn handle_response(&mut self, response: Response) -> (r: Option<Effect>)
        requires
            old(self).view().wf(),
        ensures
            performed(old(self).view(), final(self).view(), Action::HandleResponse(response), r),
            final(self).view().wf(),
    {
        let pending: u128 = match self.pending_request {
            Some(pending) => pending,
            None => return None,
        };
        if response.uuid != pending {
            return None;
        }
        let result = match response.params {
            ResponseParams::GetFiles { result } => result,
            _ => return None,
        };
        let (selected, offset): (Option<usize>, usize) = match &result {
            Ok(entries) => place(entries, &self.starting_file, self.starting_offset, self.size.rows),
            Err(_) => (Some(0), 0),
        };
        self.file_infos = Some(result);
        self.selected = selected;
        self.offset = offset;
        self.starting_file = None;
        self.starting_offset = None;
        None
    }
}

/// Return where a list of entries is scrolled to and which is selected, once a response gives
/// them.
pub fn place(
    entries: &Vec<FileInfo>,
    starting_file: &Option<String>,
    starting_offset: Option<usize>,
    rows: usize,
) -> (p: (Option<usize>, usize))
    ensures
        p == placed(entries@, opt_text(*starting_file), starting_offset, rows),
{
    if entries.len() == 0 {
        return (None, 0);
    }
    let file: &String = match starting_file {
        Some(file) => file,
        None => return (Some(0), 0),
    };
    let index: usize = match position_of(entries, file) {
        Some(index) => index,
        None => return (Some(0), 0),
    };
    if let Some(o) = starting_offset {
        // This is `o <= index < o + rows` without the sum.
        if o <= index && index - o < rows {
            return (Some(index - o), o);
        }
    }
    if index < rows {
        (Some(index), 0)
    } else {
        (Some(0), index)
    }
}

/// Return where an entry with a path first appears in a list of them, if it does.
pub fn position_of(entries: &Vec<FileInfo>, path: &String) -> (i: Option<usize>)
    ensures
        match i {
            Some(i) => first_with_path(entries@, path@) == Some(i as nat) && i < entries@.len(),
            None => first_with_path(entries@, path@) is None,
        },
{
    let mut i: usize = 0;
    assert(entries@.skip(0) =~= entries@);
    while i < entries.len()
        invariant
            i <= entries.len(),
            first_with_path(entries@, path@) == match first_with_path(entries@.skip(i as int), path@) {
                Some(j) => Some((j + i) as nat),
                None => None::<nat>,
            },
        decreases entries.len() - i,
    {
        assert(entries@.skip(i as int).drop_first() =~= entries@.skip(i + 1));
        if entries[i].path == *path {
            return Some(i);
        }
        i = i + 1;
    }
    None
}


/// A browser event.
pub enum Event {
    /// The daemon answered.
    Response(Response),
    /// The contents were resized, and the row the selected entry scales to.
    Resize {
        /// The new size.
        size: Size,
        /// The row the selected entry scales to.
        scaled: usize,
    },
    /// Show a different directory, unless it is the one shown.
    SetDir {
        /// The directory.
        dir: String,
    },
    /// The terminal reported something, while the selected entry's path is what it is on disk.
    Term {
        /// What the terminal reported.
        event: TermEvent,
        /// What the path of the selected entry is on disk.
        kind: PathKind,
    },
}

/// The action a key asks of the browser, if any.
pub open spec fn key_action(key_event: KeyEvent, kind: PathKind) -> Option<Action> {
    let key = key_event.key;
    let mods = key_event.mods;
    if key == Key::Char('j') && mods == no_mods() {
        Some(Action::Down)
    } else if key == Key::Char('J') && mods == shift_mods() {
        Some(Action::ReallyDown)
    } else if key == Key::Char('k') && mods == no_mods() {
        Some(Action::Up)
    } else if key == Key::Char('K') && mods == shift_mods() {
        Some(Action::ReallyUp)
    } else if key == Key::Char('r') {
        Some(Action::Refresh)
    } else if key == Key::Char('l') || key == Key::CarriageReturn {
        Some(Action::Push { kind })
    } else if key == Key::Char('h') || key == Key::Backspace {
        Some(Action::Pop)
    } else if key == Key::Char('y') && mods == no_mods() {
        Some(Action::Yank { kind })
    } else if key == Key::Char('Y') && mods == shift_mods() {
        Some(Action::ReallyYank { kind })
    } else if key == Key::Char('b') {
        Some(Action::RunBash)
    } else if key == Key::Char('c') && mods == no_mods() {
        Some(Action::OpenFileCreator { file_type: FileType::File })
    } else if key == Key::Char('C') && mods == shift_mods() {
        Some(Action::OpenFileCreator { file_type: FileType::Dir })
    } else if key == Key::Char('f') {
        Some(Action::OpenFinder)
    } else if key == Key::Char('s') {
        Some(Action::OpenSearcher)
    } else if key == Key::Char('m') && mods == no_mods() {
        Some(Action::ToggleMetadata)
    } else {
        None
    }
}

/// The action an event asks of the browser, if any.
pub open spec fn event_action(event: Event) -> Option<Action> {
    match event {
        Event::Response(response) => Some(Action::HandleResponse(response)),
        Event::Resize { size, scaled } => Some(Action::Resize { size, scaled }),
        Event::SetDir { dir } => Some(Action::SetDir { dir }),
        Event::Term { event, kind } => match event {
            TermEvent::KeyEvent(key_event) => key_action(key_event, kind),
            _ => None,
        },
    }
}

/// The contents of the browser.
pub struct Contents {
    /// The state of the contents.
    state: State,
}

impl Contents {
    /// The state of the contents.
    pub closed spec fn spec_state(&self) -> &State {
        &self.state
    }

    /// Return the contents of a directory whose entries are not known yet.
    pub fn new(props: Props) -> (c: Contents)
        ensures
            c.spec_state().view() == (ContentsView {
                config: props.config,
                size: props.size,
                dir: props.dir@,
                starting_file: opt_text(props.file),
                starting_offset: None,
                pending: props.pending_request,
                file_infos: None,
                metadata: props.config.browser.metadata,
                selected: None,
                offset: 0,
            }),
            c.spec_state().view().wf(),
    {
        Contents { state: State::from_props(props) }
    }

    /// Return the state of the contents.
    pub fn state(&self) -> (s: &State)
        ensures
            s == self.spec_state(),
    {
        &self.state
    }

    /// Return the action a key asks of the browser, if any.
    pub fn map_key(key_event: KeyEvent, kind: PathKind) -> (a: Option<Action>)
        ensures
            a == key_action(key_event, kind),
    {
        let key = key_event.key;
        let mods = key_event.mods;
        if key == Key::Char('j') && mods.is_none() {
            Some(Action::Down)
        } else if key == Key::Char('J') && mods.is_shift() {
            Some(Action::ReallyDown)
        } else if key == Key::Char('k') && mods.is_none() {
            Some(Action::Up)
        } else if key == Key::Char('K') && mods.is_shift() {
            Some(Action::ReallyUp)
        } else if key == Key::Char('r') {
            Some(Action::Refresh)
        } else if key == Key::Char('l') || key == Key::CarriageReturn {
            Some(Action::Push { kind })
        } else if key == Key::Char('h') || key == Key::Backspace {
            Some(Action::Pop)
        } else if key == Key::Char('y') && mods.is_none() {
            Some(Action::Yank { kind })
        } else if key == Key::Char('Y') && mods.is_shift() {
            Some(Action::ReallyYank { kind })
        } else if key == Key::Char('b') {
            Some(Action::RunBash)
        } else if key == Key::Char('c') && mods.is_none() {
            Some(Action::OpenFileCreator { file_type: FileType::File })
        } else if key == Key::Char('C') && mods.is_shift() {
            Some(Action::OpenFileCreator { file_type: FileType::Dir })
        } else if key == Key::Char('f') {
            Some(Action::OpenFinder)
        } else if key == Key::Char('s') {
            Some(Action::OpenSearcher)
        } else if key == Key::Char('m') && mods.is_none() {
            Some(Action::ToggleMetadata)
        } else {
            None
        }
    }

    /// Return the action an event asks of the browser, if any.
    pub fn map(event: Event) -> (a: Option<Action>)
        ensures
            a == event_action(event),
    {
        match event {
            Event::Response(response) => Some(Action::HandleResponse(response)),
            Event::Resize { size, scaled } => Some(Action::Resize { size, scaled }),
            Event::SetDir { dir } => Some(Action::SetDir { dir }),
            Event::Term { event, kind } => match event {
                TermEvent::KeyEvent(key_event) => Self::map_key(key_event, kind),
                _ => None,
            },
        }
    }

    /// Handle an event: what it asks is done, and an event which asks nothing rings the bell.
    pub fn handle(&mut self, event: Event) -> (r: Option<Effect>)
        requires
            event_action(event) matches Some(action) ==> can_perform(old(self).spec_state().view(), action),
            old(self).spec_state().view().wf(),
        ensures
            final(self).spec_state().view().wf(),
            match event_action(event) {
                Some(action) => performed(
                    old(self).spec_state().view(),
                    final(self).spec_state().view(),
                    action,
                    r,
                ),
                None => r matches Some(Effect::Bell) && final(self).spec_state().view() == old(
                    self,
                ).spec_state().view(),
            },
    {
        match Self::map(event) {
            Some(action) => self.state.perform(action),
            None => Some(Effect::Bell),
        }
    }
}


/// Where an entry is found in a list of them, it is one of them.
pub proof fn lemma_first_with_path_in_list(entries: Seq<FileInfo>, path: Seq<char>)
    ensures
        first_with_path(entries, path) matches Some(i) ==> i < entries.len() && entries[i as int].path@ == path,
    decreases entries.len(),
{
    if entries.len() > 0 && entries[0].path@ != path {
        lemma_first_with_path_in_list(entries.drop_first(), path);
    }
}

/// Whether an action leaves the selected entry one of the entries, which every action does but
/// two: selecting the first entry of an empty directory, and selecting the last entry when all
/// of them fit but the list was left scrolled down by a remembered position.
pub open spec fn keeps_selection(v: ContentsView, action: Action) -> bool {
    match action {
        Action::ReallyUp => v.entries() matches Some(entries) ==> entries.len() > 0,
        Action::ReallyDown => v.entries() matches Some(entries) && entries.len() > 0
            && entries.len() <= v.size.rows ==> v.offset == 0,
        _ => true,
    }
}

/// Moving around the list, resizing it and reading the entries again keep the selected entry
/// one of the entries: whichever entry is selected afterwards can be opened, copied and
/// remembered.
pub proof fn lemma_selection_stays_in_list(
    before: ContentsView,
    after: ContentsView,
    action: Action,
    r: Option<Effect>,
)
    requires
        can_perform(before, action),
        before.entry_ok(),
        keeps_selection(before, action),
        performed(before, after, action, r),
    ensures
        after.entry_ok(),
        after.wf(),
{
    match action {
        Action::HandleResponse(response) => {
            if let (Some(pending), ResponseParams::GetFiles { result }) = (before.pending, response.params) {
                if pending == response.uuid {
                    if let Ok(entries) = result {
                        if let Some(file) = before.starting_file {
                            lemma_first_with_path_in_list(entries@, file);
                        }
                    }
                }
            }
        },
        _ => {},
    }
}


/// `K` selects the first entry.
pub proof fn law_big_k_selects_the_first_entry(before: ContentsView, after: ContentsView, r: Option<Effect>)
    requires
        performed(before, after, Action::ReallyUp, r),
    ensures
        after.entry_number() == Some(0int),
        r is None,
{
}

/// `J` selects the last entry, unless all of the entries fit but the list was left scrolled down
/// by a remembered position.
pub proof fn law_big_j_selects_the_last_entry(before: ContentsView, after: ContentsView, r: Option<Effect>)
    requires
        performed(before, after, Action::ReallyDown, r),
        can_perform(before, Action::ReallyDown),
        before.entries() matches Some(entries) && 0 < entries.len() <= usize::MAX,
        keeps_selection(before, Action::ReallyDown),
    ensures
        after.entry_number() == Some(before.entries().unwrap().len() - 1),
        r is None,
{
}

/// `k` takes the selection back to the entry it was on before `j`, wherever in the list that
/// was, as long as `j` had an entry below to go to.
pub proof fn law_up_undoes_down(
    a: ContentsView,
    b: ContentsView,
    c: ContentsView,
    r1: Option<Effect>,
    r2: Option<Effect>,
)
    requires
        performed(a, b, Action::Down, r1),
        performed(b, c, Action::Up, r2),
        a.entries() matches Some(entries) && entries.len() <= usize::MAX && (a.entry_number() matches Some(
            n,
        ) && n < entries.len() - 1),
    ensures
        c.entry_number() == a.entry_number(),
{
}


/// An entry found at a place in a list, with none before it found with the same path, is where
/// the list first has that path.
proof fn lemma_first_with_path_is_first(entries: Seq<FileInfo>, path: Seq<char>, i: int)
    requires
        0 <= i < entries.len(),
        entries[i].path@ == path,
        forall|j: int| 0 <= j < i ==> entries[j].path@ != path,
    ensures
        first_with_path(entries, path) == Some(i as nat),
    decreases i,
{
    if i > 0 {
        let rest = entries.drop_first();
        assert forall|j: int| 0 <= j < i - 1 implies rest[j].path@ != path by {
            assert(rest[j] == entries[j + 1]);
        }
        assert(rest[i - 1] == entries[i]);
        lemma_first_with_path_in_list(entries, path);
        lemma_first_with_path_is_first(rest, path, i - 1);
        assert(entries[0].path@ != path);
    }
}

/// Reading a directory again keeps the entry which was selected selected, wherever it is now:
/// when the entries which come back hold its path, the entry selected afterwards is the first
/// with that path, on a row of the screen; and when it can still be seen from where the list was
/// scrolled to, the list stays scrolled there.
pub proof fn law_a_refresh_keeps_the_selected_entry(
    entries: Seq<FileInfo>,
    file: Seq<char>,
    offset: Option<usize>,
    rows: usize,
    i: int,
)
    requires
        0 <= i < entries.len(),
        entries.len() <= usize::MAX,
        entries[i].path@ == file,
        forall|j: int| 0 <= j < i ==> entries[j].path@ != file,
    ensures
        placed(entries, Some(file), offset, rows).0 matches Some(s)
            && placed(entries, Some(file), offset, rows).1 + s == i
            && (rows > 0 ==> s < rows),
        forall|o: usize| offset == Some(o) && o <= i < o + rows ==> placed(entries, Some(file), offset, rows).1 == o,
{
    lemma_first_with_path_is_first(entries, file, i);
}

} // verus!
