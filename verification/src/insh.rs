//! The root of insh: which of its modes is showing, what each of them is handed, and where each
//! of them goes next.

use vstd::prelude::*;

use crate::args::{Command, VimArgs};
use crate::browse::{
    Browser, BrowserView, Effect as BrowserEffect, Event as BrowserEvent, Props as BrowserProps,
    visits, can_handle as browser_can_handle, handled as browser_handled, started as browser_started,
};
use crate::browser::PathKind;
use crate::chat::{
    Chat, ChatStateView, ChatView, Effect as ChatEffect, Event as ChatEvent, Props as ChatProps,
    handled as chat_handled, started as chat_started, started_new,
};
use crate::config::Config;
use crate::dir_bar::opt_view;
use crate::entry::FileType;
use crate::file_creator::{
    CreatorView, Effect as CreatorEffect, Event as CreatorEvent, FileCreator,
    Props as CreatorProps, handled as creator_handled, started as creator_started,
};
use crate::finder::{
    Effect as FinderEffect, Event as FinderEvent, Finder, FinderView, Props as FinderProps,
    can_handle_event as finder_can_handle, handled as finder_handled,
    started as finder_started,
};
use crate::history::{
    Effect as HistoryEffect, Event as HistoryEvent, History, CHAT_LIMIT, FOOTER_ROWS,
};
use crate::history_searcher::{
    Effect as HistorySearcherEffect, Event as HistorySearcherEvent, HistorySearcher,
    SearcherView as HistorySearcherView, handled as history_searcher_handled,
    started as history_searcher_started,
};
use crate::ids::is_random_uuid;
use crate::keys::{Key, KeyEvent, Size, TermEvent, control_mods};
use crate::requests::{
    Request, RequestParams, Response, ResponseParams, get_files_request, is_get_files,
};
use crate::searcher::{
    Effect as SearcherEffect, Event as SearcherEvent, Props as SearcherProps, Searcher,
    SearcherView, can_handle_event as searcher_can_handle, handled as searcher_handled,
    started as searcher_started,
};

verus! {

/// What insh starts in.
#[derive(Clone, Debug, PartialEq, Eq)]
pub enum Start {
    /// The browser.
    Browser,
    /// The finder.
    Finder {
        /// The pattern to start with.
        phrase: Option<String>,
    },
    /// The searcher.
    Searcher {
        /// The phrase to start with.
        phrase: Option<String>,
    },
    /// The chat.
    Chat {
        /// What to say to start with.
        prompt: Option<String>,
    },
    /// Nothing, because a program is being run instead.
    Nothing,
}

/// What insh starts in for a command: the browser when there is none, and nothing when a file
/// is edited without browsing afterwards.
pub open spec fn start_of(command: Option<Command>) -> Start {
    match command {
        None => Start::Browser,
        Some(Command::Browse) => Start::Browser,
        Some(Command::Search { phrase }) => Start::Searcher { phrase },
        Some(Command::Find { phrase }) => Start::Finder { phrase },
        Some(Command::Chat { prompt }) => Start::Chat { prompt },
        Some(Command::Edit { browse, .. }) => if browse {
            Start::Browser
        } else {
            Start::Nothing
        },
    }
}

impl From<Option<Command>> for Start {
    fn from(command: Option<Command>) -> (s: Start) {
        match command {
            None => Start::Browser,
            Some(Command::Browse) => Start::Browser,
            Some(Command::Search { phrase }) => Start::Searcher { phrase },
            Some(Command::Find { phrase }) => Start::Finder { phrase },
            Some(Command::Chat { prompt }) => Start::Chat { prompt },
            Some(Command::Edit { browse, .. }) => if browse {
                Start::Browser
            } else {
                Start::Nothing
            },
        }
    }
}

impl vstd::std_specs::convert::FromSpecImpl<Option<Command>> for Start {
    open spec fn obeys_from_spec() -> bool {
        true
    }

    open spec fn from_spec(command: Option<Command>) -> Start {
        start_of(command)
    }
}

/// The properties of insh.
pub struct Props {
    /// What to start in.
    start: Start,
    /// The directory to start in.
    dir: String,
    /// The home directory, which the directory bars show as a tilde, if there is one.
    home: Option<String>,
    /// The size of the terminal.
    size: Size,
    /// How many rows the prompt to start the chat with needs at the width of the terminal.
    input_rows: usize,
    /// The pending request for the files.
    pending_browser_request: Option<u128>,
    /// The pending request for the hits.
    pending_search_request: Option<u128>,
    /// The configuration.
    config: Config,
}

impl Props {
    /// Return the properties of insh.
    pub fn new(
        start: Start,
        dir: String,
        home: Option<String>,
        size: Size,
        input_rows: usize,
        pending_browser_request: Option<u128>,
        pending_search_request: Option<u128>,
        config: Config,
    ) -> (p: Props)
        ensures
            p.spec_start() == start,
            p.spec_dir() == dir,
            p.spec_home() == home,
            p.spec_size() == size,
            p.spec_input_rows() == input_rows,
            p.spec_pending_browser_request() == pending_browser_request,
            p.spec_pending_search_request() == pending_search_request,
            p.spec_config() == config,
    {
        Props {
            start,
            dir,
            home,
            size,
            input_rows,
            pending_browser_request,
            pending_search_request,
            config,
        }
    }

    /// What to start in.
    pub closed spec fn spec_start(&self) -> Start {
        self.start
    }

    /// The directory to start in.
    pub closed spec fn spec_dir(&self) -> String {
        self.dir
    }

    /// The home directory.
    pub closed spec fn spec_home(&self) -> Option<String> {
        self.home
    }

    /// The size of the terminal.
    pub closed spec fn spec_size(&self) -> Size {
        self.size
    }

    /// How many rows the prompt needs.
    pub closed spec fn spec_input_rows(&self) -> usize {
        self.input_rows
    }

    /// The pending request for the files.
    pub closed spec fn spec_pending_browser_request(&self) -> Option<u128> {
        self.pending_browser_request
    }

    /// The pending request for the hits.
    pub closed spec fn spec_pending_search_request(&self) -> Option<u128> {
        self.pending_search_request
    }

    /// The configuration.
    pub closed spec fn spec_config(&self) -> Config {
        self.config
    }

    /// Return what to start in.
    pub fn start(&self) -> (s: &Start)
        ensures
            *s == self.spec_start(),
    {
        &self.start
    }

    /// Return the directory to start in.
    pub fn dir(&self) -> (d: &String)
        ensures
            *d == self.spec_dir(),
    {
        &self.dir
    }

    /// Return the pending request for the files.
    pub fn pending_browser_request(&self) -> (p: &Option<u128>)
        ensures
            *p == self.spec_pending_browser_request(),
    {
        &self.pending_browser_request
    }

    /// Return the pending request for the hits.
    pub fn pending_search_request(&self) -> (p: &Option<u128>)
        ensures
            *p == self.spec_pending_search_request(),
    {
        &self.pending_search_request
    }

    /// Return the configuration.
    pub fn config(&self) -> (c: &Config)
        ensures
            *c == self.spec_config(),
    {
        &self.config
    }
}

/// What is read off the terminal and the disk at the moment something happens, which the modes
/// need to handle it.
#[derive(Clone, Copy, Debug, PartialEq, Eq, Structural)]
pub struct Readings {
    /// The size of the terminal.
    pub size: Size,
    /// What the path of the entry selected in the browser is on disk.
    pub kind: PathKind,
    /// Whether the path typed into the directory bar of the mode which is showing is that of a
    /// directory on disk.
    pub directory: bool,
    /// The row the selection of the mode which is showing is scaled to at the size of the
    /// terminal.
    pub scaled: usize,
    /// How many rows what is being typed into the chat needs at the width of the terminal.
    pub input_rows: usize,
    /// How many lines what has been said in the chat takes up at the width of the terminal.
    pub transcript_lines: usize,
}

/// Something which happened.
pub enum Event {
    /// Something from the terminal.
    TermEvent(TermEvent),
    /// A response from the daemon.
    Response(Response),
}

/// What insh asks of the system.
pub enum SystemEffect {
    /// Exit.
    Exit,
    /// Ring the bell.
    Bell,
    /// Send a request.
    Request(Request),
    /// Send more than one request, in the order they are in.
    Requests(Vec<Request>),
    /// Edit a file.
    RunVim(VimArgs),
    /// Run a shell.
    RunBash {
        /// The directory to run it in.
        dir: String,
    },
    /// Copy some text to the clipboard.
    Copy {
        /// The text.
        contents: String,
    },
}

/// Which mode insh is in.
#[derive(Clone, Copy, Debug, PartialEq, Eq, Structural)]
pub enum Mode {
    /// Browsing the files in a directory.
    Browse,
    /// Making a new file.
    FileCreator,
    /// Finding files by name.
    Finder,
    /// Searching files for a phrase.
    Searcher,
    /// Chatting with an AI inference engine.
    Chat,
    /// Looking through the past chats.
    History,
    /// Searching the past chats.
    HistorySearcher,
    /// Nothing, so insh exits when anything happens.
    Nothing,
}

/// An insh action.
pub enum Action {
    /// Browse a directory.
    Browse {
        /// The directory to browse.
        dir: String,
        /// The file to select.
        file: Option<String>,
    },
    /// Make a new file.
    CreateFile {
        /// The directory to make it in.
        dir: String,
        /// The type of file to make.
        file_type: FileType,
    },
    /// Find files by name.
    Find {
        /// The directory to look in.
        dir: String,
    },
    /// Search files for a phrase.
    Search {
        /// The directory to search in.
        dir: String,
    },
    /// Chat about a directory.
    Chat {
        /// The directory to chat about.
        dir: String,
    },
    /// Ring the bell.
    Bell,
    /// Go back to the browser from the file creator.
    QuitFileCreator,
    /// Go back to the browser from the finder.
    QuitFinder {
        /// The directory which was being looked in.
        dir: String,
    },
    /// Go back to the browser from the searcher.
    QuitSearcher {
        /// The directory which was being searched in.
        dir: String,
    },
    /// Go back to the browser from the chat.
    QuitChat,
    /// Look through the past chats.
    History,
    /// Search the past chats.
    SearchHistory,
    /// Go back to the chat from the past chats.
    QuitHistory,
    /// Open a chat from the past chats.
    OpenChat {
        /// Which chat to open.
        id: i64,
    },
    /// Start a new chat from the past chats.
    NewChat,
}

/// What insh is seen as.
pub struct InshView {
    /// Which mode insh is in.
    pub mode: Mode,
    /// The browser.
    pub browser: Option<BrowserView>,
    /// The file creator.
    pub file_creator: Option<CreatorView>,
    /// The finder.
    pub finder: Option<FinderView>,
    /// The searcher.
    pub searcher: Option<SearcherView>,
    /// The chat.
    pub chat: Option<ChatView>,
    /// The past chats.
    pub history: Option<History>,
    /// The search of the past chats.
    pub history_searcher: Option<HistorySearcherView>,
    /// The configuration.
    pub config: Config,
    /// The home directory.
    pub home: Option<String>,
}

/// The properties of a browser of some directory, selecting a file, with its entries asked for
/// by a request.
pub open spec fn browser_props(
    v: InshView,
    dir: String,
    size: Size,
    file: Option<String>,
    pending: Option<u128>,
) -> BrowserProps {
    BrowserProps { config: v.config, dir, home: v.home, size, file, pending_request: pending }
}

/// Whether insh is as it starts for some properties: every mode but the one started in is yet
/// to be opened, and the browser is there to go back to, unless nothing is started.
pub open spec fn started(v: InshView, props: Props) -> bool {
    let dir = props.spec_dir();
    let size = props.spec_size();
    &&& v.config == props.spec_config()
    &&& v.home == props.spec_home()
    &&& v.file_creator is None
    &&& v.history is None
    &&& v.history_searcher is None
    &&& match props.spec_start() {
        Start::Nothing => {
            &&& v.mode == Mode::Nothing
            &&& v.browser is None
            &&& v.finder is None
            &&& v.searcher is None
            &&& v.chat is None
        },
        start => {
            &&& v.browser matches Some(b) && browser_started(
                b,
                browser_props(v, dir, size, None, props.spec_pending_browser_request()),
            )
            &&& match start {
                Start::Finder { phrase } => {
                    &&& v.mode == Mode::Finder
                    &&& v.finder matches Some(f) && finder_started(f, FinderProps { dir, size, phrase })
                },
                _ => v.finder is None,
            }
            &&& match start {
                Start::Searcher { phrase } => {
                    &&& v.mode == Mode::Searcher
                    &&& v.searcher matches Some(s) && searcher_started(
                        s,
                        SearcherProps {
                            dir,
                            size,
                            phrase,
                            pending_request: props.spec_pending_search_request(),
                        },
                    )
                },
                _ => v.searcher is None,
            }
            &&& match start {
                Start::Chat { prompt } => {
                    &&& v.mode == Mode::Chat
                    &&& v.chat matches Some(c) && chat_started(
                        c,
                        ChatProps { dir, size, prompt },
                        props.spec_input_rows(),
                    )
                },
                _ => v.chat is None,
            }
            &&& start == Start::Browser ==> v.mode == Mode::Browse
        },
    }
}

/// The bell, if it is configured to be rung.
pub open spec fn bell_of(config: Config) -> Option<SystemEffect> {
    if config.general.bell {
        Some(SystemEffect::Bell)
    } else {
        None
    }
}

/// What to do next after a mode handled something: an action of insh's own, or something to
/// give back as it is.
pub enum Next {
    /// Perform an action.
    Act(Action),
    /// Give this back.
    Give(Option<SystemEffect>),
}

/// Whether insh is a browser of some directory, as it starts at some size, selecting a file,
/// having asked to note that the directory was gone to and then for its entries.
pub open spec fn browsed(
    before: InshView,
    after: InshView,
    dir: String,
    file: Option<String>,
    size: Size,
    requests: Seq<Request>,
) -> bool {
    &&& requests.len() == 2
    &&& visits(requests[0], dir@)
    &&& is_get_files(requests[1].params, dir@, before.config, before.config.browser.metadata)
    &&& is_random_uuid(requests[1].uuid)
    &&& after.browser matches Some(b) && browser_started(
        b,
        browser_props(before, dir, size, file, Some(requests[1].uuid)),
    )
    &&& after == InshView { mode: Mode::Browse, browser: after.browser, ..before }
}

/// Whether a chat was told the size of the terminal.
pub open spec fn chat_resized(before: ChatView, after: ChatView, readings: Readings) -> bool {
    exists|e: Option<ChatEffect>|
        #[trigger] chat_handled(
            before,
            after,
            ChatEvent::Resize { size: readings.size, input_rows: readings.input_rows },
            e,
        )
}

/// A chat showing a past one, with how the last reply came along forgotten.
pub open spec fn opened(c: ChatView, id: i64) -> ChatView {
    ChatView { state: ChatStateView { chat_id: Some(id), pending: None, ..c.state.forgotten() }, ..c }
}

/// Whether the past chats are as they are opened at some size: none of them known yet.
pub open spec fn history_started(h: History, size: Size) -> bool {
    &&& h.wf()
    &&& h.chats().entries().len() == 0
    &&& h.chats().rows() == (if size.rows >= FOOTER_ROWS { size.rows - FOOTER_ROWS } else { 0 })
    &&& !h.is_deleting()
}

/// What telling the browser to show a directory does: it stays as it was if the directory is
/// the one shown; showing one only asks for the entries in it.
pub open spec fn shown_dir(mid: InshView, after: InshView, dir: String, r: Option<SystemEffect>) -> bool {
    match mid.browser {
        Some(b) => exists|b2: BrowserView, e: Option<BrowserEffect>|
            #[trigger] browser_handled(b, b2, BrowserEvent::SetDir { dir }, e) && after
                == InshView { browser: Some(b2), ..mid } && r == match e {
                Some(BrowserEffect::Request(request)) => Some(SystemEffect::Request(request)),
                _ => None,
            },
        None => after == mid && r is None,
    }
}

/// Whether an action can be performed: every mode but the browser goes back to the browser, and
/// the past chats go back to the chat.
pub open spec fn can_perform(v: InshView, action: Action) -> bool {
    match action {
        Action::Browse { .. } | Action::Bell => true,
        Action::History | Action::SearchHistory | Action::QuitHistory | Action::OpenChat { .. }
        | Action::NewChat => v.browser is Some && v.chat is Some,
        _ => v.browser is Some,
    }
}

/// What performing an action does to insh, at the size and with the measures of the moment,
/// and what it gives back.
pub open spec fn performed(
    before: InshView,
    after: InshView,
    action: Action,
    readings: Readings,
    r: Option<SystemEffect>,
) -> bool {
    let size = readings.size;
    match action {
        Action::Browse { dir, file } => r matches Some(SystemEffect::Requests(requests)) && browsed(
            before,
            after,
            dir,
            file,
            size,
            requests@,
        ),
        Action::CreateFile { dir, file_type } => {
            &&& r is None
            &&& after.file_creator matches Some(c) && creator_started(
                c,
                CreatorProps { dir, home: before.home, file_type },
            )
            &&& after == InshView {
                mode: Mode::FileCreator,
                file_creator: after.file_creator,
                ..before
            }
        },
        Action::Find { dir } => {
            &&& r is None
            &&& after.finder matches Some(f) && finder_started(
                f,
                FinderProps { dir, size, phrase: None },
            )
            &&& after == InshView { mode: Mode::Finder, finder: after.finder, ..before }
        },
        Action::Search { dir } => {
            &&& r is None
            &&& after.searcher matches Some(s) && searcher_started(
                s,
                SearcherProps { dir, size, phrase: None, pending_request: None },
            )
            &&& after == InshView { mode: Mode::Searcher, searcher: after.searcher, ..before }
        },
        Action::Chat { dir } => {
            &&& r matches Some(SystemEffect::Request(request)) && request.params
                == RequestParams::AiStatus && is_random_uuid(request.uuid)
            &&& after.chat matches Some(c) && chat_started(c, ChatProps { dir, size, prompt: None }, 1)
            &&& after == InshView { mode: Mode::Chat, chat: after.chat, ..before }
        },
        Action::Bell => r == bell_of(before.config) && after == before,
        Action::QuitFileCreator | Action::QuitChat => r is None && after == InshView {
            mode: Mode::Browse,
            ..before
        },
        Action::QuitFinder { dir } | Action::QuitSearcher { dir } => shown_dir(
            InshView { mode: Mode::Browse, ..before },
            after,
            dir,
            r,
        ),
        Action::History => {
            &&& r matches Some(SystemEffect::Request(request)) && request.params
                == (RequestParams::ListChats { limit: CHAT_LIMIT })
            &&& after.history matches Some(h) && history_started(h, size)
            &&& after == InshView { mode: Mode::History, history: after.history, ..before }
        },
        Action::SearchHistory => {
            &&& r is None
            &&& after.history_searcher matches Some(s) && history_searcher_started(s, size)
            &&& after == InshView {
                mode: Mode::HistorySearcher,
                history_searcher: after.history_searcher,
                ..before
            }
        },
        Action::QuitHistory => before.chat matches Some(c) && r is None && exists|c2: ChatView|
            #[trigger] chat_resized(c, c2, readings) && after == InshView {
                mode: Mode::Chat,
                chat: Some(c2),
                ..before
            },
        Action::OpenChat { id } => {
            &&& r matches Some(SystemEffect::Request(request)) && request.params
                == (RequestParams::GetChat { chat_id: id }) && is_random_uuid(request.uuid)
            &&& before.chat matches Some(c) && exists|c2: ChatView|
                #[trigger] chat_resized(c, c2, readings) && after == InshView {
                    mode: Mode::Chat,
                    chat: Some(opened(c2, id)),
                    ..before
                }
        },
        Action::NewChat => before.chat matches Some(c) && r is None && exists|
            c2: ChatView,
            c3: ChatView,
        |
            #![trigger chat_resized(c, c2, readings), started_new(c2, c3)]
            chat_resized(c, c2, readings) && started_new(c2, c3) && c3.state.size == c2.state.size
                && after == InshView { mode: Mode::Chat, chat: Some(c3), ..before },
    }
}

/// What going on after a mode handled something does to insh, and what it gives back.
pub open spec fn went_on(
    mid: InshView,
    after: InshView,
    next: Next,
    readings: Readings,
    r: Option<SystemEffect>,
) -> bool {
    match next {
        Next::Act(action) => performed(mid, after, action, readings, r),
        Next::Give(given) => after == mid && r == given,
    }
}

/// The key which exits insh, whatever is showing.
pub open spec fn exit_key() -> KeyEvent {
    KeyEvent { key: Key::Char('x'), mods: control_mods() }
}

/// Whether something which happened is the key which exits insh.
pub open spec fn is_exit(event: Event) -> bool {
    event == Event::TermEvent(TermEvent::KeyEvent(exit_key()))
}

/// Whether something which happened is the answer to a note that a directory was gone to.
pub open spec fn is_visit(event: Event) -> bool {
    event matches Event::Response(response) && response.params is VisitDir
}

/// Whether something which happened is a piece of a reply in the chat.
pub open spec fn is_reply(event: Event) -> bool {
    event matches Event::Response(response) && response.params is Chat
}

/// What the browser is handed for something which happened.
pub open spec fn browser_event(event: Event, readings: Readings) -> BrowserEvent {
    match event {
        Event::TermEvent(TermEvent::Resize(size)) => BrowserEvent::Resize {
            size,
            scaled: readings.scaled,
        },
        Event::TermEvent(t) => BrowserEvent::Term { event: t, kind: readings.kind, directory: readings.directory },
        Event::Response(response) => BrowserEvent::Response(response),
    }
}

/// What the file creator is handed for something which happened.
pub open spec fn creator_event(event: Event, readings: Readings) -> CreatorEvent {
    match event {
        Event::TermEvent(t) => CreatorEvent::Term { event: t, directory: readings.directory },
        Event::Response(response) => CreatorEvent::Response(response),
    }
}

/// What the finder is handed for something which happened.
pub open spec fn finder_event(event: Event, readings: Readings) -> FinderEvent {
    match event {
        Event::TermEvent(TermEvent::Resize(size)) => FinderEvent::Resize {
            size,
            scaled: readings.scaled,
        },
        Event::TermEvent(t) => FinderEvent::TermEvent(t),
        Event::Response(response) => FinderEvent::Response(response),
    }
}

/// What the searcher is handed for something which happened.
pub open spec fn searcher_event(event: Event, readings: Readings) -> SearcherEvent {
    match event {
        Event::TermEvent(TermEvent::Resize(size)) => SearcherEvent::Resize {
            size,
            scaled: readings.scaled,
        },
        Event::TermEvent(t) => SearcherEvent::TermEvent(t),
        Event::Response(response) => SearcherEvent::Response(response),
    }
}

/// What the chat is handed for something which happened.
pub open spec fn chat_event(event: Event, readings: Readings) -> ChatEvent {
    match event {
        Event::TermEvent(TermEvent::Resize(size)) => ChatEvent::Resize {
            size,
            input_rows: readings.input_rows,
        },
        Event::TermEvent(t) => ChatEvent::Term {
            event: t,
            input_rows: readings.input_rows,
            transcript_lines: readings.transcript_lines,
        },
        Event::Response(response) => ChatEvent::Response(response),
    }
}

/// What the past chats are handed for something which happened.
pub open spec fn history_event(event: Event) -> HistoryEvent {
    match event {
        Event::TermEvent(t) => HistoryEvent::TermEvent(t),
        Event::Response(response) => HistoryEvent::Response(response),
    }
}

/// What the search of the past chats is handed for something which happened.
pub open spec fn history_searcher_event(event: Event) -> HistorySearcherEvent {
    match event {
        Event::TermEvent(t) => HistorySearcherEvent::TermEvent(t),
        Event::Response(response) => HistorySearcherEvent::Response(response),
    }
}

/// What comes next after the browser asked for something.
pub open spec fn browser_next(e: Option<BrowserEffect>) -> Next {
    match e {
        Some(BrowserEffect::OpenFileCreator { dir, file_type }) => Next::Act(
            Action::CreateFile { dir, file_type },
        ),
        Some(BrowserEffect::OpenFinder { dir }) => Next::Act(Action::Find { dir }),
        Some(BrowserEffect::OpenSearcher { dir }) => Next::Act(Action::Search { dir }),
        Some(BrowserEffect::OpenVim(args)) => Next::Give(Some(SystemEffect::RunVim(args))),
        Some(BrowserEffect::RunBash { dir }) => Next::Give(Some(SystemEffect::RunBash { dir })),
        Some(BrowserEffect::Copy { contents }) => Next::Give(Some(SystemEffect::Copy { contents })),
        Some(BrowserEffect::Bell) => Next::Act(Action::Bell),
        Some(BrowserEffect::Request(request)) => Next::Give(Some(SystemEffect::Request(request))),
        Some(BrowserEffect::Requests(requests)) => Next::Give(
            Some(SystemEffect::Requests(requests)),
        ),
        None => Next::Give(None),
    }
}

/// What comes next after the file creator asked for something.
pub open spec fn creator_next(e: Option<CreatorEffect>) -> Next {
    match e {
        Some(CreatorEffect::Request(request)) => Next::Give(Some(SystemEffect::Request(request))),
        Some(CreatorEffect::Browse { dir, file }) => Next::Act(Action::Browse { dir, file }),
        Some(CreatorEffect::Bell) => Next::Act(Action::Bell),
        Some(CreatorEffect::Quit) => Next::Act(Action::QuitFileCreator),
        None => Next::Give(None),
    }
}

/// What comes next after the finder, looking in a directory, asked for something.
pub open spec fn finder_next(e: Option<FinderEffect>, dir: String) -> Next {
    match e {
        Some(FinderEffect::Request(request)) => Next::Give(Some(SystemEffect::Request(request))),
        Some(FinderEffect::Browse { dir, file }) => Next::Act(Action::Browse { dir, file }),
        Some(FinderEffect::OpenVim(args)) => Next::Give(Some(SystemEffect::RunVim(args))),
        Some(FinderEffect::Copy { contents }) => Next::Give(Some(SystemEffect::Copy { contents })),
        Some(FinderEffect::Bell) => Next::Act(Action::Bell),
        Some(FinderEffect::Quit) => Next::Act(Action::QuitFinder { dir }),
        None => Next::Give(None),
    }
}

/// What comes next after the searcher, searching in a directory, asked for something.
pub open spec fn searcher_next(e: Option<SearcherEffect>, dir: String) -> Next {
    match e {
        Some(SearcherEffect::Request(request)) => Next::Give(Some(SystemEffect::Request(request))),
        Some(SearcherEffect::Goto { dir, file }) => Next::Act(Action::Browse { dir, file }),
        Some(SearcherEffect::OpenVim(args)) => Next::Give(Some(SystemEffect::RunVim(args))),
        Some(SearcherEffect::Copy { contents }) => Next::Give(
            Some(SystemEffect::Copy { contents }),
        ),
        Some(SearcherEffect::Bell) => Next::Act(Action::Bell),
        Some(SearcherEffect::Quit) => Next::Act(Action::QuitSearcher { dir }),
        None => Next::Give(None),
    }
}

/// What comes next after the chat asked for something.
pub open spec fn chat_next(e: Option<ChatEffect>) -> Next {
    match e {
        Some(ChatEffect::Request(request)) => Next::Give(Some(SystemEffect::Request(request))),
        Some(ChatEffect::Bell) => Next::Act(Action::Bell),
        Some(ChatEffect::OpenHistory) => Next::Act(Action::History),
        Some(ChatEffect::Quit) => Next::Act(Action::QuitChat),
        None => Next::Give(None),
    }
}

/// What comes next after the past chats asked for something.
pub open spec fn history_next(e: Option<HistoryEffect>) -> Next {
    match e {
        Some(HistoryEffect::Request(request)) => Next::Give(Some(SystemEffect::Request(request))),
        Some(HistoryEffect::Open { id }) => Next::Act(Action::OpenChat { id }),
        Some(HistoryEffect::New) => Next::Act(Action::NewChat),
        Some(HistoryEffect::Bell) => Next::Act(Action::Bell),
        Some(HistoryEffect::Search) => Next::Act(Action::SearchHistory),
        Some(HistoryEffect::Quit) => Next::Act(Action::QuitHistory),
        None => Next::Give(None),
    }
}

/// What comes next after the search of the past chats asked for something: leaving it goes
/// back to the past chats, looked through afresh.
pub open spec fn history_searcher_next(e: Option<HistorySearcherEffect>) -> Next {
    match e {
        Some(HistorySearcherEffect::Request(request)) => Next::Give(
            Some(SystemEffect::Request(request)),
        ),
        Some(HistorySearcherEffect::Open { id }) => Next::Act(Action::OpenChat { id }),
        Some(HistorySearcherEffect::Bell) => Next::Act(Action::Bell),
        Some(HistorySearcherEffect::Quit) => Next::Act(Action::History),
        None => Next::Give(None),
    }
}

/// What a reply in the chat does while something else is showing: it belongs to the chat
/// rather than to whatever is being looked at, and where the chat goes next is for whoever is
/// looking at it to say, which nobody is.
pub open spec fn replied_away(before: InshView, after: InshView, event: Event, r: Option<SystemEffect>) -> bool {
    match before.chat {
        Some(c) => exists|c2: ChatView, e: Option<ChatEffect>|
            #[trigger] chat_handled(c, c2, ChatEvent::Response(event->Response_0), e) && after
                == InshView { chat: Some(c2), ..before } && r == match e {
                Some(ChatEffect::Request(request)) => Some(SystemEffect::Request(request)),
                Some(ChatEffect::Bell) => bell_of(before.config),
                _ => None,
            },
        None => after == before && r is None,
    }
}

/// What the mode which is showing does with something which happened, and where insh goes
/// next.
pub open spec fn mode_handled(
    before: InshView,
    after: InshView,
    event: Event,
    readings: Readings,
    r: Option<SystemEffect>,
) -> bool {
    match before.mode {
        Mode::Browse => before.browser matches Some(b) && exists|
            b2: BrowserView,
            e: Option<BrowserEffect>,
        |
            #[trigger] browser_handled(b, b2, browser_event(event, readings), e) && went_on(
                InshView { browser: Some(b2), ..before },
                after,
                browser_next(e),
                readings,
                r,
            ),
        Mode::FileCreator => before.file_creator matches Some(c) && exists|
            c2: CreatorView,
            e: Option<CreatorEffect>,
        |
            #[trigger] creator_handled(c, c2, creator_event(event, readings), e) && went_on(
                InshView { file_creator: Some(c2), ..before },
                after,
                creator_next(e),
                readings,
                r,
            ),
        Mode::Finder => before.finder matches Some(f) && exists|
            f2: FinderView,
            e: Option<FinderEffect>,
            dir: String,
        |
            #![trigger finder_handled(f, f2, finder_event(event, readings), e), finder_next(e, dir)]
            finder_handled(f, f2, finder_event(event, readings), e) && dir@ == f2.dir && went_on(
                InshView { finder: Some(f2), ..before },
                after,
                finder_next(e, dir),
                readings,
                r,
            ),
        Mode::Searcher => before.searcher matches Some(s) && exists|
            s2: SearcherView,
            e: Option<SearcherEffect>,
            dir: String,
        |
            #![trigger searcher_handled(s, s2, searcher_event(event, readings), e), searcher_next(e, dir)]
            searcher_handled(s, s2, searcher_event(event, readings), e) && dir@ == s2.dir
                && went_on(
                InshView { searcher: Some(s2), ..before },
                after,
                searcher_next(e, dir),
                readings,
                r,
            ),
        Mode::Chat => before.chat matches Some(c) && exists|c2: ChatView, e: Option<ChatEffect>|
            #[trigger] chat_handled(c, c2, chat_event(event, readings), e) && went_on(
                InshView { chat: Some(c2), ..before },
                after,
                chat_next(e),
                readings,
                r,
            ),
        Mode::History => before.history matches Some(h) && exists|
            h2: History,
            e: Option<HistoryEffect>,
        |
            #[trigger] History::handled(h, h2, history_event(event), e) && went_on(
                InshView { history: Some(h2), ..before },
                after,
                history_next(e),
                readings,
                r,
            ),
        Mode::HistorySearcher => before.history_searcher matches Some(s) && exists|
            s2: HistorySearcherView,
            e: Option<HistorySearcherEffect>,
        |
            #[trigger] history_searcher_handled(s, s2, history_searcher_event(event), e) && went_on(
                InshView { history_searcher: Some(s2), ..before },
                after,
                history_searcher_next(e),
                readings,
                r,
            ),
        Mode::Nothing => r == Some(SystemEffect::Exit) && after == before,
    }
}

/// What handling something which happened does to insh, and what it gives back.
///
/// Control and `x` exits, whatever is showing. The answer to a note that a directory was gone
/// to is dropped, since there is nothing for a mode to do with it. A piece of a reply goes to
/// the chat, whatever is showing. Anything else goes to the mode which is showing, and what it
/// asks for is done.
pub open spec fn handled(
    before: InshView,
    after: InshView,
    event: Event,
    readings: Readings,
    r: Option<SystemEffect>,
) -> bool {
    if is_exit(event) {
        r == Some(SystemEffect::Exit) && after == before
    } else if is_visit(event) {
        r is None && after == before
    } else if is_reply(event) && before.mode != Mode::Chat {
        replied_away(before, after, event, r)
    } else {
        mode_handled(before, after, event, readings, r)
    }
}

/// Whether the mode which is showing can handle something which happened.
pub open spec fn can_handle(v: InshView, event: Event, readings: Readings) -> bool {
    is_exit(event) || is_visit(event) || (is_reply(event) && v.mode != Mode::Chat) || match v.mode {
        Mode::Browse => v.browser matches Some(b) && browser_can_handle(
            b,
            browser_event(event, readings),
        ),
        Mode::Finder => v.finder matches Some(f) && finder_can_handle(
            f,
            finder_event(event, readings),
        ),
        Mode::Searcher => v.searcher matches Some(s) && searcher_can_handle(
            s,
            searcher_event(event, readings),
        ),
        _ => true,
    }
}

/// Control and `x` exits insh, whatever is showing, and changes nothing.
pub proof fn law_control_x_exits(
    before: InshView,
    after: InshView,
    readings: Readings,
    r: Option<SystemEffect>,
)
    requires
        handled(before, after, Event::TermEvent(TermEvent::KeyEvent(exit_key())), readings, r),
    ensures
        r == Some(SystemEffect::Exit),
        after == before,
{
}

/// A piece of a reply reaches the chat whatever is showing: the chat takes it in as it would
/// were it showing, and what is showing stays.
pub proof fn law_a_reply_reaches_the_chat(
    before: InshView,
    after: InshView,
    response: Response,
    readings: Readings,
    r: Option<SystemEffect>,
)
    requires
        response.params is Chat,
        before.chat is Some,
        handled(before, after, Event::Response(response), readings, r),
    ensures
        after.mode == before.mode,
        after.chat matches Some(c2) && exists|e: Option<ChatEffect>|
            #[trigger] chat_handled(before.chat.unwrap(), c2, ChatEvent::Response(response), e),
{
}

/// Leaving the finder shows the browser in the directory the finder was looking in, with the
/// directory bar saying so; a browser which shows that directory already stays as it was.
pub proof fn law_leaving_the_finder_shows_where_it_was(
    before: InshView,
    after: InshView,
    dir: String,
    readings: Readings,
    r: Option<SystemEffect>,
)
    requires
        before.browser is Some,
        performed(before, after, Action::QuitFinder { dir }, readings, r),
    ensures
        after.mode == Mode::Browse,
        after.browser matches Some(b) && b.contents.dir == dir@ && b.bar.dir == dir@,
        before.browser.unwrap().contents.dir == dir@ ==> after.browser.unwrap().contents
            == before.browser.unwrap().contents && r is None,
{
}

/// The state of insh.
struct State {
    /// Which mode insh is in.
    mode: Mode,
    /// The browser.
    browser: Option<Browser>,
    /// The file creator.
    file_creator: Option<FileCreator>,
    /// The finder.
    finder: Option<Finder>,
    /// The searcher.
    searcher: Option<Searcher>,
    /// The chat.
    chat: Option<Chat>,
    /// The past chats.
    history: Option<History>,
    /// The search of the past chats.
    history_searcher: Option<HistorySearcher>,
    /// The configuration.
    config: Config,
    /// The home directory.
    home: Option<String>,
}

impl State {
    /// What the state is seen as.
    spec fn view(&self) -> InshView {
        InshView {
            mode: self.mode,
            browser: match self.browser {
                Some(b) => Some(b.view()),
                None => None,
            },
            file_creator: match self.file_creator {
                Some(c) => Some(c.view()),
                None => None,
            },
            finder: match self.finder {
                Some(f) => Some(f.view()),
                None => None,
            },
            searcher: match self.searcher {
                Some(s) => Some(s.view()),
                None => None,
            },
            chat: match self.chat {
                Some(c) => Some(c.view()),
                None => None,
            },
            history: self.history,
            history_searcher: match self.history_searcher {
                Some(s) => Some(s.view()),
                None => None,
            },
            config: self.config,
            home: self.home,
        }
    }

    /// What the state keeps to: the mode showing is there, and so is what it goes back to, and
    /// each mode keeps to what it keeps to.
    spec fn wf(&self) -> bool {
        &&& self.mode != Mode::Nothing ==> self.browser is Some
        &&& self.mode == Mode::FileCreator ==> self.file_creator is Some
        &&& self.mode == Mode::Finder ==> self.finder is Some
        &&& self.mode == Mode::Searcher ==> self.searcher is Some
        &&& (self.mode == Mode::Chat || self.mode == Mode::History || self.mode
            == Mode::HistorySearcher) ==> self.chat is Some
        &&& self.mode == Mode::History ==> self.history is Some
        &&& self.mode == Mode::HistorySearcher ==> self.history_searcher is Some
        &&& self.browser matches Some(b) ==> b.view().contents.wf()
        &&& self.file_creator matches Some(c) ==> c.view().wf()
        &&& self.finder matches Some(f) ==> f.wf()
        &&& self.searcher matches Some(s) ==> s.wf()
        &&& self.history matches Some(h) ==> h.wf()
        &&& self.history_searcher matches Some(s) ==> s.wf()
    }

    /// Return the state insh starts in for some properties.
    fn new(props: Props) -> (s: State)
        ensures
            s.wf(),
            started(s.view(), props),
    {
        let Props {
            start,
            dir,
            home,
            size,
            input_rows,
            pending_browser_request,
            pending_search_request,
            config,
        } = props;
        let ghost v = InshView {
            mode: Mode::Nothing,
            browser: None,
            file_creator: None,
            finder: None,
            searcher: None,
            chat: None,
            history: None,
            history_searcher: None,
            config,
            home,
        };
        if let Start::Nothing = start {
            return State {
                mode: Mode::Nothing,
                browser: None,
                file_creator: None,
                finder: None,
                searcher: None,
                chat: None,
                history: None,
                history_searcher: None,
                config,
                home,
            };
        }
        let browser = Browser::new(
            BrowserProps {
                config,
                dir: dir.clone(),
                home: home.clone(),
                size,
                file: None,
                pending_request: pending_browser_request,
            },
        );
        proof {
            assert(browser_started(
                browser.view(),
                browser_props(v, dir, size, None, pending_browser_request),
            ));
        }
        let mut state = State {
            mode: Mode::Browse,
            browser: Some(browser),
            file_creator: None,
            finder: None,
            searcher: None,
            chat: None,
            history: None,
            history_searcher: None,
            config,
            home,
        };
        match start {
            Start::Finder { phrase } => {
                state.finder = Some(Finder::new(FinderProps { dir, size, phrase }));
                state.mode = Mode::Finder;
            },
            Start::Searcher { phrase } => {
                state.searcher = Some(
                    Searcher::new(
                        SearcherProps { dir, size, phrase, pending_request: pending_search_request },
                    ),
                );
                state.mode = Mode::Searcher;
            },
            Start::Chat { prompt } => {
                state.chat = Some(Chat::new(ChatProps { dir, size, prompt }, input_rows));
                state.mode = Mode::Chat;
            },
            _ => {},
        }
        state
    }
}

impl State {
    /// If the bell is configured to be rung, return the effect ringing it.
    fn bell(&self) -> (r: Option<SystemEffect>)
        ensures
            r == bell_of(self.config),
    {
        if self.config.general().bell() {
            Some(SystemEffect::Bell)
        } else {
            None
        }
    }

    /// Tell the chat how big the terminal is now.
    ///
    /// Only the mode which is showing is told when the terminal changes size, so a chat which
    /// was left to look through the past ones has to be told again on the way back. How far back
    /// what was said can be read depends on how much of it fits, so a chat which was told the
    /// wrong size scrolls by the wrong amount.
    fn resize_chat(&mut self, readings: Readings)
        ensures
            old(self).wf() ==> final(self).wf(),
            final(self).view() == (InshView { chat: final(self).view().chat, ..old(self).view() }),
            match old(self).view().chat {
                Some(c) => final(self).view().chat matches Some(c2) && chat_resized(c, c2, readings),
                None => final(self).view().chat is None,
            },
    {
        match self.chat.take() {
            Some(mut chat) => {
                let e = chat.handle(ChatEvent::Resize { size: readings.size, input_rows: readings.input_rows });
                self.chat = Some(chat);
            },
            None => {},
        }
    }

    /// Tell the browser to show a directory.
    ///
    /// The directory bar in the finder or the searcher goes somewhere without the browser
    /// knowing about it, so the browser is shown where the finder or the searcher was left
    /// rather than where it was itself when it was left. It stays as it was if the directory is
    /// the same one.
    fn show_dir(&mut self, dir: String) -> (r: Option<SystemEffect>)
        requires
            old(self).wf(),
        ensures
            final(self).wf(),
            shown_dir(old(self).view(), final(self).view(), dir, r),
    {
        match self.browser.take() {
            Some(mut browser) => {
                let ghost b = browser.view();
                let e = browser.handle(BrowserEvent::SetDir { dir });
                let ghost b2 = browser.view();
                self.browser = Some(browser);
                match e {
                    Some(BrowserEffect::Request(request)) => Some(SystemEffect::Request(request)),
                    // Showing a directory only asks for the entries in it.
                    _ => None,
                }
            },
            None => None,
        }
    }

    /// Perform an action, at the size and with the measures of the moment.
    fn perform(&mut self, action: Action, readings: Readings) -> (r: Option<SystemEffect>)
        requires
            old(self).wf(),
            can_perform(old(self).view(), action),
        ensures
            final(self).wf(),
            performed(old(self).view(), final(self).view(), action, readings, r),
    {
        let ghost before = self.view();
        let size = readings.size;
        match action {
            Action::Browse { dir, file } => {
                let request = get_files_request(dir.clone(), &self.config, self.config.browser.metadata);
                let visit = Request::new(RequestParams::VisitDir { dir: dir.clone() });
                let uuid = request.uuid;
                let ghost props = browser_props(before, dir, size, file, Some(uuid));
                let browser = Browser::new(
                    BrowserProps {
                        config: self.config,
                        dir,
                        home: self.home.clone(),
                        size,
                        file,
                        pending_request: Some(uuid),
                    },
                );
                assert(browser_started(browser.view(), props));
                self.mode = Mode::Browse;
                self.browser = Some(browser);
                let requests = vec![visit, request];
                assert(browsed(before, self.view(), dir, file, size, requests@));
                Some(SystemEffect::Requests(requests))
            },
            Action::CreateFile { dir, file_type } => {
                let creator = FileCreator::new(CreatorProps { dir, home: self.home.clone(), file_type });
                self.mode = Mode::FileCreator;
                self.file_creator = Some(creator);
                None
            },
            Action::Find { dir } => {
                self.finder = Some(Finder::new(FinderProps { dir, size, phrase: None }));
                self.mode = Mode::Finder;
                None
            },
            Action::Search { dir } => {
                self.searcher = Some(
                    Searcher::new(SearcherProps { dir, size, phrase: None, pending_request: None }),
                );
                self.mode = Mode::Searcher;
                None
            },
            Action::Chat { dir } => {
                // Nothing is typed into a new chat yet, which takes the one row.
                self.chat = Some(Chat::new(ChatProps { dir, size, prompt: None }, 1));
                self.mode = Mode::Chat;
                Some(SystemEffect::Request(Chat::initial_request()))
            },
            Action::Bell => self.bell(),
            Action::QuitFileCreator => {
                self.mode = Mode::Browse;
                None
            },
            Action::QuitChat => {
                self.mode = Mode::Browse;
                None
            },
            Action::QuitFinder { dir } => {
                self.mode = Mode::Browse;
                self.show_dir(dir)
            },
            Action::QuitSearcher { dir } => {
                self.mode = Mode::Browse;
                self.show_dir(dir)
            },
            Action::History => {
                self.history = Some(History::new(size));
                self.mode = Mode::History;
                Some(SystemEffect::Request(History::initial_request()))
            },
            Action::SearchHistory => {
                self.history_searcher = Some(HistorySearcher::new(size));
                self.mode = Mode::HistorySearcher;
                None
            },
            Action::QuitHistory => {
                self.mode = Mode::Chat;
                self.resize_chat(readings);
                None
            },
            Action::OpenChat { id } => {
                self.mode = Mode::Chat;
                self.resize_chat(readings);
                let mut chat = self.chat.take().unwrap();
                let request = chat.open(id);
                self.chat = Some(chat);
                Some(SystemEffect::Request(request))
            },
            Action::NewChat => {
                self.mode = Mode::Chat;
                self.resize_chat(readings);
                let mut chat = self.chat.take().unwrap();
                chat.start_new();
                self.chat = Some(chat);
                None
            },
        }
    }
}

/// Return what the browser is handed for something which happened.
fn browser_event_of(event: Event, readings: Readings) -> (e: BrowserEvent)
    ensures
        e == browser_event(event, readings),
{
    match event {
        Event::TermEvent(TermEvent::Resize(size)) => BrowserEvent::Resize {
            size,
            scaled: readings.scaled,
        },
        Event::TermEvent(t) => BrowserEvent::Term { event: t, kind: readings.kind, directory: readings.directory },
        Event::Response(response) => BrowserEvent::Response(response),
    }
}

/// Return what the file creator is handed for something which happened.
fn creator_event_of(event: Event, readings: Readings) -> (e: CreatorEvent)
    ensures
        e == creator_event(event, readings),
{
    match event {
        Event::TermEvent(t) => CreatorEvent::Term { event: t, directory: readings.directory },
        Event::Response(response) => CreatorEvent::Response(response),
    }
}

/// Return what the finder is handed for something which happened.
fn finder_event_of(event: Event, readings: Readings) -> (e: FinderEvent)
    ensures
        e == finder_event(event, readings),
{
    match event {
        Event::TermEvent(TermEvent::Resize(size)) => FinderEvent::Resize {
            size,
            scaled: readings.scaled,
        },
        Event::TermEvent(t) => FinderEvent::TermEvent(t),
        Event::Response(response) => FinderEvent::Response(response),
    }
}

/// Return what the searcher is handed for something which happened.
fn searcher_event_of(event: Event, readings: Readings) -> (e: SearcherEvent)
    ensures
        e == searcher_event(event, readings),
{
    match event {
        Event::TermEvent(TermEvent::Resize(size)) => SearcherEvent::Resize {
            size,
            scaled: readings.scaled,
        },
        Event::TermEvent(t) => SearcherEvent::TermEvent(t),
        Event::Response(response) => SearcherEvent::Response(response),
    }
}

/// Return what the chat is handed for something which happened.
fn chat_event_of(event: Event, readings: Readings) -> (e: ChatEvent)
    ensures
        e == chat_event(event, readings),
{
    match event {
        Event::TermEvent(TermEvent::Resize(size)) => ChatEvent::Resize {
            size,
            input_rows: readings.input_rows,
        },
        Event::TermEvent(t) => ChatEvent::Term {
            event: t,
            input_rows: readings.input_rows,
            transcript_lines: readings.transcript_lines,
        },
        Event::Response(response) => ChatEvent::Response(response),
    }
}

/// Return what the past chats are handed for something which happened.
fn history_event_of(event: Event) -> (e: HistoryEvent)
    ensures
        e == history_event(event),
{
    match event {
        Event::TermEvent(t) => HistoryEvent::TermEvent(t),
        Event::Response(response) => HistoryEvent::Response(response),
    }
}

/// Return what the search of the past chats is handed for something which happened.
fn history_searcher_event_of(event: Event) -> (e: HistorySearcherEvent)
    ensures
        e == history_searcher_event(event),
{
    match event {
        Event::TermEvent(t) => HistorySearcherEvent::TermEvent(t),
        Event::Response(response) => HistorySearcherEvent::Response(response),
    }
}

/// Return what comes next after the browser asked for something.
fn browser_next_of(e: Option<BrowserEffect>) -> (n: Next)
    ensures
        n == browser_next(e),
{
    match e {
        Some(BrowserEffect::OpenFileCreator { dir, file_type }) => Next::Act(
            Action::CreateFile { dir, file_type },
        ),
        Some(BrowserEffect::OpenFinder { dir }) => Next::Act(Action::Find { dir }),
        Some(BrowserEffect::OpenSearcher { dir }) => Next::Act(Action::Search { dir }),
        Some(BrowserEffect::OpenVim(args)) => Next::Give(Some(SystemEffect::RunVim(args))),
        Some(BrowserEffect::RunBash { dir }) => Next::Give(Some(SystemEffect::RunBash { dir })),
        Some(BrowserEffect::Copy { contents }) => Next::Give(Some(SystemEffect::Copy { contents })),
        Some(BrowserEffect::Bell) => Next::Act(Action::Bell),
        Some(BrowserEffect::Request(request)) => Next::Give(Some(SystemEffect::Request(request))),
        Some(BrowserEffect::Requests(requests)) => Next::Give(
            Some(SystemEffect::Requests(requests)),
        ),
        None => Next::Give(None),
    }
}

/// Return what comes next after the file creator asked for something.
fn creator_next_of(e: Option<CreatorEffect>) -> (n: Next)
    ensures
        n == creator_next(e),
{
    match e {
        Some(CreatorEffect::Request(request)) => Next::Give(Some(SystemEffect::Request(request))),
        Some(CreatorEffect::Browse { dir, file }) => Next::Act(Action::Browse { dir, file }),
        Some(CreatorEffect::Bell) => Next::Act(Action::Bell),
        Some(CreatorEffect::Quit) => Next::Act(Action::QuitFileCreator),
        None => Next::Give(None),
    }
}

/// Return what comes next after the finder, looking in a directory, asked for something.
fn finder_next_of(e: Option<FinderEffect>, dir: String) -> (n: Next)
    ensures
        n == finder_next(e, dir),
{
    match e {
        Some(FinderEffect::Request(request)) => Next::Give(Some(SystemEffect::Request(request))),
        Some(FinderEffect::Browse { dir, file }) => Next::Act(Action::Browse { dir, file }),
        Some(FinderEffect::OpenVim(args)) => Next::Give(Some(SystemEffect::RunVim(args))),
        Some(FinderEffect::Copy { contents }) => Next::Give(Some(SystemEffect::Copy { contents })),
        Some(FinderEffect::Bell) => Next::Act(Action::Bell),
        Some(FinderEffect::Quit) => Next::Act(Action::QuitFinder { dir }),
        None => Next::Give(None),
    }
}

/// Return what comes next after the searcher, searching in a directory, asked for something.
fn searcher_next_of(e: Option<SearcherEffect>, dir: String) -> (n: Next)
    ensures
        n == searcher_next(e, dir),
{
    match e {
        Some(SearcherEffect::Request(request)) => Next::Give(Some(SystemEffect::Request(request))),
        Some(SearcherEffect::Goto { dir, file }) => Next::Act(Action::Browse { dir, file }),
        Some(SearcherEffect::OpenVim(args)) => Next::Give(Some(SystemEffect::RunVim(args))),
        Some(SearcherEffect::Copy { contents }) => Next::Give(
            Some(SystemEffect::Copy { contents }),
        ),
        Some(SearcherEffect::Bell) => Next::Act(Action::Bell),
        Some(SearcherEffect::Quit) => Next::Act(Action::QuitSearcher { dir }),
        None => Next::Give(None),
    }
}

/// Return what comes next after the chat asked for something.
fn chat_next_of(e: Option<ChatEffect>) -> (n: Next)
    ensures
        n == chat_next(e),
{
    match e {
        Some(ChatEffect::Request(request)) => Next::Give(Some(SystemEffect::Request(request))),
        Some(ChatEffect::Bell) => Next::Act(Action::Bell),
        Some(ChatEffect::OpenHistory) => Next::Act(Action::History),
        Some(ChatEffect::Quit) => Next::Act(Action::QuitChat),
        None => Next::Give(None),
    }
}

/// Return what comes next after the past chats asked for something.
fn history_next_of(e: Option<HistoryEffect>) -> (n: Next)
    ensures
        n == history_next(e),
{
    match e {
        Some(HistoryEffect::Request(request)) => Next::Give(Some(SystemEffect::Request(request))),
        Some(HistoryEffect::Open { id }) => Next::Act(Action::OpenChat { id }),
        Some(HistoryEffect::New) => Next::Act(Action::NewChat),
        Some(HistoryEffect::Bell) => Next::Act(Action::Bell),
        Some(HistoryEffect::Search) => Next::Act(Action::SearchHistory),
        Some(HistoryEffect::Quit) => Next::Act(Action::QuitHistory),
        None => Next::Give(None),
    }
}

/// Return what comes next after the search of the past chats asked for something.
fn history_searcher_next_of(e: Option<HistorySearcherEffect>) -> (n: Next)
    ensures
        n == history_searcher_next(e),
{
    match e {
        Some(HistorySearcherEffect::Request(request)) => Next::Give(
            Some(SystemEffect::Request(request)),
        ),
        Some(HistorySearcherEffect::Open { id }) => Next::Act(Action::OpenChat { id }),
        Some(HistorySearcherEffect::Bell) => Next::Act(Action::Bell),
        Some(HistorySearcherEffect::Quit) => Next::Act(Action::History),
        None => Next::Give(None),
    }
}

impl State {
    /// Go on after a mode handled something.
    fn go_on(&mut self, next: Next, readings: Readings) -> (r: Option<SystemEffect>)
        requires
            old(self).wf(),
            next matches Next::Act(action) ==> can_perform(old(self).view(), action),
        ensures
            final(self).wf(),
            went_on(old(self).view(), final(self).view(), next, readings, r),
    {
        match next {
            Next::Act(action) => self.perform(action, readings),
            Next::Give(given) => given,
        }
    }

    /// Hand something which happened to the browser.
    fn handle_browse(&mut self, event: Event, readings: Readings) -> (r: Option<SystemEffect>)
        requires
            old(self).wf(),
            old(self).mode == Mode::Browse,
            old(self).view().browser matches Some(b) && browser_can_handle(
                b,
                browser_event(event, readings),
            ),
        ensures
            final(self).wf(),
            mode_handled(old(self).view(), final(self).view(), event, readings, r),
    {
        let mut browser = self.browser.take().unwrap();
        let e = browser.handle(browser_event_of(event, readings));
        self.browser = Some(browser);
        self.go_on(browser_next_of(e), readings)
    }

    /// Hand something which happened to the file creator.
    fn handle_file_creator(&mut self, event: Event, readings: Readings) -> (r: Option<SystemEffect>)
        requires
            old(self).wf(),
            old(self).mode == Mode::FileCreator,
        ensures
            final(self).wf(),
            mode_handled(old(self).view(), final(self).view(), event, readings, r),
    {
        let mut creator = self.file_creator.take().unwrap();
        let e = creator.handle(creator_event_of(event, readings));
        self.file_creator = Some(creator);
        self.go_on(creator_next_of(e), readings)
    }

    /// Hand something which happened to the finder.
    fn handle_finder(&mut self, event: Event, readings: Readings) -> (r: Option<SystemEffect>)
        requires
            old(self).wf(),
            old(self).mode == Mode::Finder,
            old(self).view().finder matches Some(f) && finder_can_handle(
                f,
                finder_event(event, readings),
            ),
        ensures
            final(self).wf(),
            mode_handled(old(self).view(), final(self).view(), event, readings, r),
    {
        let mut finder = self.finder.take().unwrap();
        let e = finder.handle(finder_event_of(event, readings));
        let dir = finder.dir().clone();
        self.finder = Some(finder);
        let next = finder_next_of(e, dir);
        self.go_on(next, readings)
    }

    /// Hand something which happened to the searcher.
    fn handle_searcher(&mut self, event: Event, readings: Readings) -> (r: Option<SystemEffect>)
        requires
            old(self).wf(),
            old(self).mode == Mode::Searcher,
            old(self).view().searcher matches Some(s) && searcher_can_handle(
                s,
                searcher_event(event, readings),
            ),
        ensures
            final(self).wf(),
            mode_handled(old(self).view(), final(self).view(), event, readings, r),
    {
        let mut searcher = self.searcher.take().unwrap();
        let e = searcher.handle(searcher_event_of(event, readings));
        let dir = searcher.dir().clone();
        self.searcher = Some(searcher);
        let next = searcher_next_of(e, dir);
        self.go_on(next, readings)
    }

    /// Hand something which happened to the chat.
    fn handle_chat(&mut self, event: Event, readings: Readings) -> (r: Option<SystemEffect>)
        requires
            old(self).wf(),
            old(self).mode == Mode::Chat,
        ensures
            final(self).wf(),
            mode_handled(old(self).view(), final(self).view(), event, readings, r),
    {
        let mut chat = self.chat.take().unwrap();
        let e = chat.handle(chat_event_of(event, readings));
        self.chat = Some(chat);
        self.go_on(chat_next_of(e), readings)
    }

    /// Hand something which happened to the past chats.
    fn handle_history(&mut self, event: Event, readings: Readings) -> (r: Option<SystemEffect>)
        requires
            old(self).wf(),
            old(self).mode == Mode::History,
        ensures
            final(self).wf(),
            mode_handled(old(self).view(), final(self).view(), event, readings, r),
    {
        let mut history = self.history.take().unwrap();
        let e = history.handle(history_event_of(event));
        self.history = Some(history);
        self.go_on(history_next_of(e), readings)
    }

    /// Hand something which happened to the search of the past chats.
    fn handle_history_searcher(&mut self, event: Event, readings: Readings) -> (r: Option<SystemEffect>)
        requires
            old(self).wf(),
            old(self).mode == Mode::HistorySearcher,
        ensures
            final(self).wf(),
            mode_handled(old(self).view(), final(self).view(), event, readings, r),
    {
        let mut searcher = self.history_searcher.take().unwrap();
        let e = searcher.handle(history_searcher_event_of(event));
        self.history_searcher = Some(searcher);
        self.go_on(history_searcher_next_of(e), readings)
    }

    /// Hand a piece of a reply to the chat while something else is showing.
    ///
    /// A reply goes on arriving while the past chats are being looked through, and it belongs
    /// to the chat rather than to whatever is being looked at. Without this the mode which is
    /// showing would drop it, leaving the reply short of whatever came while it was away and,
    /// if the last piece came then, never told that it was over at all.
    fn handle_reply_away(&mut self, event: Event) -> (r: Option<SystemEffect>)
        requires
            old(self).wf(),
            is_reply(event),
        ensures
            final(self).wf(),
            replied_away(old(self).view(), final(self).view(), event, r),
    {
        let response = match event {
            Event::Response(response) => response,
            Event::TermEvent(_) => {
                return None;
            },
        };
        match self.chat.take() {
            Some(mut chat) => {
                let e = chat.handle(ChatEvent::Response(response));
                self.chat = Some(chat);
                match e {
                    Some(ChatEffect::Request(request)) => Some(SystemEffect::Request(request)),
                    Some(ChatEffect::Bell) => self.bell(),
                    // Where the chat goes next is for whoever is looking at it to say, and they
                    // are not looking at it.
                    _ => None,
                }
            },
            None => None,
        }
    }

    /// Handle something which happened.
    fn handle(&mut self, event: Event, readings: Readings) -> (r: Option<SystemEffect>)
        requires
            old(self).wf(),
            can_handle(old(self).view(), event, readings),
        ensures
            final(self).wf(),
            handled(old(self).view(), final(self).view(), event, readings, r),
    {
        if let Event::TermEvent(TermEvent::KeyEvent(key_event)) = &event {
            if key_event.key == Key::Char('x') && key_event.mods.is_control() {
                return Some(SystemEffect::Exit);
            }
        }
        // There is nothing for a mode to do with the answer to a note that a directory was gone
        // to, so it is dropped here rather than in every one of them.
        let (visit, reply) = match &event {
            Event::Response(response) => (
                matches!(response.params, ResponseParams::VisitDir),
                matches!(response.params, ResponseParams::Chat { .. }),
            ),
            Event::TermEvent(_) => (false, false),
        };
        if visit {
            return None;
        }
        if reply && self.mode != Mode::Chat {
            return self.handle_reply_away(event);
        }
        match self.mode {
            Mode::Browse => self.handle_browse(event, readings),
            Mode::FileCreator => self.handle_file_creator(event, readings),
            Mode::Finder => self.handle_finder(event, readings),
            Mode::Searcher => self.handle_searcher(event, readings),
            Mode::Chat => self.handle_chat(event, readings),
            Mode::History => self.handle_history(event, readings),
            Mode::HistorySearcher => self.handle_history_searcher(event, readings),
            Mode::Nothing => Some(SystemEffect::Exit),
        }
    }
}

/// The root of insh.
pub struct Insh {
    /// The state of insh.
    state: State,
}

impl Insh {
    /// What insh is seen as.
    pub closed spec fn view(&self) -> InshView {
        self.state.view()
    }

    /// What insh keeps to.
    pub closed spec fn wf(&self) -> bool {
        self.state.wf()
    }

    /// Return insh as it starts for some properties.
    pub fn new(props: Props) -> (i: Insh)
        ensures
            i.wf(),
            started(i.view(), props),
    {
        Insh { state: State::new(props) }
    }

    /// Return which mode insh is in.
    pub fn mode(&self) -> (m: Mode)
        ensures
            m == self.view().mode,
    {
        self.state.mode
    }

    /// Return the browser, once there is one.
    pub fn browser(&self) -> (b: Option<&Browser>)
        ensures
            match b {
                Some(b) => self.view().browser == Some(b.view()),
                None => self.view().browser is None,
            },
    {
        self.state.browser.as_ref()
    }

    /// Return the file creator, once there is one.
    pub fn file_creator(&self) -> (c: Option<&FileCreator>)
        ensures
            match c {
                Some(c) => self.view().file_creator == Some(c.view()),
                None => self.view().file_creator is None,
            },
    {
        self.state.file_creator.as_ref()
    }

    /// Return the finder, once there is one.
    pub fn finder(&self) -> (f: Option<&Finder>)
        ensures
            match f {
                Some(f) => self.view().finder == Some(f.view()),
                None => self.view().finder is None,
            },
    {
        self.state.finder.as_ref()
    }

    /// Return the searcher, once there is one.
    pub fn searcher(&self) -> (s: Option<&Searcher>)
        ensures
            match s {
                Some(s) => self.view().searcher == Some(s.view()),
                None => self.view().searcher is None,
            },
    {
        self.state.searcher.as_ref()
    }

    /// Return the chat, once there is one.
    pub fn chat(&self) -> (c: Option<&Chat>)
        ensures
            match c {
                Some(c) => self.view().chat == Some(c.view()),
                None => self.view().chat is None,
            },
    {
        self.state.chat.as_ref()
    }

    /// Return the past chats, once they have been looked through.
    pub fn history(&self) -> (h: Option<&History>)
        ensures
            match h {
                Some(h) => self.view().history == Some(*h),
                None => self.view().history is None,
            },
    {
        self.state.history.as_ref()
    }

    /// Return the search of the past chats, once there is one.
    pub fn history_searcher(&self) -> (s: Option<&HistorySearcher>)
        ensures
            match s {
                Some(s) => self.view().history_searcher == Some(s.view()),
                None => self.view().history_searcher is None,
            },
    {
        self.state.history_searcher.as_ref()
    }

    /// Return whether insh can handle something which happened: what it asks of whichever of
    /// the browser, the finder and the searcher is showing has to be something it can do.
    pub fn can_handle(&self, event: &Event, readings: Readings) -> (b: bool)
        requires
            self.wf(),
        ensures
            b == can_handle(self.view(), *event, readings),
    {
        let st = &self.state;
        match event {
            Event::TermEvent(TermEvent::KeyEvent(key_event)) => {
                if key_event.key == Key::Char('x') && key_event.mods.is_control() {
                    return true;
                }
            },
            Event::Response(response) => {
                if matches!(response.params, ResponseParams::VisitDir) {
                    return true;
                }
                if matches!(response.params, ResponseParams::Chat { .. }) && st.mode != Mode::Chat {
                    return true;
                }
            },
            _ => {},
        }
        match st.mode {
            Mode::Browse => match &st.browser {
                Some(b) => match event {
                    Event::TermEvent(TermEvent::Resize(size)) => b.can_handle(
                        &BrowserEvent::Resize { size: *size, scaled: readings.scaled },
                    ),
                    Event::TermEvent(TermEvent::KeyEvent(k)) => b.can_handle(
                        &BrowserEvent::Term {
                            event: TermEvent::KeyEvent(*k),
                            kind: readings.kind,
                            directory: readings.directory,
                        },
                    ),
                    _ => true,
                },
                None => false,
            },
            Mode::Finder => match &st.finder {
                Some(f) => match event {
                    Event::TermEvent(TermEvent::KeyEvent(k)) => f.can_handle(
                        &FinderEvent::TermEvent(TermEvent::KeyEvent(*k)),
                    ),
                    _ => true,
                },
                None => false,
            },
            Mode::Searcher => match &st.searcher {
                Some(s) => match event {
                    Event::TermEvent(TermEvent::Resize(size)) => s.can_handle(
                        &SearcherEvent::Resize { size: *size, scaled: readings.scaled },
                    ),
                    Event::TermEvent(TermEvent::KeyEvent(k)) => s.can_handle(
                        &SearcherEvent::TermEvent(TermEvent::KeyEvent(*k)),
                    ),
                    Event::TermEvent(_) => true,
                    Event::Response(response) => s.response_ok(response),
                },
                None => false,
            },
            _ => true,
        }
    }

    /// Handle something which happened, at the size and with the measures of the moment.
    pub fn handle(&mut self, event: Event, readings: Readings) -> (r: Option<SystemEffect>)
        requires
            old(self).wf(),
            can_handle(old(self).view(), event, readings),
        ensures
            final(self).wf(),
            handled(old(self).view(), final(self).view(), event, readings, r),
    {
        self.state.handle(event, readings)
    }
}

} // verus!
