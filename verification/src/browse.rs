//! The file browser: the directory bar above the entries of the directory, either of which can
//! be focused on.

use vstd::prelude::*;

use crate::args::VimArgs;
use crate::browser::{
    Action as ContentsAction, Contents, ContentsView, Effect as ContentsEffect, Event as ContentsEvent,
    PathKind, Props as ContentsProps, can_perform, event_action, performed,
};
use crate::config::Config;
use crate::dir_bar::{
    Dir, DirView, Effect as DirEffect, Event as DirEvent, Props as DirProps, handled as dir_handled,
    opt_view,
};
use crate::entry::FileType;
use crate::ids::is_random_uuid;
use crate::keys::{Key, KeyEvent, Size, TermEvent, control_mods};
use crate::paths::path_parent;
use crate::requests::{Request, RequestParams, Response, ResponseParams};

verus! {

/// The properties of the browser.
pub struct Props {
    /// The configuration.
    pub config: Config,
    /// The directory to browse.
    pub dir: String,
    /// The home directory, which the directory bar shows as a tilde, if there is one.
    pub home: Option<String>,
    /// The size of the browser.
    pub size: Size,
    /// The file to select, if any.
    pub file: Option<String>,
    /// The request for the entries which is already on its way, if there is one.
    pub pending_request: Option<u128>,
}

/// What the browser is focused on.
#[derive(Clone, Copy, Debug, PartialEq, Eq, Structural)]
pub enum Focus {
    /// The directory bar.
    Dir,
    /// The entries of the directory.
    Contents,
}

/// A browser event.
pub enum Event {
    /// A response from the daemon.
    Response(Response),
    /// Something from the terminal, while the path of the selected entry, and the path typed
    /// into the directory bar, are what they are on disk. A change of the terminal's size comes
    /// as a `Resize` instead.
    Term {
        /// What the terminal reported.
        event: TermEvent,
        /// What the path of the selected entry is.
        kind: PathKind,
        /// Whether the path typed into the directory bar is that of a directory.
        directory: bool,
    },
    /// The browser was resized, with the row the selected entry is scaled to.
    Resize {
        /// The new size of the whole browser.
        size: Size,
        /// The row the selected entry is scaled to.
        scaled: usize,
    },
    /// Show a different directory, unless it is the one shown.
    SetDir {
        /// The directory.
        dir: String,
    },
}

/// A browser effect.
pub enum Effect {
    /// Make a new file.
    OpenFileCreator {
        /// The directory to make it in.
        dir: String,
        /// Which kind of file to make.
        file_type: FileType,
    },
    /// Find files by name.
    OpenFinder {
        /// The directory to look in.
        dir: String,
    },
    /// Search files for a phrase.
    OpenSearcher {
        /// The directory to search in.
        dir: String,
    },
    /// Edit a file.
    OpenVim(VimArgs),
    /// Run a shell.
    RunBash {
        /// The directory to run it in.
        dir: String,
    },
    /// Copy some text to the clipboard.
    Copy {
        /// The text.
        contents: String,
    },
    /// Ring the bell.
    Bell,
    /// Send a request.
    Request(Request),
    /// Send more than one request, in the order they are in.
    Requests(Vec<Request>),
}

/// How many rows the directory bar and the footer take, which the entries do not get.
pub const CHROME_ROWS: usize = 2;

/// The size of the entries in a browser of some size.
pub open spec fn contents_size(size: Size) -> Size {
    Size {
        rows: if size.rows > CHROME_ROWS { (size.rows - CHROME_ROWS) as usize } else { 0 },
        columns: size.columns,
    }
}

/// Whether a request is a note that a directory was gone to.
pub open spec fn visits(request: Request, dir: Seq<char>) -> bool {
    request.params matches RequestParams::VisitDir { dir: d } && d@ == dir && is_random_uuid(
        request.uuid,
    )
}

/// What the browser is seen as.
pub struct BrowserView {
    /// The directory bar.
    pub bar: DirView,
    /// The entries of the directory.
    pub contents: ContentsView,
    /// What is focused on.
    pub focus: Focus,
}

/// What is passed on of what the entries asked for, and what it does to the directory bar: a
/// directory which is gone to is noted along with the request for its entries, and the bar
/// shows it.
pub open spec fn passed_on(
    effect: Option<ContentsEffect>,
    bar: DirView,
    bar_after: DirView,
    contents_dir: Seq<char>,
    r: Option<Effect>,
) -> bool {
    match effect {
        Some(ContentsEffect::SetDir { dir, get_files_request }) => {
            &&& bar_after == DirView { dir: dir@, ..bar }
            &&& r matches Some(Effect::Requests(requests)) && requests@.len() == 2 && visits(
                requests@[0],
                dir@,
            ) && requests@[1] == get_files_request
        },
        Some(ContentsEffect::PopDir { get_files_request }) => {
            &&& bar_after == DirView {
                dir: match path_parent(bar.dir) {
                    Some(parent) => parent,
                    None => bar.dir,
                },
                ..bar
            }
            &&& r matches Some(Effect::Requests(requests)) && requests@.len() == 2 && visits(
                requests@[0],
                contents_dir,
            ) && requests@[1] == get_files_request
        },
        Some(ContentsEffect::OpenFileCreator { dir, file_type }) => bar_after == bar && r == Some(
            Effect::OpenFileCreator { dir, file_type },
        ),
        Some(ContentsEffect::OpenFinder { dir }) => bar_after == bar && r == Some(
            Effect::OpenFinder { dir },
        ),
        Some(ContentsEffect::OpenSearcher { dir }) => bar_after == bar && r == Some(
            Effect::OpenSearcher { dir },
        ),
        Some(ContentsEffect::OpenVim(args)) => bar_after == bar && r == Some(Effect::OpenVim(args)),
        Some(ContentsEffect::RunBash { dir }) => bar_after == bar && r == Some(Effect::RunBash { dir }),
        Some(ContentsEffect::Copy { contents }) => bar_after == bar && r == Some(
            Effect::Copy { contents },
        ),
        Some(ContentsEffect::Bell) => bar_after == bar && r == Some(Effect::Bell),
        Some(ContentsEffect::Request(request)) => bar_after == bar && r == Some(
            Effect::Request(request),
        ),
        None => bar_after == bar && r is None,
    }
}

/// What the entries do with an action, and what is passed on of it.
pub open spec fn contents_did(before: BrowserView, after: BrowserView, action: ContentsAction, r: Option<Effect>) -> bool {
    exists|e: Option<ContentsEffect>|
        #[trigger] performed(before.contents, after.contents, action, e) && passed_on(
            e,
            before.bar,
            after.bar,
            after.contents.dir,
            r,
        )
}

/// The key which goes to the directory bar.
pub open spec fn bar_key() -> KeyEvent {
    KeyEvent { key: Key::Char('d'), mods: control_mods() }
}

/// What is done with what the directory bar asked for: a completion is asked of the daemon,
/// and a directory which was entered is gone to, noted along with the request for its entries,
/// with the entries focused again.
pub open spec fn bar_did(before: BrowserView, after: BrowserView, effect: Option<DirEffect>, r: Option<Effect>) -> bool {
    match effect {
        Some(DirEffect::RequestCompletion { uuid, partial }) => {
            &&& after == before
            &&& r matches Some(Effect::Request(request)) && request.uuid == uuid && request.params
                == (RequestParams::SuggestDir { partial })
        },
        Some(DirEffect::Enter { dir }) => {
            &&& after.focus == Focus::Contents
            &&& exists|e: Option<ContentsEffect>, r2: Option<Effect>|
                #[trigger] passed_on(e, before.bar, after.bar, after.contents.dir, r2) && performed(
                    before.contents,
                    after.contents,
                    ContentsAction::SetDir { dir },
                    e,
                ) && match r2 {
                    Some(Effect::Request(request)) => r matches Some(Effect::Requests(requests))
                        && requests@.len() == 2 && visits(requests@[0], dir@) && requests@[1]
                        == request,
                    _ => r == r2,
                }
        },
        Some(DirEffect::Unfocus) => r is None && after == BrowserView { focus: Focus::Contents, ..before },
        Some(DirEffect::Bell) => r == Some(Effect::Bell) && after == before,
        None => r is None && after == before,
    }
}

/// Whether the browser can handle an event: what it asks of the entries has to be something
/// they can do.
pub open spec fn can_handle(v: BrowserView, event: Event) -> bool {
    &&& v.contents.wf()
    &&& match event {
        Event::Response(response) => match response.params {
            ResponseParams::SuggestDir { .. } => true,
            _ => can_perform(v.contents, ContentsAction::HandleResponse(response)),
        },
        Event::Resize { size, scaled } => can_perform(
            v.contents,
            ContentsAction::Resize { size: contents_size(size), scaled },
        ),
        Event::SetDir { .. } => true,
        Event::Term { event, kind, .. } => v.focus == Focus::Contents && event != TermEvent::KeyEvent(
            bar_key(),
        ) ==> match event_action(ContentsEvent::Term { event, kind }) {
            Some(action) => can_perform(v.contents, action),
            None => true,
        },
    }
}

/// What handling an event does to the browser, and what it gives back.
///
/// A completion of a directory goes to the directory bar, and any other response to the
/// entries. A resize goes to the entries. Control and `d` starts typing in the directory bar,
/// unless it is being typed in already; anything else typed goes to what is focused on.
pub open spec fn handled(before: BrowserView, after: BrowserView, event: Event, r: Option<Effect>) -> bool {
    match event {
        Event::Response(response) => match response.params {
            ResponseParams::SuggestDir { suggestion } => exists|e: Option<DirEffect>, bar: DirView|
                #[trigger] dir_handled(
                    before.bar,
                    bar,
                    DirEvent::Completion { uuid: response.uuid, completion: suggestion },
                    e,
                ) && bar_did(BrowserView { bar, ..before }, after, e, r),
            _ => contents_did(before, after, ContentsAction::HandleResponse(response), r),
        },
        Event::Resize { size, scaled } => r is None && after.focus == before.focus && after.bar
            == before.bar && exists|e: Option<ContentsEffect>|
            #[trigger] performed(
                before.contents,
                after.contents,
                ContentsAction::Resize { size: contents_size(size), scaled },
                e,
            ),
        Event::SetDir { dir } => {
            &&& after.focus == before.focus
            &&& exists|e: Option<ContentsEffect>|
                #[trigger] performed(before.contents, after.contents, ContentsAction::SetDir { dir }, e)
                    && after.bar == DirView { dir: dir@, ..before.bar } && r == match e {
                    Some(ContentsEffect::Request(request)) => Some(Effect::Request(request)),
                    _ => None,
                }
        },
        Event::Term { event, kind, directory } => if event == TermEvent::KeyEvent(bar_key()) && before.focus
            != Focus::Dir {
            &&& r is None
            &&& after.focus == Focus::Dir
            &&& after.contents == before.contents
            &&& exists|e: Option<DirEffect>| #[trigger] dir_handled(before.bar, after.bar, DirEvent::Focus, e)
        } else {
            match before.focus {
                Focus::Dir => exists|e: Option<DirEffect>, bar: DirView|
                    #[trigger] dir_handled(before.bar, bar, DirEvent::Term { event, directory }, e) && bar_did(
                        BrowserView { bar, ..before },
                        after,
                        e,
                        r,
                    ),
                Focus::Contents => after.focus == before.focus && match event_action(
                    ContentsEvent::Term { event, kind },
                ) {
                    Some(action) => contents_did(before, after, action, r),
                    None => r == Some(Effect::Bell) && after == before,
                },
            }
        },
    }
}

/// Whether a browser is as it starts for some properties: focused on the entries of the
/// directory, which are not known yet.
pub open spec fn started(v: BrowserView, props: Props) -> bool {
    &&& v.bar == (DirView { dir: props.dir@, home: opt_view(props.home), phrase: None })
    &&& v.focus == Focus::Contents
    &&& v.contents == (ContentsView {
        config: props.config,
        size: contents_size(props.size),
        dir: props.dir@,
        starting_file: opt_view(props.file),
        starting_offset: None,
        pending: props.pending_request,
        file_infos: None,
        metadata: props.config.browser.metadata,
        selected: None,
        offset: 0,
    })
}

/// A file browser.
pub struct Browser {
    /// The directory bar.
    bar: Dir,
    /// The entries of the directory.
    contents: Contents,
    /// What is focused on.
    focus: Focus,
}

impl Browser {
    /// What the browser is seen as.
    pub closed spec fn view(&self) -> BrowserView {
        BrowserView { bar: self.bar.view(), contents: self.contents.spec_state().view(), focus: self.focus }
    }

    /// Return whether the browser can handle an event: what is asked of the entries has to be
    /// something they can do.
    pub fn can_handle(&self, event: &Event) -> (b: bool)
        requires
            self.view().contents.wf(),
        ensures
            b == can_handle(self.view(), *event),
    {
        let state = self.contents.state();
        match event {
            Event::Response(_) => true,
            Event::Resize { .. } => state.entry_ok(),
            Event::SetDir { .. } => true,
            Event::Term { event, kind, .. } => {
                if self.focus != Focus::Contents {
                    return true;
                }
                match event {
                    TermEvent::KeyEvent(key_event) => {
                        if key_event.key == Key::Char('d') && key_event.mods.is_control() {
                            assert(*event == TermEvent::KeyEvent(bar_key()));
                            return true;
                        }
                        match Contents::map(ContentsEvent::Term { event: TermEvent::KeyEvent(*key_event), kind: *kind }) {
                            Some(action) => state.performable(&action),
                            None => true,
                        }
                    },
                    _ => true,
                }
            },
        }
    }

    /// Return a browser for some properties, focused on the entries of the directory.
    pub fn new(props: Props) -> (b: Browser)
        ensures
            started(b.view(), props),
            b.view().contents.wf(),
    {
        let bar = Dir::new(DirProps { dir: props.dir.clone(), home: props.home });
        let size = Size::new(props.size.rows.saturating_sub(CHROME_ROWS), props.size.columns);
        let contents = Contents::new(
            ContentsProps {
                config: props.config,
                dir: props.dir,
                size,
                file: props.file,
                pending_request: props.pending_request,
            },
        );
        Browser { bar, contents, focus: Focus::Contents }
    }

    /// Return the name of the browser, which its footer shows.
    pub fn name(&self) -> (n: String)
        ensures
            n@ == "browser"@,
    {
        let n = String::from_str("browser");
        proof {
            reveal_strlit("browser");
        }
        n
    }

    /// Return the directory bar.
    pub fn bar(&self) -> (d: &Dir)
        ensures
            d.view() == self.view().bar,
    {
        &self.bar
    }

    /// Return the entries of the directory.
    pub fn contents(&self) -> (c: &Contents)
        ensures
            c.spec_state().view() == self.view().contents,
    {
        &self.contents
    }

    /// Return what is focused on.
    pub fn focus(&self) -> (f: Focus)
        ensures
            f == self.view().focus,
    {
        self.focus
    }

    /// Pass on what the entries asked for.
    fn handle_contents_effect(&mut self, effect: Option<ContentsEffect>) -> (r: Option<Effect>)
        ensures
            final(self).view().contents == old(self).view().contents,
            final(self).view().focus == old(self).view().focus,
            passed_on(effect, old(self).view().bar, final(self).view().bar, old(self).view().contents.dir, r),
    {
        match effect {
            Some(ContentsEffect::SetDir { dir, get_files_request }) => {
                let visit = Request::new(RequestParams::VisitDir { dir: dir.clone() });
                self.bar.handle(DirEvent::SetDir { dir });
                let mut requests = Vec::new();
                requests.push(visit);
                requests.push(get_files_request);
                Some(Effect::Requests(requests))
            },
            Some(ContentsEffect::PopDir { get_files_request }) => {
                let dir = self.contents.state().dir().clone();
                let visit = Request::new(RequestParams::VisitDir { dir });
                self.bar.handle(DirEvent::PopDir);
                let mut requests = Vec::new();
                requests.push(visit);
                requests.push(get_files_request);
                Some(Effect::Requests(requests))
            },
            Some(ContentsEffect::OpenFileCreator { dir, file_type }) => Some(
                Effect::OpenFileCreator { dir, file_type },
            ),
            Some(ContentsEffect::OpenFinder { dir }) => Some(Effect::OpenFinder { dir }),
            Some(ContentsEffect::OpenSearcher { dir }) => Some(Effect::OpenSearcher { dir }),
            Some(ContentsEffect::OpenVim(args)) => Some(Effect::OpenVim(args)),
            Some(ContentsEffect::RunBash { dir }) => Some(Effect::RunBash { dir }),
            Some(ContentsEffect::Copy { contents }) => Some(Effect::Copy { contents }),
            Some(ContentsEffect::Bell) => Some(Effect::Bell),
            Some(ContentsEffect::Request(request)) => Some(Effect::Request(request)),
            None => None,
        }
    }

    /// Do what the directory bar asked for.
    fn handle_dir_effect(&mut self, effect: Option<DirEffect>) -> (r: Option<Effect>)
        requires
            old(self).view().contents.wf(),
        ensures
            final(self).view().contents.wf(),
            bar_did(old(self).view(), final(self).view(), effect, r),
    {
        match effect {
            Some(DirEffect::RequestCompletion { uuid, partial }) => Some(
                Effect::Request(Request { uuid, params: RequestParams::SuggestDir { partial } }),
            ),
            Some(DirEffect::Enter { dir }) => {
                self.focus = Focus::Contents;
                let visit = Request::new(RequestParams::VisitDir { dir: dir.clone() });
                let ghost before = self.view();
                let ghost action = ContentsAction::SetDir { dir };
                let contents_effect = self.contents.handle(ContentsEvent::SetDir { dir });
                let ghost e = contents_effect;
                assert(performed(before.contents, self.view().contents, action, e));
                let ghost mid = self.view();
                let r2 = self.handle_contents_effect(contents_effect);
                assert(passed_on(e, mid.bar, self.view().bar, self.view().contents.dir, r2));
                match r2 {
                    Some(Effect::Request(request)) => {
                        let mut requests = Vec::new();
                        requests.push(visit);
                        requests.push(request);
                        Some(Effect::Requests(requests))
                    },
                    other => other,
                }
            },
            Some(DirEffect::Unfocus) => {
                self.focus = Focus::Contents;
                None
            },
            Some(DirEffect::Bell) => Some(Effect::Bell),
            None => None,
        }
    }

    /// Handle an event.
    pub fn handle(&mut self, event: Event) -> (r: Option<Effect>)
        requires
            can_handle(old(self).view(), event),
        ensures
            final(self).view().contents.wf(),
            handled(old(self).view(), final(self).view(), event, r),
    {
        let ghost before = self.view();
        match event {
            Event::Response(response) => {
                if let ResponseParams::SuggestDir { suggestion } = response.params {
                    let ghost dir_event = DirEvent::Completion { uuid: response.uuid, completion: suggestion };
                    let dir_effect = self.bar.handle(
                        DirEvent::Completion { uuid: response.uuid, completion: suggestion },
                    );
                    let ghost e = dir_effect;
                    assert(dir_handled(before.bar, self.view().bar, dir_event, e));
                    let ghost mid = self.view();
                    let r = self.handle_dir_effect(dir_effect);
                    assert(bar_did(mid, self.view(), e, r));
                    return r;
                }
                let ghost action = ContentsAction::HandleResponse(response);
                let contents_effect = self.contents.handle(ContentsEvent::Response(response));
                let ghost e = contents_effect;
                assert(performed(before.contents, self.view().contents, action, e));
                let r = self.handle_contents_effect(contents_effect);
                r
            },
            Event::Resize { size, scaled } => {
                let contents_size = Size::new(size.rows.saturating_sub(CHROME_ROWS), size.columns);
                let ghost action = ContentsAction::Resize { size: contents_size, scaled };
                let e = self.contents.handle(ContentsEvent::Resize { size: contents_size, scaled });
                assert(performed(before.contents, self.view().contents, action, e));
                None
            },
            Event::SetDir { dir } => {
                let ghost action = ContentsAction::SetDir { dir };
                let bar_dir = dir.clone();
                let e = self.contents.handle(ContentsEvent::SetDir { dir });
                let ghost ge = e;
                assert(performed(before.contents, self.view().contents, action, ge));
                self.bar.handle(DirEvent::SetDir { dir: bar_dir });
                match e {
                    Some(ContentsEffect::Request(request)) => Some(Effect::Request(request)),
                    _ => None,
                }
            },
            Event::Term { event, kind, directory } => {
                // The key is not bound in the directory bar itself, so that pressing it again
                // does not throw away what has been typed in.
                let focus_bar = match event {
                    TermEvent::KeyEvent(key_event) => key_event.key == Key::Char('d')
                        && key_event.mods.is_control() && self.focus != Focus::Dir,
                    _ => false,
                };
                if focus_bar {
                    assert(event == TermEvent::KeyEvent(bar_key()));
                    let e = self.bar.handle(DirEvent::Focus);
                    assert(dir_handled(before.bar, self.view().bar, DirEvent::Focus, e));
                    self.focus = Focus::Dir;
                    return None;
                }
                match self.focus {
                    Focus::Dir => {
                        let ghost dir_event = DirEvent::Term { event, directory };
                        let dir_effect = self.bar.handle(DirEvent::Term { event, directory });
                        let ghost e = dir_effect;
                        assert(dir_handled(before.bar, self.view().bar, dir_event, e));
                        let ghost mid = self.view();
                        let r = self.handle_dir_effect(dir_effect);
                        assert(bar_did(mid, self.view(), e, r));
                        r
                    },
                    Focus::Contents => {
                        let ghost contents_event = ContentsEvent::Term { event, kind };
                        let contents_effect = self.contents.handle(ContentsEvent::Term { event, kind });
                        let ghost e = contents_effect;
                        proof {
                            if let Some(action) = event_action(contents_event) {
                                assert(performed(before.contents, self.view().contents, action, e));
                            }
                        }
                        self.handle_contents_effect(contents_effect)
                    },
                }
            },
        }
    }
}

} // verus!
