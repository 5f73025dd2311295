//! The file creator: the name of a new file or directory typed in, below the directory bar of
//! the directory it is made in.

use vstd::prelude::*;

use crate::dir_bar::{
    Dir, DirView, Effect as DirEffect, Event as DirEvent, Props as DirProps, handled as dir_handled,
    opt_view,
};
use crate::entry::FileType;
use crate::ids::is_random_uuid;
use crate::keys::{Key, KeyEvent, TermEvent, control_mods};
use crate::paths::{join, path_join};
use crate::phrase::{
    Effect as PhraseEffect, Event as PhraseEvent, Phrase, Props as PhraseProps, State as PhraseState,
    handled as phrase_handled,
};
use crate::requests::{Request, RequestParams, Response, ResponseParams};

verus! {

/// The properties of the file creator.
pub struct Props {
    /// The directory to make the file in.
    pub dir: String,
    /// The home directory, which the directory bar shows as a tilde, if there is one.
    pub home: Option<String>,
    /// Which kind of file to make.
    pub file_type: FileType,
}

/// What the file creator is focused on.
#[derive(Clone, Copy, Debug, PartialEq, Eq, Structural)]
pub enum Focus {
    /// The name typed in.
    Phrase,
    /// The directory bar.
    Dir,
}

/// A file creator event.
pub enum Event {
    /// A response from the daemon.
    Response(Response),
    /// Something from the terminal, while the path typed into the directory bar is what it is on
    /// disk.
    Term {
        /// What the terminal reported.
        event: TermEvent,
        /// Whether the path typed into the directory bar is that of a directory.
        directory: bool,
    },
}

/// A file creator effect.
pub enum Effect {
    /// Send a request.
    Request(Request),
    /// Browse a directory.
    Browse {
        /// The directory.
        dir: String,
        /// The file to select in it.
        file: Option<String>,
    },
    /// Ring the bell.
    Bell,
    /// Quit.
    Quit,
}

/// What the file creator is seen as.
pub struct CreatorView {
    /// The directory the file is made in.
    pub dir: Seq<char>,
    /// The directory bar.
    pub bar: DirView,
    /// The name typed in.
    pub phrase: PhraseState,
    /// Which kind of file is made.
    pub file_type: FileType,
    /// What is focused on.
    pub focus: Focus,
    /// The request to make the file which is on its way, if any.
    pub pending: Option<u128>,
    /// The path of the file being made, if one is.
    pub pending_file: Option<Seq<char>>,
    /// Why the file could not be made, if it could not be.
    pub error: Option<Seq<char>>,
}

impl CreatorView {
    /// What the file creator keeps to: a file is being made whenever a request for one is on
    /// its way.
    pub open spec fn wf(self) -> bool {
        self.pending is Some ==> self.pending_file is Some
    }
}

/// The key which goes to the directory bar.
pub open spec fn bar_key() -> KeyEvent {
    KeyEvent { key: Key::Char('d'), mods: control_mods() }
}

/// Whether the name typed in was given back to be typed in again, and nothing else changed but
/// what is said.
pub open spec fn refocused(before: PhraseState, after: PhraseState) -> bool {
    exists|e: Option<PhraseEffect>| #[trigger] phrase_handled(before, after, PhraseEvent::Focus, e)
}

/// What is done with what the directory bar asked for: a completion is asked of the daemon, and
/// a directory which was entered is noted as gone to and is where the file is made, with the
/// name typed in again.
pub open spec fn bar_did(before: CreatorView, after: CreatorView, effect: Option<DirEffect>, r: Option<Effect>) -> bool {
    match effect {
        Some(DirEffect::RequestCompletion { uuid, partial }) => {
            &&& after == before
            &&& r matches Some(Effect::Request(request)) && request.uuid == uuid && request.params
                == (RequestParams::SuggestDir { partial })
        },
        Some(DirEffect::Enter { dir }) => {
            &&& refocused(before.phrase, after.phrase)
            &&& after == CreatorView { dir: dir@, focus: Focus::Phrase, phrase: after.phrase, ..before }
            &&& r matches Some(Effect::Request(request)) && request.params matches RequestParams::VisitDir {
                dir: d,
            } && d@ == dir@ && is_random_uuid(request.uuid)
        },
        Some(DirEffect::Unfocus) => {
            &&& refocused(before.phrase, after.phrase)
            &&& after == CreatorView { focus: Focus::Phrase, phrase: after.phrase, ..before }
            &&& r is None
        },
        Some(DirEffect::Bell) => r == Some(Effect::Bell) && after == before,
        None => r is None && after == before,
    }
}

/// What asking for a file with some name to be made does: the file is made in the directory,
/// and the daemon is asked to make it.
pub open spec fn creates(before: CreatorView, after: CreatorView, name: Seq<char>, r: Option<Effect>) -> bool {
    let path = path_join(before.dir, name);
    r matches Some(Effect::Request(request)) && request.params matches RequestParams::CreateFile {
        path: p,
        file_type,
    } && p@ == path && file_type == before.file_type && is_random_uuid(request.uuid) && after
        == CreatorView { pending: Some(request.uuid), pending_file: Some(path), ..before }
}

/// What handling a response does: once the file is made, it is browsed to in its directory;
/// when it could not be, why is said and the name is given back to be fixed.
pub open spec fn responded(before: CreatorView, after: CreatorView, response: Response, r: Option<Effect>) -> bool {
    if before.pending != Some(response.uuid) {
        r is None && after == before
    } else {
        match response.params {
            ResponseParams::CreateFile { result } => match result {
                Ok(_) => {
                    &&& after == before
                    &&& r matches Some(Effect::Browse { dir, file }) && dir@ == before.dir
                        && opt_view(file) == before.pending_file && file is Some
                },
                Err(error) => {
                    &&& r is None
                    &&& refocused(before.phrase, after.phrase)
                    &&& after == CreatorView { error: Some(error@), phrase: after.phrase, ..before }
                },
            },
            _ => r is None && after == before,
        }
    }
}

/// What handling an event does to the file creator, and what it gives back.
///
/// A completion of a directory goes to the directory bar, and any other response is about the
/// file being made. Control and `d` starts typing in the directory bar, unless it is being typed
/// in already; anything else typed goes to what is focused on. Entering the name makes the file.
pub open spec fn handled(before: CreatorView, after: CreatorView, event: Event, r: Option<Effect>) -> bool {
    match event {
        Event::Response(response) => match response.params {
            ResponseParams::SuggestDir { suggestion } => exists|e: Option<DirEffect>, bar: DirView|
                #[trigger] dir_handled(
                    before.bar,
                    bar,
                    DirEvent::Completion { uuid: response.uuid, completion: suggestion },
                    e,
                ) && bar_did(CreatorView { bar, ..before }, after, e, r),
            _ => responded(before, after, response, r),
        },
        Event::Term { event: t, directory } => if t == TermEvent::KeyEvent(bar_key()) && before.focus != Focus::Dir {
            &&& r is None
            &&& after.focus == Focus::Dir
            &&& exists|e: Option<PhraseEffect>|
                #[trigger] phrase_handled(before.phrase, after.phrase, PhraseEvent::Unfocus, e)
            &&& exists|e: Option<DirEffect>| #[trigger] dir_handled(before.bar, after.bar, DirEvent::Focus, e)
            &&& after == CreatorView { focus: Focus::Dir, phrase: after.phrase, bar: after.bar, ..before }
        } else {
            match before.focus {
                Focus::Dir => exists|e: Option<DirEffect>, bar: DirView|
                    #[trigger] dir_handled(before.bar, bar, DirEvent::Term { event: t, directory }, e) && bar_did(
                        CreatorView { bar, ..before },
                        after,
                        e,
                        r,
                    ),
                Focus::Phrase => exists|e: Option<PhraseEffect>, phrase: PhraseState|
                    #[trigger] phrase_handled(before.phrase, phrase, PhraseEvent::TermEvent(t), e) && {
                        let typed = CreatorView { phrase, ..before };
                        match e {
                            Some(PhraseEffect::Enter { phrase: name }) => creates(typed, after, name@, r),
                            Some(PhraseEffect::Bell) => r == Some(Effect::Bell) && after == typed,
                            Some(PhraseEffect::Quit) => r == Some(Effect::Quit) && after == typed,
                            // The name is never completed, so nothing is asked for it.
                            _ => r is None && after == typed,
                        }
                    },
            }
        },
    }
}

/// Whether a file creator is as it starts for some properties: the name is typed in, and is
/// empty.
pub open spec fn started(v: CreatorView, props: Props) -> bool {
    &&& v.dir == props.dir@
    &&& v.bar == (DirView { dir: props.dir@, home: opt_view(props.home), phrase: None })
    &&& v.phrase.spec_value() == Seq::<char>::empty()
    &&& v.phrase.spec_focus()
    &&& !v.phrase.spec_completable()
    &&& v.phrase.spec_completion() is None
    &&& v.phrase.pending() is None
    &&& v.file_type == props.file_type
    &&& v.focus == Focus::Phrase
    &&& v.pending is None
    &&& v.pending_file is None
    &&& v.error is None
}

/// A file creator.
pub struct FileCreator {
    /// The directory the file is made in.
    dir: String,
    /// The directory bar.
    bar: Dir,
    /// The name typed in.
    phrase: Phrase,
    /// Which kind of file is made.
    file_type: FileType,
    /// What is focused on.
    focus: Focus,
    /// The request to make the file which is on its way, if any.
    pending_request: Option<u128>,
    /// The path of the file being made, if one is.
    pending_file: Option<String>,
    /// Why the file could not be made, if it could not be.
    error: Option<String>,
}

impl FileCreator {
    /// What the file creator is seen as.
    pub closed spec fn view(&self) -> CreatorView {
        CreatorView {
            dir: self.dir@,
            bar: self.bar.view(),
            phrase: self.phrase.state(),
            file_type: self.file_type,
            focus: self.focus,
            pending: self.pending_request,
            pending_file: opt_view(self.pending_file),
            error: opt_view(self.error),
        }
    }

    /// Return a file creator for some properties: the name is typed in, and is empty.
    pub fn new(props: Props) -> (c: FileCreator)
        ensures
            c.view().wf(),
            started(c.view(), props),
    {
        let bar = Dir::new(DirProps { dir: props.dir.clone(), home: props.home });
        FileCreator {
            dir: props.dir,
            bar,
            phrase: Phrase::new(PhraseProps { completable: false, value: None }),
            file_type: props.file_type,
            focus: Focus::Phrase,
            pending_request: None,
            pending_file: None,
            error: None,
        }
    }

    /// Return the name of what is being made, which the footer shows.
    pub fn name(&self) -> (n: String)
        ensures
            n@ == (if self.view().file_type == FileType::Dir {
                "directory creator"@
            } else {
                "file creator"@
            }),
    {
        match self.file_type {
            FileType::Dir => {
                let n = String::from_str("directory creator");
                proof {
                    reveal_strlit("directory creator");
                }
                n
            },
            _ => {
                let n = String::from_str("file creator");
                proof {
                    reveal_strlit("file creator");
                }
                n
            },
        }
    }

    /// Return why the file could not be made, if it could not be.
    pub fn error(&self) -> (e: &Option<String>)
        ensures
            opt_view(*e) == self.view().error,
    {
        &self.error
    }

    /// Return the name typed in.
    pub fn phrase(&self) -> (p: &Phrase)
        ensures
            p.state() == self.view().phrase,
    {
        &self.phrase
    }

    /// Return the directory bar.
    pub fn bar(&self) -> (d: &Dir)
        ensures
            d.view() == self.view().bar,
    {
        &self.bar
    }

    /// Return what is focused on.
    pub fn focus(&self) -> (f: Focus)
        ensures
            f == self.view().focus,
    {
        self.focus
    }

    /// Give the name back to be typed in again.
    fn refocus(&mut self)
        ensures
            refocused(old(self).view().phrase, final(self).view().phrase),
            final(self).view() == (CreatorView { phrase: final(self).view().phrase, ..old(self).view() }),
    {
        let ghost before = self.phrase.state();
        let e = self.phrase.handle(PhraseEvent::Focus);
        assert(phrase_handled(before, self.phrase.state(), PhraseEvent::Focus, e));
    }

    /// Do what the directory bar asked for.
    fn handle_dir_effect(&mut self, effect: Option<DirEffect>) -> (r: Option<Effect>)
        requires
            old(self).view().wf(),
        ensures
            final(self).view().wf(),
            bar_did(old(self).view(), final(self).view(), effect, r),
    {
        match effect {
            Some(DirEffect::RequestCompletion { uuid, partial }) => Some(
                Effect::Request(Request { uuid, params: RequestParams::SuggestDir { partial } }),
            ),
            Some(DirEffect::Enter { dir }) => {
                let request = Request::new(RequestParams::VisitDir { dir: dir.clone() });
                self.dir = dir;
                self.refocus();
                self.focus = Focus::Phrase;
                Some(Effect::Request(request))
            },
            Some(DirEffect::Unfocus) => {
                self.refocus();
                self.focus = Focus::Phrase;
                None
            },
            Some(DirEffect::Bell) => Some(Effect::Bell),
            None => None,
        }
    }

    /// Ask for a file with some name to be made.
    fn create_file(&mut self, name: String) -> (r: Option<Effect>)
        requires
            old(self).view().wf(),
        ensures
            final(self).view().wf(),
            creates(old(self).view(), final(self).view(), name@, r),
    {
        let path = join(self.dir.as_str(), name.as_str());
        let request = Request::new(
            RequestParams::CreateFile { path: path.clone(), file_type: self.file_type },
        );
        self.pending_request = Some(request.uuid());
        self.pending_file = Some(path);
        Some(Effect::Request(request))
    }

    /// Take in a response about the file being made.
    fn handle_response(&mut self, response: Response) -> (r: Option<Effect>)
        requires
            old(self).view().wf(),
        ensures
            final(self).view().wf(),
            responded(old(self).view(), final(self).view(), response, r),
    {
        let pending: u128 = match self.pending_request {
            Some(pending) => pending,
            None => {
                return None;
            },
        };
        if response.uuid != pending {
            return None;
        }
        match response.params {
            ResponseParams::CreateFile { result } => match result {
                Ok(_) => {
                    let file = match &self.pending_file {
                        Some(file) => file.clone(),
                        None => {
                            return None;
                        },
                    };
                    Some(Effect::Browse { dir: self.dir.clone(), file: Some(file) })
                },
                Err(error) => {
                    self.error = Some(error);
                    self.refocus();
                    None
                },
            },
            _ => None,
        }
    }

    /// Handle an event.
    pub fn handle(&mut self, event: Event) -> (r: Option<Effect>)
        requires
            old(self).view().wf(),
        ensures
            final(self).view().wf(),
            handled(old(self).view(), final(self).view(), event, r),
    {
        let ghost before = self.view();
        match event {
            Event::Response(response) => {
                if let ResponseParams::SuggestDir { suggestion } = response.params {
                    let ghost dir_event = DirEvent::Completion { uuid: response.uuid, completion: suggestion };
                    let e = self.bar.handle(
                        DirEvent::Completion { uuid: response.uuid, completion: suggestion },
                    );
                    assert(dir_handled(before.bar, self.view().bar, dir_event, e));
                    return self.handle_dir_effect(e);
                }
                self.handle_response(response)
            },
            Event::Term { event: t, directory } => {
                let focus_bar = match t {
                    TermEvent::KeyEvent(key_event) => key_event.key == Key::Char('d')
                        && key_event.mods.is_control() && self.focus != Focus::Dir,
                    _ => false,
                };
                if focus_bar {
                    assert(t == TermEvent::KeyEvent(bar_key()));
                    // Otherwise the name goes on showing itself as focused alongside the
                    // directory.
                    let pe = self.phrase.handle(PhraseEvent::Unfocus);
                    assert(phrase_handled(before.phrase, self.view().phrase, PhraseEvent::Unfocus, pe));
                    let de = self.bar.handle(DirEvent::Focus);
                    assert(dir_handled(before.bar, self.view().bar, DirEvent::Focus, de));
                    self.focus = Focus::Dir;
                    return None;
                }
                match self.focus {
                    Focus::Dir => {
                        let ghost dir_event = DirEvent::Term { event: t, directory };
                        let e = self.bar.handle(DirEvent::Term { event: t, directory });
                        assert(dir_handled(before.bar, self.view().bar, dir_event, e));
                        self.handle_dir_effect(e)
                    },
                    Focus::Phrase => {
                        let ghost phrase_event = PhraseEvent::TermEvent(t);
                        let e = self.phrase.handle(PhraseEvent::TermEvent(t));
                        let ghost ge = e;
                        assert(phrase_handled(before.phrase, self.view().phrase, phrase_event, ge));
                        match e {
                            Some(PhraseEffect::Enter { phrase }) => self.create_file(phrase),
                            Some(PhraseEffect::Bell) => Some(Effect::Bell),
                            Some(PhraseEffect::Quit) => Some(Effect::Quit),
                            _ => None,
                        }
                    },
                }
            },
        }
    }
}

} // verus!
