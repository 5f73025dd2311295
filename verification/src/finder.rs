//! The finder: a pattern typed in, and the files under a directory whose names match it.

use vstd::prelude::*;

use crate::args::VimArgs;
use crate::finder_contents::{
    Contents, ContentsView, Effect as ContentsEffect, Event as ContentsEvent, Props as ContentsProps,
    can_handle, handled as contents_handled, start_view,
};
use crate::keys::{Key, KeyEvent, Size, TermEvent, control_mods};
use crate::phrase::{
    Effect as PhraseEffect, Event as PhraseEvent, Phrase, Props as PhraseProps, State as PhraseState,
    handled as phrase_handled,
};
use crate::requests::{Request, RequestParams, Response, ResponseParams};

verus! {

/// The properties of the finder.
pub struct Props {
    /// The directory to look in.
    pub dir: String,
    /// The size of the finder.
    pub size: Size,
    /// The pattern to start with, if any.
    pub phrase: Option<String>,
}

/// What the finder is focused on.
#[derive(Clone, Copy, Debug, PartialEq, Eq, Structural)]
pub enum Focus {
    /// The pattern typed in.
    Phrase,
    /// The files found.
    Contents,
}

/// A finder event.
pub enum Event {
    /// Something from the terminal. A change of its size comes as a `Resize` instead.
    TermEvent(TermEvent),
    /// A response from the daemon.
    Response(Response),
    /// The finder was resized, with the row the selected file is scaled to in the list.
    Resize {
        /// The new size of the whole finder.
        size: Size,
        /// The row the selected file is scaled to.
        scaled: usize,
    },
}

/// A finder effect.
pub enum Effect {
    /// Send a request.
    Request(Request),
    /// Browse a directory.
    Browse {
        /// The directory.
        dir: String,
        /// The file to select in it, if any.
        file: Option<String>,
    },
    /// Edit a file.
    OpenVim(VimArgs),
    /// Copy some text to the clipboard.
    Copy {
        /// The text.
        contents: String,
    },
    /// Ring the bell.
    Bell,
    /// Quit.
    Quit,
}

/// How many rows the directory, the pattern and the footer take, which the list does not get.
pub const CHROME_ROWS: usize = 3;

/// The size of the list in a finder of some size.
pub open spec fn contents_size(size: Size) -> Size {
    Size {
        rows: if size.rows > CHROME_ROWS { (size.rows - CHROME_ROWS) as usize } else { 0 },
        columns: size.columns,
    }
}

/// Return the size of the list in a finder of some size.
pub fn contents_size_of(size: Size) -> (s: Size)
    ensures
        s == contents_size(size),
{
    Size::new(size.rows.saturating_sub(CHROME_ROWS), size.columns)
}

/// What the finder is seen as.
pub struct FinderView {
    /// The directory looked in.
    pub dir: Seq<char>,
    /// The pattern typed in.
    pub phrase: PhraseState,
    /// The files found.
    pub contents: ContentsView,
    /// The keys pressed in the list since the last command.
    pub pending: Seq<KeyEvent>,
    /// What is focused on.
    pub focus: Focus,
}

/// What a finder effect is, given what the list of files asked for.
pub open spec fn effect_of(effect: ContentsEffect) -> Option<Effect> {
    match effect {
        ContentsEffect::Unfocus => None,
        ContentsEffect::Request(request) => Some(Effect::Request(request)),
        ContentsEffect::Goto { dir, file } => Some(Effect::Browse { dir, file }),
        ContentsEffect::OpenVim(args) => Some(Effect::OpenVim(args)),
        ContentsEffect::Copy { contents } => Some(Effect::Copy { contents }),
        ContentsEffect::Bell => Some(Effect::Bell),
    }
}

/// Whether the finder can handle an event: one for the list must be one the list can handle.
pub open spec fn can_handle_event(v: FinderView, event: Event) -> bool {
    match (v.focus, event) {
        (Focus::Contents, Event::TermEvent(t)) => can_handle(
            v.contents,
            v.pending,
            ContentsEvent::TermEvent(t),
        ),
        _ => true,
    }
}

/// The event for the pattern which an event for the finder is, when the pattern is focused:
/// terminal events as they are, and completions of the pattern; any other response is dropped.
pub open spec fn phrase_event_of(event: Event) -> Option<PhraseEvent> {
    match event {
        Event::TermEvent(t) => Some(PhraseEvent::TermEvent(t)),
        Event::Response(response) => match response.params {
            ResponseParams::SuggestFindPattern { suggestion } => Some(
                PhraseEvent::Completion { uuid: response.uuid, completion: suggestion },
            ),
            _ => None,
        },
        Event::Resize { .. } => None,
    }
}

/// The event for the list which an event for the finder is, when the list is focused.
pub open spec fn contents_event_of(event: Event) -> ContentsEvent {
    match event {
        Event::Response(response) => ContentsEvent::Response(response),
        Event::TermEvent(t) => ContentsEvent::TermEvent(t),
        Event::Resize { size, scaled } => ContentsEvent::Resize { size, scaled },
    }
}

/// What handling an event does to the finder, and what it gives back.
///
/// A resize goes to the list. Otherwise the event goes to what is focused on. Entering the
/// pattern focuses the list and finds the files matching it; quitting the pattern quits the
/// finder; a completion asked for by the pattern is asked of the daemon. Leaving the list
/// focuses the pattern again; what else the list asks for is passed on.
pub open spec fn handled(before: FinderView, after: FinderView, event: Event, r: Option<Effect>) -> bool {
    &&& after.dir == before.dir
    &&& match event {
        Event::Resize { size, scaled } => {
            &&& r is None
            &&& after.phrase == before.phrase
            &&& after.focus == before.focus
            &&& contents_handled(
                before.contents,
                before.pending,
                after.contents,
                after.pending,
                ContentsEvent::Resize { size: contents_size(size), scaled },
                None,
            )
        },
        Event::TermEvent(TermEvent::Resize(_)) => r is None && after == before,
        _ => match before.focus {
            Focus::Phrase => match phrase_event_of(event) {
                None => r is None && after == before,
                Some(phrase_event) => exists|phrase_effect: Option<PhraseEffect>|
                    #[trigger] phrase_handled(before.phrase, after.phrase, phrase_event, phrase_effect)
                        && match phrase_effect {
                        Some(PhraseEffect::Enter { phrase }) => {
                            &&& after.focus == Focus::Contents
                            &&& exists|contents_effect: Option<ContentsEffect>|
                                #[trigger] contents_handled(
                                    before.contents,
                                    before.pending,
                                    after.contents,
                                    after.pending,
                                    ContentsEvent::Find { phrase },
                                    contents_effect,
                                ) && r == match contents_effect {
                                    Some(ContentsEffect::Request(request)) => Some(
                                        Effect::Request(request),
                                    ),
                                    _ => None,
                                }
                        },
                        Some(PhraseEffect::RequestCompletion { uuid, partial }) => {
                            &&& after.focus == before.focus
                            &&& after.contents == before.contents
                            &&& after.pending == before.pending
                            &&& r matches Some(Effect::Request(request)) && request.uuid == uuid
                                && request.params == (RequestParams::SuggestFindPattern { partial })
                        },
                        Some(PhraseEffect::Bell) => after.focus == before.focus && after.contents
                            == before.contents && after.pending == before.pending && r == Some(
                            Effect::Bell,
                        ),
                        Some(PhraseEffect::Quit) => after.focus == before.focus && after.contents
                            == before.contents && after.pending == before.pending && r == Some(
                            Effect::Quit,
                        ),
                        None => after.focus == before.focus && after.contents == before.contents
                            && after.pending == before.pending && r is None,
                    },
            },
            Focus::Contents => {
                let contents_event = contents_event_of(event);
                exists|contents_effect: Option<ContentsEffect>|
                    #[trigger] contents_handled(
                        before.contents,
                        before.pending,
                        after.contents,
                        after.pending,
                        contents_event,
                        contents_effect,
                    ) && match contents_effect {
                        Some(ContentsEffect::Unfocus) => {
                            &&& after.focus == Focus::Phrase
                            &&& exists|phrase_effect: Option<PhraseEffect>|
                                #[trigger] phrase_handled(
                                    before.phrase,
                                    after.phrase,
                                    PhraseEvent::Focus,
                                    phrase_effect,
                                )
                            &&& r is None
                        },
                        Some(effect) => after.focus == before.focus && after.phrase
                            == before.phrase && r == effect_of(effect),
                        None => after.focus == before.focus && after.phrase == before.phrase
                            && r is None,
                    }
            },
        },
    }
}

/// Whether a finder is as it starts for some properties: the pattern given is being typed in,
/// and nothing has been looked for yet.
pub open spec fn started(v: FinderView, props: Props) -> bool {
    &&& v.dir == props.dir@
    &&& v.focus == Focus::Phrase
    &&& v.phrase.spec_value() == match props.phrase {
        Some(p) => p@,
        None => Seq::<char>::empty(),
    }
    &&& v.phrase.spec_focus()
    &&& v.phrase.spec_completable()
    &&& v.phrase.spec_completion() is None
    &&& v.phrase.pending() is None
    &&& v.contents == start_view(props.dir@, contents_size(props.size))
    &&& v.pending == Seq::<KeyEvent>::empty()
}

/// A file finder.
pub struct Finder {
    /// The directory looked in.
    dir: String,
    /// The pattern typed in.
    phrase: Phrase,
    /// The files found.
    contents: Contents,
    /// What is focused on.
    focus: Focus,
}

impl Finder {
    /// What the finder is seen as.
    pub closed spec fn view(&self) -> FinderView {
        FinderView {
            dir: self.dir@,
            phrase: self.phrase.state(),
            contents: self.contents.view(),
            pending: self.contents.pending(),
            focus: self.focus,
        }
    }

    /// What the finder keeps to.
    pub closed spec fn wf(&self) -> bool {
        self.contents.wf()
    }

    /// Return whether the finder can handle an event: a key for the list of files which
    /// completes a command that reads the selected file needs the selected row to be a file.
    pub fn can_handle(&self, event: &Event) -> (b: bool)
        requires
            self.wf(),
        ensures
            b == can_handle_event(self.view(), *event),
    {
        match (self.focus, event) {
            (Focus::Contents, Event::TermEvent(TermEvent::KeyEvent(k))) => self.contents.can_handle_event(
                &ContentsEvent::TermEvent(TermEvent::KeyEvent(*k)),
            ),
            _ => true,
        }
    }

    /// Return a finder for some properties: the pattern given is being typed in, and nothing
    /// has been looked for yet.
    pub fn new(props: Props) -> (f: Finder)
        ensures
            f.wf(),
            started(f.view(), props),
    {
        let phrase = Phrase::new(PhraseProps { completable: true, value: props.phrase });
        let contents = Contents::new(
            ContentsProps { dir: props.dir.clone(), size: contents_size_of(props.size) },
        );
        Finder { dir: props.dir, phrase, contents, focus: Focus::Phrase }
    }

    /// Return the name of the finder, which its footer shows.
    pub fn name(&self) -> (n: String)
        ensures
            n@ == "finder"@,
    {
        let n = String::from_str("finder");
        proof {
            reveal_strlit("finder");
        }
        n
    }

    /// Return the directory looked in.
    pub fn dir(&self) -> (d: &String)
        ensures
            d@ == self.view().dir,
    {
        &self.dir
    }

    /// Return the pattern typed in.
    pub fn phrase(&self) -> (p: &Phrase)
        ensures
            p.state() == self.view().phrase,
    {
        &self.phrase
    }

    /// Return the files found.
    pub fn contents(&self) -> (c: &Contents)
        ensures
            c.view() == self.view().contents,
            c.pending() == self.view().pending,
    {
        &self.contents
    }

    /// Return what is focused on.
    pub fn focus(&self) -> (f: Focus)
        ensures
            f == self.view().focus,
    {
        self.focus
    }

    /// Handle an event.
    pub fn handle(&mut self, event: Event) -> (r: Option<Effect>)
        requires
            old(self).wf(),
            can_handle_event(old(self).view(), event),
        ensures
            final(self).wf(),
            handled(old(self).view(), final(self).view(), event, r),
    {
        if let Event::Resize { size, scaled } = event {
            self.contents.handle(ContentsEvent::Resize { size: contents_size_of(size), scaled });
            return None;
        }
        if let Event::TermEvent(TermEvent::Resize(_)) = event {
            return None;
        }
        match self.focus {
            Focus::Phrase => {
                let phrase_event: PhraseEvent = match event {
                    Event::TermEvent(t) => PhraseEvent::TermEvent(t),
                    Event::Response(response) => match response.params {
                        ResponseParams::SuggestFindPattern { suggestion } => PhraseEvent::Completion {
                            uuid: response.uuid,
                            completion: suggestion,
                        },
                        // Responses for a find which is still going on arrive here when the list
                        // was left before the find was done.
                        _ => {
                            return None;
                        },
                    },
                    Event::Resize { .. } => {
                        return None;
                    },
                };
                let ghost before = *old(self);
                let ghost pev = phrase_event;
                assert(phrase_event_of(event) == Some(pev));
                let phrase_effect = self.phrase.handle(phrase_event);
                let ghost pe = phrase_effect;
                assert(phrase_handled(before.view().phrase, self.view().phrase, pev, pe));
                match phrase_effect {
                    Some(PhraseEffect::Enter { phrase }) => {
                        self.focus = Focus::Contents;
                        let ghost find = ContentsEvent::Find { phrase };
                        let contents_effect = self.contents.handle(ContentsEvent::Find { phrase });
                        let ghost fe = contents_effect;
                        assert(contents_handled(
                            before.view().contents,
                            before.view().pending,
                            self.view().contents,
                            self.view().pending,
                            find,
                            fe,
                        ));
                        let r = match contents_effect {
                            Some(ContentsEffect::Request(request)) => Some(Effect::Request(request)),
                            _ => None,
                        };
                        assert(r == match fe {
                            Some(ContentsEffect::Request(request)) => Some(Effect::Request(request)),
                            _ => None,
                        });
                        assert(phrase_handled(before.view().phrase, self.view().phrase, pev, pe));
                        assert(pe matches Some(PhraseEffect::Enter { phrase }) && find == (ContentsEvent::Find { phrase }));
                        assert(self.view().focus == Focus::Contents);
                        assert(self.view().dir == before.view().dir);
                        assert(handled(before.view(), self.view(), event, r));
                        r
                    },
                    Some(PhraseEffect::Bell) => {
                        assert(handled(before.view(), self.view(), event, Some(Effect::Bell)));
                        Some(Effect::Bell)
                    },
                    Some(PhraseEffect::RequestCompletion { uuid, partial }) => {
                        let r = Some(
                            Effect::Request(
                                Request { uuid, params: RequestParams::SuggestFindPattern { partial } },
                            ),
                        );
                        assert(handled(before.view(), self.view(), event, r));
                        r
                    },
                    Some(PhraseEffect::Quit) => {
                        assert(handled(before.view(), self.view(), event, Some(Effect::Quit)));
                        Some(Effect::Quit)
                    },
                    None => {
                        assert(handled(before.view(), self.view(), event, None));
                        None
                    },
                }
            },
            Focus::Contents => {
                let contents_event = match event {
                    Event::Response(response) => ContentsEvent::Response(response),
                    Event::TermEvent(t) => ContentsEvent::TermEvent(t),
                    Event::Resize { size, scaled } => ContentsEvent::Resize { size, scaled },
                };
                let ghost before = *old(self);
                let ghost cev = contents_event;
                assert(cev == contents_event_of(event));
                let contents_effect = self.contents.handle(contents_event);
                let ghost ce = contents_effect;
                assert(contents_handled(
                    before.view().contents,
                    before.view().pending,
                    self.view().contents,
                    self.view().pending,
                    cev,
                    ce,
                ));
                if let Some(ContentsEffect::Unfocus) = contents_effect {
                    self.focus = Focus::Phrase;
                    let pf = self.phrase.handle(PhraseEvent::Focus);
                    assert(phrase_handled(before.view().phrase, self.view().phrase, PhraseEvent::Focus, pf));
                    assert(contents_handled(
                        before.view().contents,
                        before.view().pending,
                        self.view().contents,
                        self.view().pending,
                        cev,
                        ce,
                    ));
                    assert(handled(before.view(), self.view(), event, None));
                    return None;
                }
                let r = match contents_effect {
                    Some(ContentsEffect::Request(request)) => Some(Effect::Request(request)),
                    Some(ContentsEffect::Goto { dir, file }) => Some(Effect::Browse { dir, file }),
                    Some(ContentsEffect::OpenVim(args)) => Some(Effect::OpenVim(args)),
                    Some(ContentsEffect::Copy { contents }) => Some(Effect::Copy { contents }),
                    Some(ContentsEffect::Bell) => Some(Effect::Bell),
                    _ => None,
                };
                assert(r == match ce {
                    Some(effect) => effect_of(effect),
                    None => None,
                });
                assert(handled(before.view(), self.view(), event, r));
                r
            },
        }
    }
}

/// The key which leaves what is focused on: the pattern, which quits the finder, or the list,
/// which goes back to the pattern.
pub open spec fn leave_key() -> KeyEvent {
    KeyEvent { key: Key::Char('q'), mods: control_mods() }
}

/// Control and `q` typed into the pattern quits the finder, and changes nothing.
pub proof fn law_control_q_quits_from_the_pattern(before: FinderView, after: FinderView, r: Option<Effect>)
    requires
        before.focus == Focus::Phrase,
        handled(before, after, Event::TermEvent(TermEvent::KeyEvent(leave_key())), r),
    ensures
        r == Some(Effect::Quit),
        after.focus == Focus::Phrase,
        after.contents == before.contents,
{
}

/// Control and `q` in the list of files found goes back to the pattern, when no keys of a
/// longer command were pressed before it.
pub proof fn law_control_q_goes_back_to_the_pattern(before: FinderView, after: FinderView, r: Option<Effect>)
    requires
        before.focus == Focus::Contents,
        before.pending.len() == 0,
        handled(before, after, Event::TermEvent(TermEvent::KeyEvent(leave_key())), r),
    ensures
        r is None,
        after.focus == Focus::Phrase,
{
    let keys = Seq::<KeyEvent>::empty().push(leave_key());
    let first = crate::finder_contents::bindings().take(1);
    assert(first.drop_last() =~= Seq::empty());
    assert(crate::commands::first_spelled(first.drop_last(), keys) is None);
    assert(crate::commands::spells(first.last().0, keys));
    assert(crate::commands::first_spelled(first, keys) == Some(0int));
    assert(before.pending.push(leave_key()) =~= keys);
    crate::commands::lemma_first_spelled_grows(crate::finder_contents::bindings(), keys, 1);
    assert(crate::finder_contents::command_of(before.pending, leave_key())
        == Some(crate::finder_contents::Command::Unfocus));
}

} // verus!
