//! The searcher: a phrase typed in, and the files under a directory which contain it.

use vstd::prelude::*;

use crate::args::VimArgs;
use crate::searcher_contents::{
    Contents, ContentsView, Effect as ContentsEffect, Event as ContentsEvent, Props as ContentsProps,
    can_handle, handled as contents_handled, start_view,
};
use crate::keys::{Key, KeyEvent, Size, TermEvent, control_mods};
use crate::phrase::{
    Effect as PhraseEffect, Event as PhraseEvent, Phrase, Props as PhraseProps, State as PhraseState,
    handled as phrase_handled,
};
use crate::requests::{Request, RequestParams, Response, ResponseParams};

verus! {

/// The properties of the searcher.
pub struct Props {
    /// The directory to search in.
    pub dir: String,
    /// The size of the searcher.
    pub size: Size,
    /// The phrase to start with, if any.
    pub phrase: Option<String>,
    /// The request for the hits which is already on its way, if there is one.
    pub pending_request: Option<u128>,
}

/// What the searcher is focused on.
#[derive(Clone, Copy, Debug, PartialEq, Eq, Structural)]
pub enum Focus {
    /// The phrase typed in.
    Phrase,
    /// The hits found.
    Contents,
}

/// A searcher event.
pub enum Event {
    /// Something from the terminal. A change of its size comes as a `Resize` instead.
    TermEvent(TermEvent),
    /// A response from the daemon.
    Response(Response),
    /// The searcher was resized, with the row the selection is scaled to in the list.
    Resize {
        /// The new size of the whole searcher.
        size: Size,
        /// The row the selection is scaled to.
        scaled: usize,
    },
}

/// A searcher effect.
pub enum Effect {
    /// Send a request.
    Request(Request),
    /// Browse a directory.
    Goto {
        /// The directory.
        dir: String,
        /// The file to select in it, if any.
        file: Option<String>,
    },
    /// Edit a file.
    OpenVim(VimArgs),
    /// Copy some text to the clipboard.
    Copy {
        /// The text.
        contents: String,
    },
    /// Ring the bell.
    Bell,
    /// Quit.
    Quit,
}

/// How many rows the directory, the phrase and the footer take, which the list does not get.
pub const CHROME_ROWS: usize = 3;

/// The size of the list in a searcher of some size.
pub open spec fn contents_size(size: Size) -> Size {
    Size {
        rows: if size.rows > CHROME_ROWS { (size.rows - CHROME_ROWS) as usize } else { 0 },
        columns: size.columns,
    }
}

/// Return the size of the list in a searcher of some size.
pub fn contents_size_of(size: Size) -> (s: Size)
    ensures
        s == contents_size(size),
{
    Size::new(size.rows.saturating_sub(CHROME_ROWS), size.columns)
}

/// What the searcher is seen as.
pub struct SearcherView {
    /// The directory searched.
    pub dir: Seq<char>,
    /// The phrase typed in.
    pub phrase: PhraseState,
    /// The hits found.
    pub contents: ContentsView,
    /// The keys pressed in the list since the last command.
    pub pending: Seq<KeyEvent>,
    /// What is focused on.
    pub focus: Focus,
}

/// What a searcher effect is, given what the list of hits asked for.
pub open spec fn effect_of(effect: ContentsEffect) -> Option<Effect> {
    match effect {
        ContentsEffect::Unfocus => None,
        ContentsEffect::Request(request) => Some(Effect::Request(request)),
        ContentsEffect::Goto { dir, file } => Some(Effect::Goto { dir, file }),
        ContentsEffect::OpenVim(args) => Some(Effect::OpenVim(args)),
        ContentsEffect::Copy { contents } => Some(Effect::Copy { contents }),
        ContentsEffect::Bell => Some(Effect::Bell),
    }
}

/// Whether the searcher can handle an event: one for the list must be one the list can handle.
pub open spec fn can_handle_event(v: SearcherView, event: Event) -> bool {
    match event {
        Event::Resize { size, scaled } => can_handle(
            v.contents,
            v.pending,
            ContentsEvent::Resize { size: contents_size(size), scaled },
        ),
        Event::TermEvent(TermEvent::Resize(_)) => true,
        _ => v.focus == Focus::Contents ==> can_handle(v.contents, v.pending, contents_event_of(event)),
    }
}

/// The event for the phrase which an event for the searcher is, when the phrase is focused:
/// terminal events as they are, and completions of the phrase; any other response is dropped.
pub open spec fn phrase_event_of(event: Event) -> Option<PhraseEvent> {
    match event {
        Event::TermEvent(t) => Some(PhraseEvent::TermEvent(t)),
        Event::Response(response) => match response.params {
            ResponseParams::SuggestSearchPhrase { suggestion } => Some(
                PhraseEvent::Completion { uuid: response.uuid, completion: suggestion },
            ),
            _ => None,
        },
        Event::Resize { .. } => None,
    }
}

/// The event for the list which an event for the searcher is, when the list is focused.
pub open spec fn contents_event_of(event: Event) -> ContentsEvent {
    match event {
        Event::Response(response) => ContentsEvent::Response(response),
        Event::TermEvent(t) => ContentsEvent::TermEvent(t),
        Event::Resize { size, scaled } => ContentsEvent::Resize { size, scaled },
    }
}

/// What handling an event does to the searcher, and what it gives back.
///
/// A resize goes to the list. Otherwise the event goes to what is focused on. Entering the
/// phrase focuses the list and searches for it; quitting the phrase quits the searcher; a
/// completion asked for by the phrase is asked of the daemon. Leaving the list focuses the
/// phrase again; what else the list asks for is passed on.
pub open spec fn handled(before: SearcherView, after: SearcherView, event: Event, r: Option<Effect>) -> bool {
    &&& after.dir == before.dir
    &&& match event {
        Event::Resize { size, scaled } => {
            &&& r is None
            &&& after.phrase == before.phrase
            &&& after.focus == before.focus
            &&& contents_handled(
                before.contents,
                before.pending,
                after.contents,
                after.pending,
                ContentsEvent::Resize { size: contents_size(size), scaled },
                None,
            )
        },
        Event::TermEvent(TermEvent::Resize(_)) => r is None && after == before,
        _ => match before.focus {
            Focus::Phrase => match phrase_event_of(event) {
                None => r is None && after == before,
                Some(phrase_event) => exists|phrase_effect: Option<PhraseEffect>|
                    #[trigger] phrase_handled(before.phrase, after.phrase, phrase_event, phrase_effect)
                        && match phrase_effect {
                        Some(PhraseEffect::Enter { phrase }) => {
                            &&& after.focus == Focus::Contents
                            &&& exists|contents_effect: Option<ContentsEffect>|
                                #[trigger] contents_handled(
                                    before.contents,
                                    before.pending,
                                    after.contents,
                                    after.pending,
                                    ContentsEvent::Search { phrase },
                                    contents_effect,
                                ) && r == match contents_effect {
                                    Some(ContentsEffect::Request(request)) => Some(
                                        Effect::Request(request),
                                    ),
                                    _ => None,
                                }
                        },
                        Some(PhraseEffect::RequestCompletion { uuid, partial }) => {
                            &&& after.focus == before.focus
                            &&& after.contents == before.contents
                            &&& after.pending == before.pending
                            &&& r matches Some(Effect::Request(request)) && request.uuid == uuid
                                && request.params == (RequestParams::SuggestSearchPhrase { partial })
                        },
                        Some(PhraseEffect::Bell) => after.focus == before.focus && after.contents
                            == before.contents && after.pending == before.pending && r == Some(
                            Effect::Bell,
                        ),
                        Some(PhraseEffect::Quit) => after.focus == before.focus && after.contents
                            == before.contents && after.pending == before.pending && r == Some(
                            Effect::Quit,
                        ),
                        None => after.focus == before.focus && after.contents == before.contents
                            && after.pending == before.pending && r is None,
                    },
            },
            Focus::Contents => {
                let contents_event = contents_event_of(event);
                exists|contents_effect: Option<ContentsEffect>|
                    #[trigger] contents_handled(
                        before.contents,
                        before.pending,
                        after.contents,
                        after.pending,
                        contents_event,
                        contents_effect,
                    ) && match contents_effect {
                        Some(ContentsEffect::Unfocus) => {
                            &&& after.focus == Focus::Phrase
                            &&& exists|phrase_effect: Option<PhraseEffect>|
                                #[trigger] phrase_handled(
                                    before.phrase,
                                    after.phrase,
                                    PhraseEvent::Focus,
                                    phrase_effect,
                                )
                            &&& r is None
                        },
                        Some(effect) => after.focus == before.focus && after.phrase
                            == before.phrase && r == effect_of(effect),
                        None => after.focus == before.focus && after.phrase == before.phrase
                            && r is None,
                    }
            },
        },
    }
}

/// Whether a searcher is as it starts for some properties: the phrase given is being typed in,
/// unless a search for it is already on its way, in which case the hits are looked at.
pub open spec fn started(v: SearcherView, props: Props) -> bool {
    &&& v.dir == props.dir@
    &&& v.focus == (if props.phrase is Some { Focus::Contents } else { Focus::Phrase })
    &&& v.phrase.spec_value() == match props.phrase {
        Some(p) => p@,
        None => Seq::<char>::empty(),
    }
    &&& v.phrase.spec_focus() == props.phrase is None
    &&& v.phrase.spec_completable()
    &&& v.contents == start_view(
        props.dir@,
        contents_size(props.size),
        match props.phrase {
            Some(p) => Some(p@),
            None => None,
        },
        props.pending_request,
    )
    &&& v.pending == Seq::<KeyEvent>::empty()
}

/// A searcher of the contents of files.
pub struct Searcher {
    /// The directory searched.
    dir: String,
    /// The phrase typed in.
    phrase: Phrase,
    /// The hits found.
    contents: Contents,
    /// What is focused on.
    focus: Focus,
}

impl Searcher {
    /// What the searcher is seen as.
    pub closed spec fn view(&self) -> SearcherView {
        SearcherView {
            dir: self.dir@,
            phrase: self.phrase.state(),
            contents: self.contents.view(),
            pending: self.contents.pending(),
            focus: self.focus,
        }
    }

    /// What the searcher keeps to.
    pub closed spec fn wf(&self) -> bool {
        self.contents.wf()
    }

    /// Return whether the searcher can handle an event: what it asks of the hits has to be
    /// something they can do.
    pub fn can_handle(&self, event: &Event) -> (b: bool)
        requires
            self.wf(),
        ensures
            b == can_handle_event(self.view(), *event),
    {
        match event {
            Event::Resize { size, scaled } => self.contents.can_handle_event(
                &ContentsEvent::Resize { size: contents_size_of(*size), scaled: *scaled },
            ),
            Event::TermEvent(TermEvent::Resize(_)) => true,
            Event::TermEvent(TermEvent::KeyEvent(key)) => {
                if self.focus != Focus::Contents {
                    return true;
                }
                self.contents.can_handle_event(&ContentsEvent::TermEvent(TermEvent::KeyEvent(*key)))
            },
            Event::TermEvent(_) => true,
            Event::Response(response) => {
                if self.focus != Focus::Contents {
                    return true;
                }
                self.contents.state().response_ok(response)
            },
        }
    }

    /// Return whether the searcher can take in a response.
    pub fn response_ok(&self, response: &Response) -> (b: bool)
        requires
            self.wf(),
        ensures
            b == can_handle_event(self.view(), Event::Response(*response)),
    {
        if self.focus != Focus::Contents {
            return true;
        }
        self.contents.state().response_ok(response)
    }

    /// Return a searcher for some properties: the phrase given is being typed in, unless a
    /// search for it is already on its way, in which case the hits are looked at.
    pub fn new(props: Props) -> (f: Searcher)
        ensures
            f.wf(),
            started(f.view(), props),
    {
        let mut phrase = Phrase::new(PhraseProps { completable: true, value: props.phrase.clone() });
        let contents = Contents::new(
            ContentsProps {
                dir: props.dir.clone(),
                size: contents_size_of(props.size),
                phrase: props.phrase.clone(),
                pending_request: props.pending_request,
            },
        );
        let focus = if props.phrase.is_some() {
            phrase.handle(PhraseEvent::Unfocus);
            Focus::Contents
        } else {
            Focus::Phrase
        };
        Searcher { dir: props.dir, phrase, contents, focus }
    }

    /// Return the name of the searcher, which its footer shows.
    pub fn name(&self) -> (n: String)
        ensures
            n@ == "searcher"@,
    {
        let n = String::from_str("searcher");
        proof {
            reveal_strlit("searcher");
        }
        n
    }

    /// Return the directory searched.
    pub fn dir(&self) -> (d: &String)
        ensures
            d@ == self.view().dir,
    {
        &self.dir
    }

    /// Return the phrase typed in.
    pub fn phrase(&self) -> (p: &Phrase)
        ensures
            p.state() == self.view().phrase,
    {
        &self.phrase
    }

    /// Return the hits found.
    pub fn contents(&self) -> (c: &Contents)
        ensures
            c.view() == self.view().contents,
            c.pending() == self.view().pending,
    {
        &self.contents
    }

    /// Return what is focused on.
    pub fn focus(&self) -> (f: Focus)
        ensures
            f == self.view().focus,
    {
        self.focus
    }

    /// Handle an event.
    pub fn handle(&mut self, event: Event) -> (r: Option<Effect>)
        requires
            old(self).wf(),
            can_handle_event(old(self).view(), event),
        ensures
            final(self).wf(),
            handled(old(self).view(), final(self).view(), event, r),
    {
        if let Event::Resize { size, scaled } = event {
            self.contents.handle(ContentsEvent::Resize { size: contents_size_of(size), scaled });
            return None;
        }
        if let Event::TermEvent(TermEvent::Resize(_)) = event {
            return None;
        }
        match self.focus {
            Focus::Phrase => {
                let phrase_event: PhraseEvent = match event {
                    Event::TermEvent(t) => PhraseEvent::TermEvent(t),
                    Event::Response(response) => match response.params {
                        ResponseParams::SuggestSearchPhrase { suggestion } => PhraseEvent::Completion {
                            uuid: response.uuid,
                            completion: suggestion,
                        },
                        _ => {
                            return None;
                        },
                    },
                    Event::Resize { .. } => {
                        return None;
                    },
                };
                let ghost before = *old(self);
                let ghost pev = phrase_event;
                assert(phrase_event_of(event) == Some(pev));
                let phrase_effect = self.phrase.handle(phrase_event);
                let ghost pe = phrase_effect;
                assert(phrase_handled(before.view().phrase, self.view().phrase, pev, pe));
                match phrase_effect {
                    Some(PhraseEffect::Enter { phrase }) => {
                        self.focus = Focus::Contents;
                        let ghost find = ContentsEvent::Search { phrase };
                        let contents_effect = self.contents.handle(ContentsEvent::Search { phrase });
                        let ghost fe = contents_effect;
                        assert(contents_handled(
                            before.view().contents,
                            before.view().pending,
                            self.view().contents,
                            self.view().pending,
                            find,
                            fe,
                        ));
                        let r = match contents_effect {
                            Some(ContentsEffect::Request(request)) => Some(Effect::Request(request)),
                            _ => None,
                        };
                        assert(r == match fe {
                            Some(ContentsEffect::Request(request)) => Some(Effect::Request(request)),
                            _ => None,
                        });
                        assert(phrase_handled(before.view().phrase, self.view().phrase, pev, pe));
                        assert(pe matches Some(PhraseEffect::Enter { phrase }) && find == (ContentsEvent::Search { phrase }));
                        assert(self.view().focus == Focus::Contents);
                        assert(self.view().dir == before.view().dir);
                        assert(handled(before.view(), self.view(), event, r));
                        r
                    },
                    Some(PhraseEffect::Bell) => {
                        assert(handled(before.view(), self.view(), event, Some(Effect::Bell)));
                        Some(Effect::Bell)
                    },
                    Some(PhraseEffect::RequestCompletion { uuid, partial }) => {
                        let r = Some(
                            Effect::Request(
                                Request { uuid, params: RequestParams::SuggestSearchPhrase { partial } },
                            ),
                        );
                        assert(handled(before.view(), self.view(), event, r));
                        r
                    },
                    Some(PhraseEffect::Quit) => {
                        assert(handled(before.view(), self.view(), event, Some(Effect::Quit)));
                        Some(Effect::Quit)
                    },
                    None => {
                        assert(handled(before.view(), self.view(), event, None));
                        None
                    },
                }
            },
            Focus::Contents => {
                let contents_event = match event {
                    Event::Response(response) => ContentsEvent::Response(response),
                    Event::TermEvent(t) => ContentsEvent::TermEvent(t),
                    Event::Resize { size, scaled } => ContentsEvent::Resize { size, scaled },
                };
                let ghost before = *old(self);
                let ghost cev = contents_event;
                assert(cev == contents_event_of(event));
                let contents_effect = self.contents.handle(contents_event);
                let ghost ce = contents_effect;
                assert(contents_handled(
                    before.view().contents,
                    before.view().pending,
                    self.view().contents,
                    self.view().pending,
                    cev,
                    ce,
                ));
                if let Some(ContentsEffect::Unfocus) = contents_effect {
                    self.focus = Focus::Phrase;
                    let pf = self.phrase.handle(PhraseEvent::Focus);
                    assert(phrase_handled(before.view().phrase, self.view().phrase, PhraseEvent::Focus, pf));
                    assert(contents_handled(
                        before.view().contents,
                        before.view().pending,
                        self.view().contents,
                        self.view().pending,
                        cev,
                        ce,
                    ));
                    assert(handled(before.view(), self.view(), event, None));
                    return None;
                }
                let r = match contents_effect {
                    Some(ContentsEffect::Request(request)) => Some(Effect::Request(request)),
                    Some(ContentsEffect::Goto { dir, file }) => Some(Effect::Goto { dir, file }),
                    Some(ContentsEffect::OpenVim(args)) => Some(Effect::OpenVim(args)),
                    Some(ContentsEffect::Copy { contents }) => Some(Effect::Copy { contents }),
                    Some(ContentsEffect::Bell) => Some(Effect::Bell),
                    _ => None,
                };
                assert(r == match ce {
                    Some(effect) => effect_of(effect),
                    None => None,
                });
                assert(handled(before.view(), self.view(), event, r));
                r
            },
        }
    }
}

/// The key which leaves what is focused on: the phrase, which quits the searcher, or the hits,
/// which goes back to the phrase.
pub open spec fn leave_key() -> KeyEvent {
    KeyEvent { key: Key::Char('q'), mods: control_mods() }
}

/// Control and `q` typed into the phrase quits the searcher, and changes nothing.
pub proof fn law_control_q_quits_from_the_phrase(before: SearcherView, after: SearcherView, r: Option<Effect>)
    requires
        before.focus == Focus::Phrase,
        handled(before, after, Event::TermEvent(TermEvent::KeyEvent(leave_key())), r),
    ensures
        r == Some(Effect::Quit),
        after.focus == Focus::Phrase,
        after.contents == before.contents,
{
}

/// Control and `q` in the hits goes back to the phrase, when no keys of a longer command were
/// pressed before it.
pub proof fn law_control_q_goes_back_to_the_phrase(before: SearcherView, after: SearcherView, r: Option<Effect>)
    requires
        before.focus == Focus::Contents,
        before.pending.len() == 0,
        handled(before, after, Event::TermEvent(TermEvent::KeyEvent(leave_key())), r),
    ensures
        r is None,
        after.focus == Focus::Phrase,
{
    let keys = Seq::<KeyEvent>::empty().push(leave_key());
    let first = crate::searcher_contents::bindings().take(1);
    assert(first.drop_last() =~= Seq::empty());
    assert(crate::commands::first_spelled(first.drop_last(), keys) is None);
    assert(crate::commands::spells(first.last().0, keys));
    assert(crate::commands::first_spelled(first, keys) == Some(0int));
    assert(before.pending.push(leave_key()) =~= keys);
    crate::commands::lemma_first_spelled_grows(crate::searcher_contents::bindings(), keys, 1);
    assert(crate::searcher_contents::command_of(before.pending, leave_key())
        == Some(crate::searcher_contents::Command::Unfocus));
}

} // verus!
