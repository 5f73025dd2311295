//! The search of the past chats: what to look for is typed in, and the chats it is found in are
//! listed to be opened.

use vstd::prelude::*;

use crate::history::{
    CHAT_LIMIT, Chats, Entry, Movement, entries_of, move_of, moved,
};
use crate::keys::{Key, KeyEvent, Size, TermEvent, control_mods, no_mods};
use crate::phrase::{
    Effect as PhraseEffect, Event as PhraseEvent, Phrase, Props as PhraseProps, State as PhraseState,
    handled as phrase_handled,
};
use crate::requests::{ChatSummary, Request, RequestParams, Response, ResponseParams};

verus! {

/// The rows the box what to look for is typed into and the footer take between them.
pub const CHROME_ROWS: usize = 2;

/// Which part of the searcher has focus.
#[derive(Clone, Copy, Debug, PartialEq, Eq, Structural)]
pub enum Focus {
    /// The box what to look for is typed into.
    Phrase,
    /// The chats which were found.
    Chats,
}

/// A searcher event.
pub enum Event {
    /// A response from the daemon.
    Response(Response),
    /// Something from the terminal.
    TermEvent(TermEvent),
}

/// A searcher effect.
#[derive(Debug, PartialEq, Eq)]
pub enum Effect {
    /// Open a chat.
    Open {
        /// Which chat to open.
        id: i64,
    },
    /// Make a request.
    Request(Request),
    /// Go back to the past chats.
    Quit,
    /// Ring the bell.
    Bell,
}

/// Whether some chats have one with an identifier.
pub open spec fn has_id(entries: Seq<Entry>, id: i64) -> bool {
    exists|i: int| 0 <= i < entries.len() && (#[trigger] entries[i]).id == id
}

/// The chats which are listed for a response: those found by the words come first, then those
/// found by what was meant, leaving out any which are already there.
pub open spec fn merged(chats: Seq<ChatSummary>, hits: Seq<ChatSummary>) -> Seq<Entry>
    decreases hits.len(),
{
    if hits.len() == 0 {
        entries_of(chats)
    } else {
        let listed = merged(chats, hits.drop_last());
        let hit = hits.last();
        if has_id(listed, hit.id) {
            listed
        } else {
            listed.push(Entry { id: hit.id, title: hit.title })
        }
    }
}

/// What the searcher is seen as.
pub struct SearcherView {
    /// The chats which were found.
    pub entries: Seq<Entry>,
    /// Which of them is selected.
    pub selected: Option<usize>,
    /// The first of them which is shown.
    pub offset: usize,
    /// How many rows the list has.
    pub rows: usize,
    /// The box what to look for is typed into.
    pub phrase: PhraseState,
    /// Which part has focus.
    pub focus: Focus,
}

/// The rows the list has in a searcher of some size.
pub open spec fn list_rows(size: Size) -> usize {
    if size.rows > CHROME_ROWS { (size.rows - CHROME_ROWS) as usize } else { 0 }
}

/// Whether a key leaves the chats found for what to look for.
pub open spec fn is_leave_key(key: KeyEvent) -> bool {
    (key.key == Key::Char('q') && key.mods == control_mods()) || (key.key == Key::Char('/')
        && key.mods == no_mods())
}

/// Whether a key opens the selected chat.
pub open spec fn is_open_key(key: KeyEvent) -> bool {
    key.key == Key::CarriageReturn || (key.key == Key::Char('l') && key.mods == no_mods())
}

/// What a searcher shows of a list of chats.
pub open spec fn listed(v: SearcherView, entries: Seq<Entry>, selected: Option<usize>, offset: usize, rows: usize) -> bool {
    v.entries == entries && v.selected == selected && v.offset == offset && v.rows == rows
}

/// What handling an event does to the searcher, and what it gives back.
///
/// The chats found are listed. Entering what to look for looks for it (unless it is empty) and
/// moves to the list; in the list, moving around is done, leaving goes back to what to look for,
/// and the selected chat is opened.
pub open spec fn handled(before: SearcherView, after: SearcherView, event: Event, r: Option<Effect>) -> bool {
    match event {
        Event::Response(response) => r is None && match response.params {
            ResponseParams::SearchChats { chats, hits } => {
                let entries = merged(chats@, hits@);
                after == SearcherView {
                    entries,
                    selected: if entries.len() == 0 { None } else { Some(0usize) },
                    offset: 0,
                    ..before
                }
            },
            _ => after == before,
        },
        Event::TermEvent(TermEvent::Resize(size)) => {
            &&& r is None
            &&& after.entries == before.entries
            &&& after.selected == before.selected
            &&& after.rows == list_rows(size)
            &&& after.phrase == before.phrase
            &&& after.focus == before.focus
            &&& after.offset == match before.selected {
                Some(s) => crate::history::scrolled_to(before.offset, list_rows(size), s),
                None => before.offset,
            }
        },
        Event::TermEvent(t) => match before.focus {
            Focus::Phrase => exists|e: Option<PhraseEffect>, typed: PhraseState|
                #[trigger] phrase_handled(before.phrase, typed, PhraseEvent::TermEvent(t), e) && match e {
                    Some(PhraseEffect::Enter { phrase: text }) => {
                        &&& after == SearcherView { focus: Focus::Chats, phrase: after.phrase, ..before }
                        &&& exists|e2: Option<PhraseEffect>|
                            #[trigger] phrase_handled(typed, after.phrase, PhraseEvent::Unfocus, e2)
                        &&& if text@.len() == 0 {
                            r is None
                        } else {
                            r matches Some(Effect::Request(request)) && request.params == (
                            RequestParams::SearchChats { text, limit: CHAT_LIMIT })
                        }
                    },
                    Some(PhraseEffect::Quit) => r == Some(Effect::Quit) && after == SearcherView {
                        phrase: typed,
                        ..before
                    },
                    Some(PhraseEffect::Bell) => r == Some(Effect::Bell) && after == SearcherView {
                        phrase: typed,
                        ..before
                    },
                    _ => r is None && after == SearcherView { phrase: typed, ..before },
                },
            Focus::Chats => match t {
                TermEvent::KeyEvent(key) => match move_of(key) {
                    Some(how) => {
                        let (movement, place) = moved(
                            before.entries.len(),
                            before.rows,
                            crate::history::Place { selected: before.selected, offset: before.offset },
                            how,
                        );
                        &&& after == SearcherView {
                            selected: place.selected,
                            offset: place.offset,
                            ..before
                        }
                        &&& r == if movement == Movement::Moved {
                            None
                        } else if movement == Movement::Stuck {
                            Some(Effect::Bell)
                        } else if is_open_key(key) {
                            match before.selected {
                                Some(s) => Some(Effect::Open { id: before.entries[s as int].id }),
                                None => None,
                            }
                        } else {
                            None
                        }
                    },
                    None => if is_leave_key(key) {
                        &&& r is None
                        &&& after == SearcherView { focus: Focus::Phrase, phrase: after.phrase, ..before }
                        &&& exists|e: Option<PhraseEffect>|
                            #[trigger] phrase_handled(before.phrase, after.phrase, PhraseEvent::Focus, e)
                    } else if is_open_key(key) {
                        after == before && r == match before.selected {
                            Some(s) => Some(Effect::Open { id: before.entries[s as int].id }),
                            None => None,
                        }
                    } else {
                        r is None && after == before
                    },
                },
                _ => r is None && after == before,
            },
        },
    }
}

/// Whether a searcher is as it starts at some size: nothing found yet, and ready for what to
/// look for to be typed in.
pub open spec fn started(v: SearcherView, size: Size) -> bool {
    &&& v.entries.len() == 0
    &&& v.selected is None
    &&& v.offset == 0
    &&& v.rows == list_rows(size)
    &&& v.focus == Focus::Phrase
    &&& v.phrase.spec_focus()
    &&& v.phrase.spec_value() == Seq::<char>::empty()
    &&& !v.phrase.spec_completable()
}

/// A search of the past chats.
pub struct HistorySearcher {
    /// The chats which were found.
    chats: Chats,
    /// The box what to look for is typed into.
    phrase: Phrase,
    /// Which part has focus.
    focus: Focus,
}

impl HistorySearcher {
    /// What the searcher is seen as.
    pub closed spec fn view(&self) -> SearcherView {
        SearcherView {
            entries: self.chats.entries(),
            selected: self.chats.selected_index(),
            offset: self.chats.offset(),
            rows: self.chats.rows(),
            phrase: self.phrase.state(),
            focus: self.focus,
        }
    }

    /// What the searcher keeps to.
    pub closed spec fn wf(&self) -> bool {
        self.chats.wf()
    }

    /// Return a searcher of some size, with nothing found yet, ready for what to look for to be
    /// typed in.
    pub fn new(size: Size) -> (s: HistorySearcher)
        ensures
            s.wf(),
            started(s.view(), size),
    {
        let mut phrase = Phrase::new(PhraseProps { completable: false, value: None });
        // There is nothing to look through yet, so this opens ready to be typed in.
        phrase.handle(PhraseEvent::Focus);
        let mut chats = Chats::new();
        chats.resize(size.rows.saturating_sub(CHROME_ROWS));
        HistorySearcher { chats, phrase, focus: Focus::Phrase }
    }

    /// Return the name of the searcher, which its footer shows.
    pub fn name(&self) -> (n: String)
        ensures
            n@ == "inshie history searcher"@,
    {
        let n = String::from_str("inshie history searcher");
        proof {
            reveal_strlit("inshie history searcher");
        }
        n
    }

    /// Return the chats which were found.
    pub fn list(&self) -> (c: &Chats)
        ensures
            c.entries() == self.view().entries,
            c.selected_index() == self.view().selected,
            c.offset() == self.view().offset,
            c.rows() == self.view().rows,
    {
        &self.chats
    }

    /// Return the box what to look for is typed into.
    pub fn phrase(&self) -> (p: &Phrase)
        ensures
            p.state() == self.view().phrase,
    {
        &self.phrase
    }

    /// Return which part has focus.
    pub fn focus(&self) -> (f: Focus)
        ensures
            f == self.view().focus,
    {
        self.focus
    }

    /// Return the chats listed for a response.
    fn merge(chats: &Vec<ChatSummary>, hits: &Vec<ChatSummary>) -> (entries: Vec<Entry>)
        ensures
            entries@ == merged(chats@, hits@),
    {
        let mut entries: Vec<Entry> = Vec::new();
        let mut i: usize = 0;
        while i < chats.len()
            invariant
                i <= chats.len(),
                entries@ == entries_of(chats@.take(i as int)),
            decreases chats.len() - i,
        {
            entries.push(Entry { id: chats[i].id, title: chats[i].title.clone() });
            assert(entries_of(chats@.take(i + 1)) =~= entries_of(chats@.take(i as int)).push(
                Entry { id: chats@[i as int].id, title: chats@[i as int].title },
            ));
            i = i + 1;
        }
        assert(chats@.take(chats.len() as int) =~= chats@);
        let mut j: usize = 0;
        while j < hits.len()
            invariant
                j <= hits.len(),
                entries@ == merged(chats@, hits@.take(j as int)),
            decreases hits.len() - j,
        {
            let id = hits[j].id;
            let mut found = false;
            let mut k: usize = 0;
            while k < entries.len()
                invariant
                    k <= entries.len(),
                    found <==> exists|m: int| 0 <= m < k && (#[trigger] entries@[m]).id == id,
                decreases entries.len() - k,
            {
                if entries[k].id == id {
                    found = true;
                }
                k = k + 1;
            }
            assert(hits@.take(j + 1).drop_last() =~= hits@.take(j as int));
            if !found {
                entries.push(Entry { id, title: hits[j].title.clone() });
            }
            j = j + 1;
        }
        assert(hits@.take(hits.len() as int) =~= hits@);
        entries
    }

    /// Handle an event.
    pub fn handle(&mut self, event: Event) -> (r: Option<Effect>)
        requires
            old(self).wf(),
        ensures
            final(self).wf(),
            handled(old(self).view(), final(self).view(), event, r),
    {
        let ghost before = self.view();
        match event {
            Event::Response(response) => {
                if let ResponseParams::SearchChats { chats, hits } = response.params {
                    let entries = Self::merge(&chats, &hits);
                    self.chats.show(entries);
                }
                None
            },
            Event::TermEvent(TermEvent::Resize(size)) => {
                self.chats.resize(size.rows.saturating_sub(CHROME_ROWS));
                None
            },
            Event::TermEvent(t) => match self.focus {
                Focus::Phrase => {
                    let ghost pt = PhraseEvent::TermEvent(t);
                    let e = self.phrase.handle(PhraseEvent::TermEvent(t));
                    let ghost typed = self.phrase.state();
                    let ghost ge = e;
                    assert(phrase_handled(before.phrase, typed, pt, ge));
                    match e {
                        Some(PhraseEffect::Enter { phrase }) => {
                            // What was typed is what is being looked through now, so the box
                            // stops being what has focus.
                            let e2 = self.phrase.handle(PhraseEvent::Unfocus);
                            assert(phrase_handled(typed, self.phrase.state(), PhraseEvent::Unfocus, e2));
                            self.focus = Focus::Chats;
                            if phrase.unicode_len() == 0 {
                                return None;
                            }
                            Some(
                                Effect::Request(
                                    Request::new(RequestParams::SearchChats { text: phrase, limit: CHAT_LIMIT }),
                                ),
                            )
                        },
                        Some(PhraseEffect::Quit) => Some(Effect::Quit),
                        Some(PhraseEffect::Bell) => Some(Effect::Bell),
                        _ => None,
                    }
                },
                Focus::Chats => match t {
                    TermEvent::KeyEvent(key) => {
                        match self.chats.handle(&key) {
                            Movement::Moved => {
                                return None;
                            },
                            Movement::Stuck => {
                                return Some(Effect::Bell);
                            },
                            Movement::Ignored => {},
                        }
                        let leave = (key.key == Key::Char('q') && key.mods.is_control()) || (key.key
                            == Key::Char('/') && key.mods.is_none());
                        let open = key.key == Key::CarriageReturn || (key.key == Key::Char('l')
                            && key.mods.is_none());
                        if leave {
                            let e = self.phrase.handle(PhraseEvent::Focus);
                            assert(phrase_handled(before.phrase, self.phrase.state(), PhraseEvent::Focus, e));
                            self.focus = Focus::Phrase;
                            None
                        } else if open {
                            match self.chats.selected() {
                                Some(entry) => Some(Effect::Open { id: entry.id }),
                                None => None,
                            }
                        } else {
                            None
                        }
                    },
                    _ => None,
                },
            },
        }
    }
}

} // verus!
