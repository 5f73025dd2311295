//! The directory bar: the directory which is shown, with the home directory as a tilde, which
//! can be typed in to go to another.

use vstd::prelude::*;

use crate::keys::TermEvent;
use crate::paths::{
    is_absolute, join, normalized, path_is_absolute, path_join, path_normalized,
    path_parent, path_strip_prefix, pop, strip_prefix,
};
use crate::phrase::{
    Effect as PhraseEffect, Event as PhraseEvent, Phrase, Props as PhraseProps, State as PhraseState,
    handled as phrase_handled,
};
use crate::text::{push_char, string_of};

verus! {

/// The character paths are separated with.
pub const PATH_SEPARATOR: char = '/';

/// The properties of the directory bar.
pub struct Props {
    /// The directory to show.
    pub dir: String,
    /// The home directory, which is shown as a tilde, if there is one.
    pub home: Option<String>,
}

/// A directory bar event.
pub enum Event {
    /// Show a different directory.
    SetDir {
        /// The directory.
        dir: String,
    },
    /// Show the directory above.
    PopDir,
    /// Start typing in the directory.
    Focus,
    /// Something from the terminal, with whether the path which what is being typed stands for
    /// is a directory, as it is on disk when the event comes; that is asked only when what is
    /// typed is entered.
    Term {
        /// What came from the terminal.
        event: TermEvent,
        /// Whether the path typed is that of a directory.
        directory: bool,
    },
    /// A completion arrived.
    Completion {
        /// The identifier of the request it answers.
        uuid: u128,
        /// The completion.
        completion: Option<String>,
    },
}

/// A directory bar effect.
#[derive(Debug, PartialEq, Eq)]
pub enum Effect {
    /// Ask for a completion of what has been typed, written out as a path.
    RequestCompletion {
        /// The identifier to ask with.
        uuid: u128,
        /// What has been typed, as a path.
        partial: String,
    },
    /// A directory was entered.
    Enter {
        /// The directory.
        dir: String,
    },
    /// The directory is no longer being typed in.
    Unfocus,
    /// Ring the bell.
    Bell,
}

/// How a path is shown: with the home directory as a tilde, and with a separator at the end.
pub open spec fn shown(path: Seq<char>, home: Option<Seq<char>>) -> Seq<char> {
    let base = match home {
        Some(h) => match path_strip_prefix(path, h) {
            Some(rest) => seq!['~', PATH_SEPARATOR] + rest,
            None => path,
        },
        None => path,
    };
    if base.len() > 0 && base.last() == PATH_SEPARATOR {
        base
    } else {
        base.push(PATH_SEPARATOR)
    }
}

/// The path which some text typed into the bar stands for: a tilde at its start, alone or
/// followed by a separator, is the home directory; a relative path is taken from the directory
/// shown; and the path is put back together from its components, which takes off a separator
/// at its end.
pub open spec fn resolved(text: Seq<char>, home: Option<Seq<char>>, dir: Seq<char>) -> Seq<char> {
    let path = match home {
        Some(h) => if text.len() > 0 && text[0] == '~' {
            let rest = text.drop_first();
            if rest.len() == 0 {
                h
            } else if rest[0] == PATH_SEPARATOR {
                path_join(h, rest.drop_first())
            } else {
                text
            }
        } else {
            text
        },
        None => text,
    };
    let path = if path_is_absolute(path) {
        path
    } else {
        path_join(dir, path)
    };
    path_normalized(path)
}

/// What the directory bar is seen as.
pub struct DirView {
    /// The directory shown.
    pub dir: Seq<char>,
    /// The home directory, if there is one.
    pub home: Option<Seq<char>>,
    /// What is being typed in, if the directory is being typed in.
    pub phrase: Option<PhraseState>,
}

/// What entering some text does to the directory bar, given whether the path it stands for is
/// a directory: a directory is gone to, and anything else rings the bell and is given back to
/// be fixed.
pub open spec fn entered(before: DirView, after: DirView, text: Seq<char>, directory: bool, r: Option<Effect>) -> bool {
    let path = resolved(text, before.home, before.dir);
    &&& after.home == before.home
    &&& if directory {
        &&& after.dir == path
        &&& after.phrase is None
        &&& r matches Some(Effect::Enter { dir }) && dir@ == path
    } else {
        &&& after.dir == before.dir
        &&& r == Some(Effect::Bell)
        &&& match before.phrase {
            Some(p) => after.phrase matches Some(q) && exists|e: Option<PhraseEffect>|
                #[trigger] phrase_handled(p, q, PhraseEvent::Focus, e),
            None => after.phrase is None,
        }
    }
}

/// What handling an event does to the directory bar, and what it gives back. What is entered
/// is gone to when it is a directory.
pub open spec fn handled(before: DirView, after: DirView, event: Event, r: Option<Effect>) -> bool {
    match event {
        Event::SetDir { dir } => r is None && after == DirView { dir: dir@, ..before },
        Event::PopDir => r is None && after == DirView {
            dir: match path_parent(before.dir) {
                Some(parent) => parent,
                None => before.dir,
            },
            ..before
        },
        Event::Focus => {
            &&& r is None
            &&& after.dir == before.dir
            &&& after.home == before.home
            &&& after.phrase matches Some(p) && p.spec_value() == shown(before.dir, before.home)
                && p.spec_completable() && p.spec_focus() && p.spec_completion() is None
                && p.pending() is None
        },
        Event::Term { event: t, directory } => match before.phrase {
            None => r == Some(Effect::Bell) && after == before,
            Some(p) => exists|q: PhraseState, e: Option<PhraseEffect>|
                #[trigger] phrase_handled(p, q, PhraseEvent::TermEvent(t), e) && {
                    let typed = DirView { phrase: Some(q), ..before };
                    match e {
                        Some(PhraseEffect::RequestCompletion { uuid, partial }) => {
                            &&& after == typed
                            &&& r matches Some(Effect::RequestCompletion { uuid: u, partial: p })
                                && u == uuid && p@ == resolved(partial@, before.home, before.dir)
                        },
                        Some(PhraseEffect::Enter { phrase }) => entered(typed, after, phrase@, directory, r),
                        Some(PhraseEffect::Quit) => r == Some(Effect::Unfocus) && after == DirView {
                            phrase: None,
                            ..before
                        },
                        Some(PhraseEffect::Bell) => r == Some(Effect::Bell) && after == typed,
                        None => r is None && after == typed,
                    }
                },
        },
        Event::Completion { uuid, completion } => r is None && match before.phrase {
            None => after == before,
            Some(p) => {
                let absolute = p.spec_value().len() > 0 && p.spec_value()[0] == PATH_SEPARATOR;
                &&& after.dir == before.dir
                &&& after.home == before.home
                &&& after.phrase matches Some(q) && exists|c: Option<String>, e: Option<PhraseEffect>|
                    #[trigger] phrase_handled(p, q, PhraseEvent::Completion { uuid, completion: c }, e)
                        && match (completion, c) {
                        (Some(full), Some(given)) => given@ == if absolute {
                            full@
                        } else {
                            shown(full@, before.home)
                        },
                        (None, None) => true,
                        _ => false,
                    }
            },
        },
    }
}

/// The directory bar.
pub struct Dir {
    /// The directory shown.
    dir: String,
    /// The home directory, if there is one.
    home: Option<String>,
    /// What is being typed in, if the directory is being typed in.
    phrase: Option<Phrase>,
}

/// The view of some text which may not be there.
pub open spec fn opt_view(s: Option<String>) -> Option<Seq<char>> {
    match s {
        Some(s) => Some(s@),
        None => None,
    }
}

/// Return a path as it is shown, with the home directory as a tilde and a separator at the end.
pub fn show(path: &str, home: &Option<String>) -> (s: String)
    ensures
        s@ == shown(path@, opt_view(*home)),
{
    let mut base: String = match home {
        Some(h) => match strip_prefix(path, h.as_str()) {
            Some(rest) => {
                let mut s = String::new();
                push_char(&mut s, '~');
                push_char(&mut s, PATH_SEPARATOR);
                s.append(rest.as_str());
                assert(s@ =~= seq!['~', PATH_SEPARATOR] + rest@);
                s
            },
            None => string_of(path),
        },
        None => string_of(path),
    };
    let n = base.unicode_len();
    if n > 0 && base.get_char(n - 1) == PATH_SEPARATOR {
        base
    } else {
        push_char(&mut base, PATH_SEPARATOR);
        base
    }
}

/// Return the path which some text typed into the bar stands for.
pub fn resolve(text: &str, home: &Option<String>, dir: &str) -> (p: String)
    ensures
        p@ == resolved(text@, opt_view(*home), dir@),
{
    let n = text.unicode_len();
    let path: String = match home {
        Some(h) => if n > 0 && text.get_char(0) == '~' {
            if n == 1 {
                h.clone()
            } else if text.get_char(1) == PATH_SEPARATOR {
                let rest = text.substring_char(2, n);
                assert(rest@ =~= text@.drop_first().drop_first());
                join(h.as_str(), rest)
            } else {
                string_of(text)
            }
        } else {
            string_of(text)
        },
        None => string_of(text),
    };
    let path = if is_absolute(path.as_str()) {
        path
    } else {
        join(dir, path.as_str())
    };
    normalized(path.as_str())
}

impl Dir {
    /// What the directory bar is seen as.
    pub closed spec fn view(&self) -> DirView {
        DirView {
            dir: self.dir@,
            home: opt_view(self.home),
            phrase: match self.phrase {
                Some(p) => Some(p.state()),
                None => None,
            },
        }
    }

    /// Return a directory bar showing a directory, which is not being typed in.
    pub fn new(props: Props) -> (d: Dir)
        ensures
            d.view() == (DirView { dir: props.dir@, home: opt_view(props.home), phrase: None }),
    {
        Dir { dir: props.dir, home: props.home, phrase: None }
    }

    /// Return the directory shown.
    pub fn dir(&self) -> (d: &String)
        ensures
            d@ == self.view().dir,
    {
        &self.dir
    }

    /// Return what is being typed in, if the directory is being typed in.
    pub fn phrase(&self) -> (p: &Option<Phrase>)
        ensures
            match *p {
                Some(p) => self.view().phrase == Some(p.state()),
                None => self.view().phrase is None,
            },
    {
        &self.phrase
    }

    /// Return the path which what is being typed stands for, if the directory is being typed
    /// in: the path which entering it goes to, when that is a directory.
    pub fn typed_path(&self) -> (p: Option<String>)
        ensures
            match self.view().phrase {
                Some(q) => p matches Some(p) && p@ == resolved(q.spec_value(), self.view().home, self.view().dir),
                None => p is None,
            },
    {
        match &self.phrase {
            Some(phrase) => Some(resolve(phrase.current().value(), &self.home, self.dir.as_str())),
            None => None,
        }
    }

    /// Return the directory as it is shown.
    pub fn dir_string(&self) -> (s: String)
        ensures
            s@ == shown(self.view().dir, self.view().home),
    {
        show(self.dir.as_str(), &self.home)
    }

    /// Hand an event to what is being typed in, if the directory is being typed in, and give
    /// back what it did.
    fn phrase_handle(&mut self, event: PhraseEvent) -> (r: Option<Option<PhraseEffect>>)
        ensures
            final(self).view().dir == old(self).view().dir,
            final(self).view().home == old(self).view().home,
            match old(self).view().phrase {
                None => r is None && final(self).view().phrase is None,
                Some(p) => r matches Some(e) && final(self).view().phrase matches Some(q)
                    && phrase_handled(p, q, event, e),
            },
    {
        let mut taken: Option<Phrase> = None;
        std::mem::swap(&mut taken, &mut self.phrase);
        match taken {
            Some(mut phrase) => {
                let e = phrase.handle(event);
                self.phrase = Some(phrase);
                Some(e)
            },
            None => None,
        }
    }

    /// Take in some text which was entered, given whether the path it stands for is a
    /// directory.
    pub fn enter(&mut self, text: String, directory: bool) -> (r: Option<Effect>)
        ensures
            entered(old(self).view(), final(self).view(), text@, directory, r),
    {
        let path = resolve(text.as_str(), &self.home, self.dir.as_str());
        if !directory {
            // Entering the text stops it from being typed in, so it is given back for the path
            // which is not a directory to be fixed.
            self.phrase_handle(PhraseEvent::Focus);
            return Some(Effect::Bell);
        }
        self.phrase = None;
        self.dir = path.clone();
        Some(Effect::Enter { dir: path })
    }

    /// Handle an event.
    pub fn handle(&mut self, event: Event) -> (r: Option<Effect>)
        ensures
            handled(old(self).view(), final(self).view(), event, r),
    {
        match event {
            Event::SetDir { dir } => {
                self.dir = dir;
                None
            },
            Event::PopDir => {
                pop(&mut self.dir);
                None
            },
            Event::Focus => {
                let value = self.dir_string();
                self.phrase = Some(Phrase::new(PhraseProps { completable: true, value: Some(value) }));
                None
            },
            Event::Term { event: t, directory } => {
                let ghost before = self.view();
                let ghost pt = PhraseEvent::TermEvent(t);
                let effect = match self.phrase_handle(PhraseEvent::TermEvent(t)) {
                    Some(effect) => effect,
                    None => {
                        return Some(Effect::Bell);
                    },
                };
                let ghost typed = self.view();
                let ghost e = effect;
                assert(phrase_handled(before.phrase.unwrap(), typed.phrase.unwrap(), pt, e));
                match effect {
                    Some(PhraseEffect::RequestCompletion { uuid, partial }) => {
                        let partial = resolve(partial.as_str(), &self.home, self.dir.as_str());
                        Some(Effect::RequestCompletion { uuid, partial })
                    },
                    Some(PhraseEffect::Enter { phrase }) => {
                        let r = self.enter(phrase, directory);
                        assert(entered(typed, self.view(), phrase@, directory, r));
                        r
                    },
                    Some(PhraseEffect::Quit) => {
                        self.phrase = None;
                        Some(Effect::Unfocus)
                    },
                    Some(PhraseEffect::Bell) => Some(Effect::Bell),
                    None => None,
                }
            },
            Event::Completion { uuid, completion } => {
                // Suggestions come back as absolute paths, but they are shown the way the path is
                // being typed: one typed out in full is left as it is, and every other one gets
                // the tilde, so that what is past what was typed lines up with it.
                let absolute: bool = match &self.phrase {
                    Some(phrase) => {
                        let value = phrase.current().value();
                        value.unicode_len() > 0 && value.get_char(0) == PATH_SEPARATOR
                    },
                    None => {
                        return None;
                    },
                };
                let completion: Option<String> = match completion {
                    Some(full) => if absolute {
                        Some(full)
                    } else {
                        Some(show(full.as_str(), &self.home))
                    },
                    None => None,
                };
                self.phrase_handle(PhraseEvent::Completion { uuid, completion });
                None
            },
        }
    }
}

} // verus!
