//! A phrase which is typed in, such as what to find or search for, with a completion suggested
//! as it is typed.

use vstd::prelude::*;

use crate::ids::{fresh_id, is_random_uuid};
use crate::keys::{Key, KeyEvent, KeyMods, TermEvent, no_mods, shift_mods, control_mods};
use crate::text::{chars_of, push_char, pop_char, string_of_chars, has_prefix, starts_with, slice};

verus! {

/// The first line of some pasted text, the way `str::lines` gives it: everything before the
/// first line feed, without the carriage return which comes just before it if there is one.
/// Text with no line feed is a line by itself, carriage returns and all.
pub open spec fn first_line(text: Seq<char>) -> Seq<char>
    decreases text.len(),
{
    first_line_from(text, 0)
}

/// The first line of some text, looking for the line feed from an index on.
pub open spec fn first_line_from(text: Seq<char>, i: nat) -> Seq<char>
    decreases text.len() - i,
{
    if i >= text.len() {
        text
    } else if text[i as int] == '\n' {
        let line = text.take(i as int);
        if line.len() > 0 && line.last() == '\r' {
            line.drop_last()
        } else {
            line
        }
    } else {
        first_line_from(text, i + 1)
    }
}

/// The properties of a phrase.
pub struct Props {
    /// Whether completions should be requested for the phrase as it is typed.
    pub completable: bool,
    /// The phrase to start with.
    pub value: Option<String>,
}

/// A phrase event.
pub enum Event {
    /// The phrase is being typed in.
    Focus,
    /// The phrase is no longer being typed in.
    Unfocus,
    /// A terminal event.
    TermEvent(TermEvent),
    /// A completion arrived.
    Completion {
        /// The identifier of the request it answers.
        uuid: u128,
        /// The completion.
        completion: Option<String>,
    },
}

/// A phrase action.
pub enum Action {
    /// Start typing in the phrase.
    Focus,
    /// Stop typing in the phrase.
    Unfocus,
    /// Add a character to the end of the phrase.
    Push {
        /// The character to add.
        character: char,
    },
    /// Add pasted text to the end of the phrase.
    Paste {
        /// The pasted text.
        text: String,
    },
    /// Take the last character off the phrase.
    Pop,
    /// Take note of a completion.
    SetCompletion {
        /// The identifier of the request it answers.
        uuid: u128,
        /// The completion.
        completion: Option<String>,
    },
    /// Take the completion as the phrase.
    Complete,
    /// Enter the phrase.
    Enter,
    /// Quit.
    Quit,
}

/// A phrase effect.
#[derive(Debug, PartialEq, Eq)]
pub enum Effect {
    /// Ask for a completion for what has been typed in so far.
    RequestCompletion {
        /// The identifier to ask for it with.
        uuid: u128,
        /// What has been typed in so far.
        partial: String,
    },
    /// The phrase was entered.
    Enter {
        /// The phrase.
        phrase: String,
    },
    /// Ring the bell.
    Bell,
    /// Quit.
    Quit,
}

/// The state of a phrase.
pub struct State {
    /// What has been typed in.
    value: String,
    /// The completion.
    completion: Option<String>,
    /// Whether the phrase is being typed in.
    focus: bool,
    /// Whether completions should be requested for the phrase as it is typed.
    completable: bool,
    /// The pending request for a completion.
    pending_completion_request: Option<u128>,
}

impl State {
    /// What has been typed in.
    pub closed spec fn spec_value(&self) -> Seq<char> {
        self.value@
    }

    /// The completion, if there is one.
    pub closed spec fn spec_completion(&self) -> Option<Seq<char>> {
        match self.completion {
            Some(c) => Some(c@),
            None => None,
        }
    }

    /// Whether the phrase is being typed in.
    pub closed spec fn spec_focus(&self) -> bool {
        self.focus
    }

    /// Whether completions are requested.
    pub closed spec fn spec_completable(&self) -> bool {
        self.completable
    }

    /// The request for a completion which is waited for, if there is one.
    pub closed spec fn pending(&self) -> Option<u128> {
        self.pending_completion_request
    }

    /// Return a phrase which starts with a value and is being typed in.
    pub fn new(value: String, completable: bool) -> (s: State)
        ensures
            s.spec_value() == value@,
            s.spec_completion() is None,
            s.spec_focus(),
            s.spec_completable() == completable,
            s.pending() is None,
    {
        State { value, completion: None, focus: true, completable, pending_completion_request: None }
    }

    /// Return what has been typed in.
    pub fn value(&self) -> (v: &str)
        ensures
            v@ == self.spec_value(),
    {
        self.value.as_str()
    }

    /// Return the completion.
    pub fn completion(&self) -> (c: &Option<String>)
        ensures
            match *c {
                Some(s) => self.spec_completion() == Some(s@),
                None => self.spec_completion() is None,
            },
    {
        &self.completion
    }

    /// Return whether the phrase is being typed in.
    pub fn is_focused(&self) -> (f: bool)
        ensures
            f == self.spec_focus(),
    {
        self.focus
    }

    /// Start typing in the phrase.
    pub fn focus(&mut self) -> (r: Option<Effect>)
        ensures
            r is None,
            final(self).spec_focus(),
            final(self).spec_value() == old(self).spec_value(),
            final(self).spec_completion() == old(self).spec_completion(),
            final(self).spec_completable() == old(self).spec_completable(),
            final(self).pending() == old(self).pending(),
    {
        self.focus = true;
        None
    }

    /// Stop typing in the phrase.
    pub fn unfocus(&mut self) -> (r: Option<Effect>)
        ensures
            r is None,
            !final(self).spec_focus(),
            final(self).spec_value() == old(self).spec_value(),
            final(self).spec_completion() == old(self).spec_completion(),
            final(self).spec_completable() == old(self).spec_completable(),
            final(self).pending() == old(self).pending(),
    {
        self.focus = false;
        None
    }

    /// What asking for a completion does: when the phrase is completable, a request for what
    /// has been typed is made and waited for; otherwise nothing happens.
    pub open spec fn requested(before: State, after: State, r: Option<Effect>) -> bool {
        &&& after.spec_value() == before.spec_value()
        &&& after.spec_completion() == before.spec_completion()
        &&& after.spec_focus() == before.spec_focus()
        &&& after.spec_completable() == before.spec_completable()
        &&& if before.spec_completable() {
            r matches Some(Effect::RequestCompletion { uuid, partial }) && after.pending() == Some(
                uuid,
            ) && partial@ == before.spec_value() && is_random_uuid(uuid)
        } else {
            r is None && after.pending() == before.pending()
        }
    }

    /// If completable, request a completion for the current value.
    fn request_completion(&mut self) -> (r: Option<Effect>)
        ensures
            Self::requested(*old(self), *final(self), r),
    {
        if !self.completable {
            return None;
        }
        let uuid: u128 = fresh_id();
        self.pending_completion_request = Some(uuid);
        Some(Effect::RequestCompletion { uuid, partial: self.value.clone() })
    }

    /// The state with a different value and everything else as it was.
    pub open spec fn with_value(before: State, after: State, value: Seq<char>) -> bool {
        &&& after.spec_value() == value
        &&& after.spec_completion() == before.spec_completion()
        &&& after.spec_focus() == before.spec_focus()
        &&& after.spec_completable() == before.spec_completable()
        &&& after.pending() == before.pending()
    }

    /// Add a character to the end of the phrase.
    pub fn push(&mut self, character: char) -> (r: Option<Effect>)
        ensures
            exists|middle: State|
                Self::with_value(*old(self), middle, old(self).spec_value().push(character))
                    && #[trigger] Self::requested(middle, *final(self), r),
    {
        push_char(&mut self.value, character);
        let ghost middle = *self;
        let r = self.request_completion();
        assert(Self::requested(middle, *self, r));
        r
    }

    /// Append pasted text to the value.
    ///
    /// Only the first line of it is taken, because the value is a single line. The rest is
    /// dropped rather than run together with it or treated as an enter, either of which would
    /// do something surprising with a paste which spans lines.
    pub fn paste(&mut self, text: String) -> (r: Option<Effect>)
        ensures
            first_line(text@).len() == 0 ==> r == Some(Effect::Bell) && *final(self) == *old(self),
            first_line(text@).len() > 0 ==> exists|middle: State|
                Self::with_value(*old(self), middle, old(self).spec_value() + first_line(text@))
                    && #[trigger] Self::requested(middle, *final(self), r),
    {
        let line: String = first_line_of(&text);
        if line.as_str().unicode_len() == 0 {
            return Some(Effect::Bell);
        }
        self.value.append(line.as_str());
        let ghost middle = *self;
        let r = self.request_completion();
        assert(Self::requested(middle, *self, r));
        r
    }

    /// Take the last character off the phrase. Once there is nothing left, there is nothing to
    /// complete, so the completion and the request for one are forgotten.
    pub fn pop(&mut self) -> (r: Option<Effect>)
        ensures
            old(self).spec_value().len() <= 1 ==> {
                &&& r is None
                &&& final(self).spec_value().len() == 0
                &&& final(self).spec_completion() is None
                &&& final(self).pending() is None
                &&& final(self).spec_focus() == old(self).spec_focus()
                &&& final(self).spec_completable() == old(self).spec_completable()
            },
            old(self).spec_value().len() > 1 ==> exists|middle: State|
                Self::with_value(*old(self), middle, old(self).spec_value().drop_last())
                    && #[trigger] Self::requested(middle, *final(self), r),
    {
        pop_char(&mut self.value);
        if self.value.as_str().unicode_len() == 0 {
            self.completion = None;
            self.pending_completion_request = None;
            return None;
        }
        let ghost middle = *self;
        let r = self.request_completion();
        assert(Self::requested(middle, *self, r));
        r
    }

    /// Take note of a completion, if it answers the request which is waited for.
    pub fn set_completion(&mut self, uuid: u128, completion: Option<String>) -> (r: Option<Effect>)
        ensures
            r is None,
            old(self).pending() != Some(uuid) ==> *final(self) == *old(self),
            old(self).pending() == Some(uuid) ==> {
                &&& final(self).spec_completion() == match completion {
                    Some(c) => Some(c@),
                    None => None::<Seq<char>>,
                }
                &&& final(self).pending() is None
                &&& final(self).spec_value() == old(self).spec_value()
                &&& final(self).spec_focus() == old(self).spec_focus()
                &&& final(self).spec_completable() == old(self).spec_completable()
            },
    {
        if self.pending_completion_request != Some(uuid) {
            return None;
        }
        self.completion = completion;
        self.pending_completion_request = None;
        None
    }

    /// Take the completion as the phrase.
    pub fn complete(&mut self) -> (r: Option<Effect>)
        ensures
            r is None,
            old(self).spec_completion() is None ==> *final(self) == *old(self),
            old(self).spec_completion() matches Some(c) ==> {
                &&& final(self).spec_value() == c
                &&& final(self).spec_completion() is None
                &&& final(self).pending() == old(self).pending()
                &&& final(self).spec_focus() == old(self).spec_focus()
                &&& final(self).spec_completable() == old(self).spec_completable()
            },
    {
        let taken: Option<String> = match &self.completion {
            Some(completion) => Some(completion.clone()),
            None => None,
        };
        if let Some(completion) = taken {
            self.value = completion;
            self.completion = None;
        }
        None
    }

    /// Enter the phrase, which stops it from being typed in.
    pub fn find(&mut self) -> (r: Option<Effect>)
        ensures
            r matches Some(Effect::Enter { phrase }) && phrase@ == old(self).spec_value(),
            !final(self).spec_focus(),
            final(self).spec_value() == old(self).spec_value(),
            final(self).spec_completion() == old(self).spec_completion(),
            final(self).spec_completable() == old(self).spec_completable(),
            final(self).pending() == old(self).pending(),
    {
        self.focus = false;
        Some(Effect::Enter { phrase: self.value.clone() })
    }

    /// Quit.
    pub fn quit(&mut self) -> (r: Option<Effect>)
        ensures
            r == Some(Effect::Quit),
            *final(self) == *old(self),
    {
        Some(Effect::Quit)
    }

    /// What the completion adds to what has been typed, if the phrase is typed in and there is a
    /// completion which starts with what has been typed.
    pub open spec fn shown_rest(&self) -> Option<Seq<char>> {
        if self.spec_focus() {
            match self.spec_completion() {
                Some(c) => if starts_with(c, self.spec_value()) {
                    Some(c.skip(self.spec_value().len() as int))
                } else {
                    None
                },
                None => None,
            }
        } else {
            None
        }
    }

    /// What the completion adds to what has been typed, which is shown after it in gray while the
    /// phrase is typed in, when there is a completion which starts with what has been typed.
    pub fn completion_rest(&self) -> (rest: Option<String>)
        ensures
            match rest {
                Some(rest) => self.shown_rest() == Some(rest@),
                None => self.shown_rest() is None,
            },
    {
        if !self.focus {
            return None;
        }
        match &self.completion {
            Some(completion) => {
                if has_prefix(completion.as_str(), self.value.as_str()) {
                    let chars = chars_of(completion.as_str());
                    let start = self.value.as_str().unicode_len();
                    Some(string_of_chars(&slice(&chars, start, chars.len())))
                } else {
                    None
                }
            },
            None => None,
        }
    }
}

/// Return the first line of some pasted text, the way `str::lines` gives it.
pub fn first_line_of(text: &String) -> (line: String)
    ensures
        line@ == first_line(text@),
{
    let chars = chars_of(text.as_str());
    let mut i: usize = 0;
    while i < chars.len()
        invariant
            i <= chars.len(),
            chars@ == text@,
            first_line(text@) == first_line_from(text@, i as nat),
        decreases chars.len() - i,
    {
        if chars[i] == '\n' {
            let mut end = i;
            if end > 0 && chars[end - 1] == '\r' {
                end = end - 1;
            }
            let line = slice(&chars, 0, end);
            assert(line@ =~= first_line(text@));
            return string_of_chars(&line);
        }
        i = i + 1;
    }
    string_of_chars(&chars)
}

/// What performing an action does to the state of a phrase, and what it gives back.
pub open spec fn performed(before: State, after: State, action: Action, r: Option<Effect>) -> bool {
    match action {
        Action::Focus => r is None && after.spec_focus() && after.spec_value()
            == before.spec_value() && after.spec_completion() == before.spec_completion()
            && after.spec_completable() == before.spec_completable() && after.pending()
            == before.pending(),
        Action::Unfocus => r is None && !after.spec_focus() && after.spec_value()
            == before.spec_value() && after.spec_completion() == before.spec_completion()
            && after.spec_completable() == before.spec_completable() && after.pending()
            == before.pending(),
        Action::Push { character } => exists|middle: State|
            State::with_value(before, middle, before.spec_value().push(character))
                && #[trigger] State::requested(middle, after, r),
        Action::Paste { text } => if first_line(text@).len() == 0 {
            r == Some(Effect::Bell) && after == before
        } else {
            exists|middle: State|
                State::with_value(before, middle, before.spec_value() + first_line(text@))
                    && #[trigger] State::requested(middle, after, r)
        },
        Action::Pop => if before.spec_value().len() <= 1 {
            &&& r is None
            &&& after.spec_value().len() == 0
            &&& after.spec_completion() is None
            &&& after.pending() is None
            &&& after.spec_focus() == before.spec_focus()
            &&& after.spec_completable() == before.spec_completable()
        } else {
            exists|middle: State|
                State::with_value(before, middle, before.spec_value().drop_last())
                    && #[trigger] State::requested(middle, after, r)
        },
        Action::SetCompletion { uuid, completion } => r is None && if before.pending() != Some(
            uuid,
        ) {
            after == before
        } else {
            &&& after.spec_completion() == match completion {
                Some(c) => Some(c@),
                None => None::<Seq<char>>,
            }
            &&& after.pending() is None
            &&& after.spec_value() == before.spec_value()
            &&& after.spec_focus() == before.spec_focus()
            &&& after.spec_completable() == before.spec_completable()
        },
        Action::Complete => r is None && match before.spec_completion() {
            None => after == before,
            Some(c) => {
                &&& after.spec_value() == c
                &&& after.spec_completion() is None
                &&& after.pending() == before.pending()
                &&& after.spec_focus() == before.spec_focus()
                &&& after.spec_completable() == before.spec_completable()
            },
        },
        Action::Enter => {
            &&& r matches Some(Effect::Enter { phrase }) && phrase@ == before.spec_value()
            &&& !after.spec_focus()
            &&& after.spec_value() == before.spec_value()
            &&& after.spec_completion() == before.spec_completion()
            &&& after.spec_completable() == before.spec_completable()
            &&& after.pending() == before.pending()
        },
        Action::Quit => r == Some(Effect::Quit) && after == before,
    }
}

/// What handling an event does to a phrase: what the event asks of it is done, and an event
/// which asks nothing of it rings the bell.
pub open spec fn handled(before: State, after: State, event: Event, r: Option<Effect>) -> bool {
    match event {
        Event::Focus => performed(before, after, Action::Focus, r),
        Event::Unfocus => performed(before, after, Action::Unfocus, r),
        Event::TermEvent(term_event) => match term_action(term_event) {
            Some(action) => performed(before, after, action, r),
            None => r == Some(Effect::Bell) && after == before,
        },
        Event::Completion { uuid, completion } => performed(
            before,
            after,
            Action::SetCompletion { uuid, completion },
            r,
        ),
    }
}

/// A phrase.
pub struct Phrase {
    /// The state of the phrase.
    state: State,
}

/// The action a terminal event asks of a phrase, if any.
pub open spec fn term_action(event: TermEvent) -> Option<Action> {
    match event {
        TermEvent::KeyEvent(KeyEvent { key, mods }) => {
            if key == Key::Char('q') && mods == control_mods() {
                Some(Action::Quit)
            } else if key == Key::Backspace {
                Some(Action::Pop)
            } else if key == Key::HorizontalTab && mods == no_mods() {
                Some(Action::Complete)
            } else if key == Key::CarriageReturn {
                Some(Action::Enter)
            } else {
                match key {
                    Key::Char(character) => if mods == no_mods() || mods == shift_mods() {
                        Some(Action::Push { character })
                    } else {
                        None
                    },
                    _ => None,
                }
            }
        },
        TermEvent::Paste(text) => Some(Action::Paste { text }),
        TermEvent::Resize(_) => None,
    }
}

impl Phrase {
    /// The state of the phrase.
    pub closed spec fn state(&self) -> State {
        self.state
    }

    /// Return a phrase from its properties: it starts with the value given, or nothing, and is
    /// being typed in.
    pub fn new(props: Props) -> (p: Phrase)
        ensures
            p.state().spec_value() == match props.value {
                Some(v) => v@,
                None => Seq::<char>::empty(),
            },
            p.state().spec_completion() is None,
            p.state().spec_focus(),
            p.state().spec_completable() == props.completable,
            p.state().pending() is None,
    {
        let value = match props.value {
            Some(value) => value,
            None => String::new(),
        };
        Phrase { state: State::new(value, props.completable) }
    }

    /// Return the state of the phrase.
    pub fn current(&self) -> (s: &State)
        ensures
            *s == self.state(),
    {
        &self.state
    }

    /// Perform an action on the phrase.
    pub fn perform(&mut self, action: Action) -> (r: Option<Effect>)
        ensures
            performed(old(self).state(), final(self).state(), action, r),
    {
        match action {
            Action::Focus => self.state.focus(),
            Action::Unfocus => self.state.unfocus(),
            Action::Push { character } => self.state.push(character),
            Action::Paste { text } => self.state.paste(text),
            Action::Pop => self.state.pop(),
            Action::SetCompletion { uuid, completion } => self.state.set_completion(uuid, completion),
            Action::Complete => self.state.complete(),
            Action::Enter => self.state.find(),
            Action::Quit => self.state.quit(),
        }
    }

    /// Return the action a terminal event asks of a phrase, if any.
    pub fn term_action(event: TermEvent) -> (a: Option<Action>)
        ensures
            a == term_action(event),
    {
        match event {
            TermEvent::KeyEvent(KeyEvent { key, mods }) => {
                if key == Key::Char('q') && mods.is_control() {
                    Some(Action::Quit)
                } else if key == Key::Backspace {
                    Some(Action::Pop)
                } else if key == Key::HorizontalTab && mods.is_none() {
                    Some(Action::Complete)
                } else if key == Key::CarriageReturn {
                    Some(Action::Enter)
                } else {
                    match key {
                        Key::Char(character) => if mods.is_none() || mods.is_shift() {
                            Some(Action::Push { character })
                        } else {
                            None
                        },
                        _ => None,
                    }
                }
            },
            TermEvent::Paste(text) => Some(Action::Paste { text }),
            TermEvent::Resize(_) => None,
        }
    }

    /// Handle an event: what it asks of the phrase is done, and an event which asks nothing of
    /// it rings the bell.
    pub fn handle(&mut self, event: Event) -> (r: Option<Effect>)
        ensures
            handled(old(self).state(), final(self).state(), event, r),
    {
        let action: Option<Action> = match event {
            Event::Focus => Some(Action::Focus),
            Event::Unfocus => Some(Action::Unfocus),
            Event::TermEvent(term_event) => Self::term_action(term_event),
            Event::Completion { uuid, completion } => Some(Action::SetCompletion { uuid, completion }),
        };
        match action {
            Some(action) => self.perform(action),
            None => Some(Effect::Bell),
        }
    }
}

} // verus!

verus! {

/// A completion which does not answer the request waited for is ignored: it changes nothing.
pub proof fn lemma_a_stale_completion_is_ignored(
    before: State,
    after: State,
    uuid: u128,
    completion: Option<String>,
    r: Option<Effect>,
)
    requires
        before.pending() != Some(uuid),
        performed(before, after, Action::SetCompletion { uuid, completion }, r),
    ensures
        after == before,
        r is None,
{
}

/// Taking a character off what was just typed gives back what there was before it was typed.
pub proof fn lemma_pop_undoes_push(
    s0: State,
    s1: State,
    s2: State,
    character: char,
    r1: Option<Effect>,
    r2: Option<Effect>,
)
    requires
        performed(s0, s1, Action::Push { character }, r1),
        performed(s1, s2, Action::Pop, r2),
    ensures
        s2.spec_value() == s0.spec_value(),
        s2.spec_focus() == s0.spec_focus(),
        s2.spec_completable() == s0.spec_completable(),
{
    let middle = choose|middle: State|
        State::with_value(s0, middle, s0.spec_value().push(character))
            && #[trigger] State::requested(middle, s1, r1);
    assert(s1.spec_value() == s0.spec_value().push(character));
    if s1.spec_value().len() > 1 {
        let middle2 = choose|middle2: State|
            State::with_value(s1, middle2, s1.spec_value().drop_last())
                && #[trigger] State::requested(middle2, s2, r2);
        assert(s2.spec_value() =~= s0.spec_value());
    } else {
        assert(s2.spec_value() =~= s0.spec_value());
    }
}

/// A completion which answers the request waited for is what taking the completion makes the
/// phrase.
pub proof fn lemma_a_completion_can_be_taken(
    s0: State,
    s1: State,
    s2: State,
    uuid: u128,
    completion: String,
    r1: Option<Effect>,
    r2: Option<Effect>,
)
    requires
        s0.pending() == Some(uuid),
        performed(s0, s1, Action::SetCompletion { uuid, completion: Some(completion) }, r1),
        performed(s1, s2, Action::Complete, r2),
    ensures
        s2.spec_value() == completion@,
        s2.spec_completion() is None,
{
}

} // verus!
