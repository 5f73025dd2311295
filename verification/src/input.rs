//! The box which what to say in a chat is typed into.

use vstd::prelude::*;

use crate::keys::{Key, KeyEvent, KeyMods, TermEvent, no_mods, shift_mods, control_mods};
use crate::text::{chars_of, push_char, pop_char, slice, string_of_chars};

verus! {

/// Whether a character is white space, which is what Unicode gives the `White_Space` property,
/// as `char::is_whitespace` has it.
pub open spec fn is_white_space(c: char) -> bool {
    ||| '\t' <= c <= '\r'
    ||| c == ' '
    ||| c == '\u{85}'
    ||| c == '\u{a0}'
    ||| c == '\u{1680}'
    ||| '\u{2000}' <= c <= '\u{200a}'
    ||| c == '\u{2028}'
    ||| c == '\u{2029}'
    ||| c == '\u{202f}'
    ||| c == '\u{205f}'
    ||| c == '\u{3000}'
}

/// Return whether a character is white space.
pub fn white_space(c: char) -> (w: bool)
    ensures
        w == is_white_space(c),
{
    ('\t' <= c && c <= '\r') || c == ' ' || c == '\u{85}' || c == '\u{a0}' || c == '\u{1680}' || (
    '\u{2000}' <= c && c <= '\u{200a}') || c == '\u{2028}' || c == '\u{2029}' || c == '\u{202f}'
        || c == '\u{205f}' || c == '\u{3000}'
}

/// How many characters of white space some text starts with.
pub open spec fn leading_white_space(s: Seq<char>) -> nat
    decreases s.len(),
{
    if s.len() > 0 && is_white_space(s[0]) {
        1 + leading_white_space(s.drop_first())
    } else {
        0
    }
}

/// How many characters of white space some text ends with.
pub open spec fn trailing_white_space(s: Seq<char>) -> nat
    decreases s.len(),
{
    if s.len() > 0 && is_white_space(s.last()) {
        1 + trailing_white_space(s.drop_last())
    } else {
        0
    }
}

/// Some text without the white space at either end of it, as `str::trim` gives it.
pub open spec fn trimmed(s: Seq<char>) -> Seq<char> {
    let front = leading_white_space(s);
    let rest = s.skip(front as int);
    rest.take(rest.len() - trailing_white_space(rest))
}

/// The white space some text starts with runs up to its first other character.
pub proof fn lemma_leading(s: Seq<char>, i: int)
    requires
        0 <= i <= s.len(),
        forall|j: int| 0 <= j < i ==> is_white_space(#[trigger] s[j]),
        i == s.len() || !is_white_space(s[i]),
    ensures
        leading_white_space(s) == i,
    decreases i,
{
    if i > 0 {
        lemma_leading(s.drop_first(), i - 1);
    }
}

proof fn lemma_trailing(s: Seq<char>, i: int)
    requires
        0 <= i <= s.len(),
        forall|j: int| i <= j < s.len() ==> is_white_space(#[trigger] s[j]),
        i == 0 || !is_white_space(s[i - 1]),
    ensures
        trailing_white_space(s) == s.len() - i,
    decreases s.len() - i,
{
    if i < s.len() {
        lemma_trailing(s.drop_last(), i);
    }
}

/// Return some text without the white space at either end of it.
pub fn trim(s: &str) -> (t: String)
    ensures
        t@ == trimmed(s@),
{
    let chars = chars_of(s);
    let mut start: usize = 0;
    while start < chars.len() && white_space(chars[start])
        invariant
            start <= chars.len(),
            forall|j: int| 0 <= j < start ==> is_white_space(#[trigger] chars@[j]),
        decreases chars.len() - start,
    {
        start = start + 1;
    }
    proof {
        lemma_leading(chars@, start as int);
    }
    let rest = slice(&chars, start, chars.len());
    let mut end: usize = rest.len();
    while end > 0 && white_space(rest[end - 1])
        invariant
            end <= rest.len(),
            forall|j: int| end <= j < rest.len() ==> is_white_space(#[trigger] rest@[j]),
        decreases end,
    {
        end = end - 1;
    }
    proof {
        lemma_trailing(rest@, end as int);
        assert(rest@ =~= s@.skip(start as int));
    }
    string_of_chars(&slice(&rest, 0, end))
}

/// An input event.
pub enum Event {
    /// A terminal event.
    TermEvent(TermEvent),
    /// Throw away what is being typed.
    Clear,
}

/// An input effect.
#[derive(Debug, PartialEq, Eq)]
pub enum Effect {
    /// Stop typing.
    Unfocus,
    /// Say something.
    Send {
        /// What to say.
        message: String,
    },
    /// Ring the bell.
    Bell,
}

/// An input action.
#[derive(Debug, PartialEq, Eq)]
pub enum Action {
    /// Stop typing.
    Leave,
    /// Add a character to the end of what is being typed.
    Push {
        /// The character.
        character: char,
    },
    /// Take the last character off what is being typed.
    Pop,
    /// Add pasted text to the end of what is being typed.
    Paste {
        /// The text.
        text: String,
    },
    /// Throw away what is being typed.
    Clear,
    /// Say what has been typed.
    Send,
}

/// The action which a terminal event asks of the box, if any.
///
/// Enter sends, so a new line is put in with control and o. Shift and enter cannot be told apart
/// from enter on its own: a terminal sends the same byte for both unless it is asked to do
/// otherwise, and asking changes what the other keys send.
pub open spec fn term_action(event: TermEvent) -> Option<Action> {
    match event {
        TermEvent::Paste(text) => Some(Action::Paste { text }),
        TermEvent::KeyEvent(KeyEvent { key, mods }) => {
            if key == Key::Char('q') && mods == control_mods() {
                Some(Action::Leave)
            } else if key == Key::CarriageReturn && mods == no_mods() {
                Some(Action::Send)
            } else if key == Key::Char('o') && mods == control_mods() {
                Some(Action::Push { character: '\n' })
            } else if key == Key::Backspace {
                Some(Action::Pop)
            } else {
                match key {
                    Key::Char(character) => if mods == no_mods() || mods == shift_mods() {
                        Some(Action::Push { character })
                    } else {
                        None
                    },
                    _ => None,
                }
            }
        },
        TermEvent::Resize(_) => None,
    }
}

/// What handling an event does to what is being typed, and what it gives back: what the event
/// asks is done, and an event which asks nothing is let go.
pub open spec fn handled(before: Seq<char>, after: Seq<char>, event: Event, r: Option<Effect>) -> bool {
    match event {
        Event::Clear => performed(before, after, Action::Clear, r),
        Event::TermEvent(term_event) => match term_action(term_event) {
            Some(action) => performed(before, after, action, r),
            None => r is None && after == before,
        },
    }
}

/// The box which what to say is typed into.
pub struct Input {
    /// What is being typed.
    value: String,
}

/// What an action does to what is being typed, and what it gives back.
pub open spec fn performed(before: Seq<char>, after: Seq<char>, action: Action, r: Option<Effect>) -> bool {
    match action {
        Action::Leave => r == Some(Effect::Unfocus) && after == before,
        Action::Push { character } => r is None && after == before.push(character),
        // There is nothing left to remove, so say so rather than doing nothing.
        Action::Pop => if before.len() == 0 {
            r == Some(Effect::Bell) && after == before
        } else {
            r is None && after == before.drop_last()
        },
        Action::Paste { text } => r is None && after == before + text@,
        Action::Clear => r is None && after.len() == 0,
        Action::Send => if trimmed(before).len() == 0 {
            r == Some(Effect::Bell) && after == before
        } else {
            r matches Some(Effect::Send { message }) && message@ == trimmed(before) && after.len() == 0
        },
    }
}

impl Input {
    /// What is being typed.
    pub closed spec fn spec_value(&self) -> Seq<char> {
        self.value@
    }

    /// Return an empty box.
    pub fn new() -> (i: Input)
        ensures
            i.spec_value().len() == 0,
    {
        Input { value: String::new() }
    }

    /// Return a box with something typed in already, or an empty one.
    pub fn with_value(value: Option<String>) -> (i: Input)
        ensures
            i.spec_value() == match value {
                Some(v) => v@,
                None => Seq::<char>::empty(),
            },
    {
        match value {
            Some(v) => Input { value: v },
            None => Input { value: String::new() },
        }
    }

    /// Return what is being typed.
    pub fn value(&self) -> (v: &str)
        ensures
            v@ == self.spec_value(),
    {
        self.value.as_str()
    }

    /// Do an action.
    pub fn perform(&mut self, action: Action) -> (r: Option<Effect>)
        ensures
            performed(old(self).spec_value(), final(self).spec_value(), action, r),
    {
        match action {
            Action::Leave => Some(Effect::Unfocus),
            Action::Push { character } => {
                push_char(&mut self.value, character);
                None
            },
            Action::Pop => match pop_char(&mut self.value) {
                Some(_) => None,
                None => Some(Effect::Bell),
            },
            Action::Paste { text } => {
                self.value.append(text.as_str());
                None
            },
            Action::Clear => {
                self.value = String::new();
                None
            },
            Action::Send => {
                let message: String = trim(self.value.as_str());
                if message.as_str().unicode_len() == 0 {
                    return Some(Effect::Bell);
                }
                self.value = String::new();
                Some(Effect::Send { message })
            },
        }
    }

    /// Return the action a terminal event asks of the box, if any.
    pub fn term_action(event: TermEvent) -> (a: Option<Action>)
        ensures
            a == term_action(event),
    {
        match event {
            TermEvent::Paste(text) => Some(Action::Paste { text }),
            TermEvent::KeyEvent(KeyEvent { key, mods }) => {
                if key == Key::Char('q') && mods.is_control() {
                    Some(Action::Leave)
                } else if key == Key::CarriageReturn && mods.is_none() {
                    Some(Action::Send)
                } else if key == Key::Char('o') && mods.is_control() {
                    Some(Action::Push { character: '\n' })
                } else if key == Key::Backspace {
                    Some(Action::Pop)
                } else {
                    match key {
                        Key::Char(character) => if mods.is_none() || mods.is_shift() {
                            Some(Action::Push { character })
                        } else {
                            None
                        },
                        _ => None,
                    }
                }
            },
            TermEvent::Resize(_) => None,
        }
    }

    /// Handle an event. An event which asks nothing of the box is let go without a bell.
    pub fn handle(&mut self, event: Event) -> (r: Option<Effect>)
        ensures
            handled(old(self).spec_value(), final(self).spec_value(), event, r),
    {
        let action: Option<Action> = match event {
            Event::Clear => Some(Action::Clear),
            Event::TermEvent(term_event) => Self::term_action(term_event),
        };
        match action {
            Some(action) => self.perform(action),
            None => None,
        }
    }
}

} // verus!
