//! A box to say something to the inference engine in, outside of any chat, which shows what is
//! typed and what comes back.

use vstd::prelude::*;

use crate::keys::{Key, KeyEvent, Size, TermEvent, control_mods, no_mods};
use crate::requests::{Request, RequestParams, Response, ResponseParams};
use crate::ids::is_random_uuid;
use crate::text::{append, push_char};

verus! {

/// An event for the box.
pub enum Event {
    /// A response from the daemon.
    Response(Response),
    /// Something from the terminal.
    TermEvent(TermEvent),
}

/// What the box asks for.
pub enum Effect {
    /// Send a request.
    Request(Request),
    /// Ring the bell.
    Bell,
    /// Leave the box.
    Quit,
}

/// What can be done to the box.
pub enum Action {
    /// Type a character.
    Input(char),
    /// Say what has been typed.
    Enter,
    /// The box changed size.
    Resize {
        /// The new size.
        size: Size,
    },
    /// Take in a response.
    HandleResponse(Response),
    /// Ring the bell.
    Bell,
    /// Leave the box.
    Quit,
}

/// The action a key asks of the box: control and `q` leaves it, a plain character is typed,
/// enter says what was typed, and anything else rings the bell.
pub open spec fn key_action(key_event: KeyEvent) -> Action {
    if key_event.key == Key::Char('q') && key_event.mods == control_mods() {
        Action::Quit
    } else if key_event.mods == no_mods() && key_event.key is Char {
        Action::Input(key_event.key->Char_0)
    } else if key_event.mods == no_mods() && key_event.key == Key::CarriageReturn {
        Action::Enter
    } else {
        Action::Bell
    }
}

/// The action an event asks of the box, if any: a paste asks nothing, and so rings the bell.
pub open spec fn event_action(event: Event) -> Option<Action> {
    match event {
        Event::Response(response) => Some(Action::HandleResponse(response)),
        Event::TermEvent(TermEvent::Resize(size)) => Some(Action::Resize { size }),
        Event::TermEvent(TermEvent::KeyEvent(key_event)) => Some(key_action(key_event)),
        Event::TermEvent(TermEvent::Paste(_)) => None,
    }
}

/// What the box is seen as: what is shown, and the request whose answer is waited for.
pub struct StateView {
    /// What is shown.
    pub value: Seq<char>,
    /// The request whose answer is waited for, if any.
    pub pending: Option<u128>,
}

/// What performing an action does to the box, and what it gives back. Saying what was typed
/// asks the engine for an answer without waiting for it, so an answer is only taken in for a
/// request which is waited for.
pub open spec fn performed(before: StateView, after: StateView, action: Action, r: Option<Effect>) -> bool {
    match action {
        Action::Input(c) => r is None && after == StateView { value: before.value.push(c), ..before },
        Action::Enter => {
            &&& after == before
            &&& r matches Some(Effect::Request(request)) && request.params matches RequestParams::AIChat {
                input,
            } && input@ == before.value && is_random_uuid(request.uuid)
        },
        Action::HandleResponse(response) => r is None && if before.pending == Some(response.uuid) {
            match response.params {
                ResponseParams::AIChat { text } => after == StateView {
                    value: before.value + text@,
                    ..before
                },
                _ => after == before,
            }
        } else {
            after == before
        },
        Action::Resize { .. } => r is None && after == before,
        Action::Bell => r == Some(Effect::Bell) && after == before,
        Action::Quit => r == Some(Effect::Quit) && after == before,
    }
}

/// The state of the box.
pub struct State {
    /// What is shown.
    value: String,
    /// The request whose answer is waited for, if any.
    pending_request: Option<u128>,
}

impl State {
    /// What the box is seen as.
    pub closed spec fn view(&self) -> StateView {
        StateView { value: self.value@, pending: self.pending_request }
    }

    /// Return an empty box.
    pub fn new() -> (s: State)
        ensures
            s.view() == (StateView { value: Seq::empty(), pending: None }),
    {
        State { value: String::new(), pending_request: None }
    }

    /// Return what is shown.
    pub fn value(&self) -> (v: &str)
        ensures
            v@ == self.view().value,
    {
        self.value.as_str()
    }

    /// Perform an action.
    pub fn perform(&mut self, action: Action) -> (r: Option<Effect>)
        ensures
            performed(old(self).view(), final(self).view(), action, r),
    {
        match action {
            Action::Input(c) => {
                push_char(&mut self.value, c);
                None
            },
            Action::Enter => {
                let request = Request::new(RequestParams::AIChat { input: self.value.clone() });
                Some(Effect::Request(request))
            },
            Action::HandleResponse(response) => {
                if self.pending_request != Some(response.uuid) {
                    return None;
                }
                if let ResponseParams::AIChat { text } = response.params {
                    append(&mut self.value, text.as_str());
                }
                None
            },
            Action::Resize { .. } => None,
            Action::Bell => Some(Effect::Bell),
            Action::Quit => Some(Effect::Quit),
        }
    }
}

/// A box to say something to the inference engine in.
pub struct AI {
    /// The state of the box.
    state: State,
}

impl AI {
    /// What the box is seen as.
    pub closed spec fn view(&self) -> StateView {
        self.state.view()
    }

    /// Return an empty box.
    pub fn new() -> (a: AI)
        ensures
            a.view() == (StateView { value: Seq::empty(), pending: None }),
    {
        AI { state: State::new() }
    }

    /// Return the state of the box.
    pub fn state(&self) -> (s: &State)
        ensures
            s.view() == self.view(),
    {
        &self.state
    }

    /// Handle an event: what it asks is done, and an event which asks nothing rings the bell.
    pub fn handle(&mut self, event: Event) -> (r: Option<Effect>)
        ensures
            match event_action(event) {
                Some(action) => performed(old(self).view(), final(self).view(), action, r),
                None => r == Some(Effect::Bell) && final(self).view() == old(self).view(),
            },
    {
        let action = match event {
            Event::Response(response) => Action::HandleResponse(response),
            Event::TermEvent(TermEvent::Resize(size)) => Action::Resize { size },
            Event::TermEvent(TermEvent::KeyEvent(key_event)) => {
                if key_event.key == Key::Char('q') && key_event.mods.is_control() {
                    Action::Quit
                } else if key_event.mods.is_none() {
                    match key_event.key {
                        Key::Char(c) => Action::Input(c),
                        Key::CarriageReturn => Action::Enter,
                        _ => Action::Bell,
                    }
                } else {
                    Action::Bell
                }
            },
            Event::TermEvent(TermEvent::Paste(_)) => {
                return Some(Effect::Bell);
            },
        };
        self.state.perform(action)
    }
}

} // verus!
