//! The chat: what has been said with an inference engine, above the box what to say is typed
//! into.
//!
//! How many rows the box needs and how many lines what has been said takes up depend on how
//! wide each character is drawn, which is worked out where the chat is drawn; they are handed
//! in with the events that need them.

use vstd::prelude::*;

use crate::finder_contents::{seconds_text, seconds_string};
use crate::ids::is_random_uuid;
use crate::input::{Effect as InputEffect, Event as InputEvent, Input, handled as input_handled};
use crate::keys::{Key, KeyEvent, Size, TermEvent, control_mods};
use crate::requests::{Request, RequestParams, Response, ResponseParams};
use crate::text::{decimal, decimal_string, push_char, string_of};
use crate::transcript::{
    Action as TranscriptAction, Effect as TranscriptEffect, State as Transcript, StateView as TranscriptView,
    max_offset, performed as transcript_performed, spec_max_offset,
};

verus! {

/// The most of the room which what is being typed is allowed to take, as the part of it.
pub const MAX_INPUT_SHARE: usize = 2;

/// How many words there are for an engine which is thinking before it answers.
pub const THINKING_WORD_COUNT: u128 = 12;

/// The word for an engine which is thinking before it answers, by its number.
pub open spec fn thinking_word(i: int) -> Seq<char> {
    if i == 0 { "Cogitating"@ }
    else if i == 1 { "Pondering"@ }
    else if i == 2 { "Ruminating"@ }
    else if i == 3 { "Musing"@ }
    else if i == 4 { "Deliberating"@ }
    else if i == 5 { "Percolating"@ }
    else if i == 6 { "Mulling"@ }
    else if i == 7 { "Noodling"@ }
    else if i == 8 { "Puzzling"@ }
    else if i == 9 { "Chewing"@ }
    else if i == 10 { "Brooding"@ }
    else { "Reckoning"@ }
}

/// Return the word for an engine which is thinking before it answers, by its number.
pub fn thinking_word_of(i: u128) -> (w: String)
    ensures
        w@ == thinking_word(i as int),
{
    let w = if i == 0 { "Cogitating" }
    else if i == 1 { "Pondering" }
    else if i == 2 { "Ruminating" }
    else if i == 3 { "Musing" }
    else if i == 4 { "Deliberating" }
    else if i == 5 { "Percolating" }
    else if i == 6 { "Mulling" }
    else if i == 7 { "Noodling" }
    else if i == 8 { "Puzzling" }
    else if i == 9 { "Chewing" }
    else if i == 10 { "Brooding" }
    else { "Reckoning" };
    proof {
        reveal_strlit("Cogitating");
        reveal_strlit("Pondering");
        reveal_strlit("Ruminating");
        reveal_strlit("Musing");
        reveal_strlit("Deliberating");
        reveal_strlit("Percolating");
        reveal_strlit("Mulling");
        reveal_strlit("Noodling");
        reveal_strlit("Puzzling");
        reveal_strlit("Chewing");
        reveal_strlit("Brooding");
        reveal_strlit("Reckoning");
    }
    string_of(w)
}

/// The properties of the chat.
pub struct Props {
    /// The directory the chat is about.
    pub dir: String,
    /// The size of the chat.
    pub size: Size,
    /// What to say to start with, which is typed in already.
    pub prompt: Option<String>,
}

/// A chat event.
pub enum Event {
    /// A response from the daemon.
    Response(Response),
    /// The chat was resized, with how many rows what is being typed needs at the new width.
    Resize {
        /// The new size.
        size: Size,
        /// How many rows what is being typed needs at the new width.
        input_rows: usize,
    },
    /// Something from the terminal, with how many rows what is being typed needs and how many
    /// lines what has been said takes up, both at the width of the chat.
    Term {
        /// What the terminal reported.
        event: TermEvent,
        /// How many rows what is being typed needs.
        input_rows: usize,
        /// How many lines what has been said takes up.
        transcript_lines: usize,
    },
}

/// A chat effect.
pub enum Effect {
    /// Make a request.
    Request(Request),
    /// Show the past chats.
    OpenHistory,
    /// Leave the chat.
    Quit,
    /// Ring the bell.
    Bell,
}

/// How much room what has been said gets out of the whole of the chat: everything but the
/// footer and the box what to say is typed into, which takes as many rows as it needs, but at
/// least one and no more than its share.
pub open spec fn transcript_size(size: Size, input_rows: usize) -> Size {
    if size.rows <= 1 {
        Size { rows: 0, columns: size.columns }
    } else {
        let body = size.rows - 1;
        let most = if body / (MAX_INPUT_SHARE as int) > 1 { body / (MAX_INPUT_SHARE as int) } else { 1 };
        let most = if most < body { most } else { body };
        let rows = if input_rows < 1 { 1 } else if input_rows > most { most } else { input_rows as int };
        Size { rows: (body - rows) as usize, columns: size.columns }
    }
}

/// Return how much room what has been said gets out of the whole of the chat.
pub fn transcript_size_of(size: Size, input_rows: usize) -> (s: Size)
    ensures
        s == transcript_size(size, input_rows),
{
    if size.rows <= 1 {
        return Size::new(0, size.columns);
    }
    let body: usize = size.rows - 1;
    let most: usize = if body / MAX_INPUT_SHARE > 1 { body / MAX_INPUT_SHARE } else { 1 };
    let most: usize = if most < body { most } else { body };
    let rows: usize = if input_rows < 1 { 1 } else if input_rows > most { most } else { input_rows };
    Size::new(body - rows, size.columns)
}

/// What the state of a chat is seen as.
pub struct ChatStateView {
    /// The directory the chat is about.
    pub dir: Seq<char>,
    /// The size of the chat.
    pub size: Size,
    /// Whether there is an inference engine to talk to, once it is known.
    pub configured: Option<bool>,
    /// Which chat is being had, once there is one.
    pub chat_id: Option<i64>,
    /// The request whose reply is being waited for.
    pub pending: Option<u128>,
    /// Whether anything has been replied yet.
    pub replied: bool,
    /// How many tokens the reply came to, once the engine has said.
    pub tokens: Option<usize>,
    /// How many of them were the engine thinking.
    pub thinking_tokens: Option<usize>,
    /// Whether the engine is thinking rather than answering.
    pub thinking: bool,
    /// The number of the word for the thinking of the reply waited for.
    pub thinking_word: u128,
    /// How long the reply took, or has been taking, in nanoseconds.
    pub duration: u128,
}

impl ChatStateView {
    /// The state with how the last reply came along forgotten.
    pub open spec fn forgotten(self) -> ChatStateView {
        ChatStateView {
            replied: false,
            tokens: None,
            thinking_tokens: None,
            thinking: false,
            duration: 0,
            ..self
        }
    }
}

/// What the chat is seen as.
pub struct ChatView {
    /// The state of the chat.
    pub state: ChatStateView,
    /// What has been said.
    pub transcript: TranscriptView,
    /// What is being typed.
    pub input: Seq<char>,
}

/// A reply to a request which was replaced says nothing about the one waited for.
pub open spec fn replying(
    s: ChatStateView,
    uuid: u128,
    tokens: Option<usize>,
    thinking_tokens: Option<usize>,
    thinking: bool,
    duration: u128,
) -> ChatStateView {
    if s.pending != Some(uuid) {
        s
    } else {
        ChatStateView {
            tokens: if tokens is Some { tokens } else { s.tokens },
            thinking_tokens: if tokens is Some { thinking_tokens } else { s.thinking_tokens },
            thinking,
            duration,
            ..s
        }
    }
}

/// A reply which finished: the chat it was in is the one the next thing said goes in, unless it
/// never got as far as a chat.
pub open spec fn replied(s: ChatStateView, uuid: u128, chat_id: Option<i64>) -> ChatStateView {
    if s.pending == Some(uuid) {
        ChatStateView {
            pending: None,
            chat_id: if chat_id is Some { chat_id } else { s.chat_id },
            ..s
        }
    } else {
        s
    }
}

/// What handling a response does to the chat: whether there is an engine is noted, a past chat
/// which was asked for is shown, and a piece of a reply is added to what was said, with how it is
/// coming along noted.
pub open spec fn responded(before: ChatView, after: ChatView, response: Response, r: Option<Effect>) -> bool {
    let uuid = response.uuid;
    &&& r is None
    &&& after.input == before.input
    &&& match response.params {
        ResponseParams::AiStatus { configured } => after == ChatView {
            state: ChatStateView { configured: Some(configured), ..before.state },
            ..before
        },
        ResponseParams::GetChat { messages, error } => after.state == before.state && exists|
            e: Option<TranscriptEffect>,
        |
            #[trigger] transcript_performed(
                before.transcript,
                after.transcript,
                TranscriptAction::Show { messages, error },
                e,
            ),
        ResponseParams::Chat {
            chat_id,
            delta,
            error,
            tokens,
            thinking_tokens,
            thinking,
            duration,
        } => {
            let s = replying(before.state, uuid, tokens, thinking_tokens, thinking, duration);
            &&& after.state == if response.last {
                replied(s, uuid, chat_id)
            } else {
                s
            }
            &&& exists|t1: TranscriptView, t2: TranscriptView, e1: Option<TranscriptEffect>, e2: Option<TranscriptEffect>, w: Option<String>|
                #[trigger] transcript_performed(before.transcript, t1, TranscriptAction::Delta { uuid, text: delta, error }, e1)
                    && #[trigger] transcript_performed(t1, t2, TranscriptAction::Thinking { uuid, word: w }, e2)
                    && match w {
                    Some(word) => thinking && word@ == thinking_word(s.thinking_word as int),
                    None => !thinking,
                } && if response.last {
                    exists|e3: Option<TranscriptEffect>|
                        #[trigger] transcript_performed(t2, after.transcript, TranscriptAction::Ended { uuid }, e3)
                } else {
                    after.transcript == t2
                }
        },
        _ => after == before,
    }
}

/// The key which opens the past chats.
pub open spec fn history_key() -> KeyEvent {
    KeyEvent { key: Key::Char('h'), mods: control_mods() }
}

/// The key which starts a new chat.
pub open spec fn new_key() -> KeyEvent {
    KeyEvent { key: Key::Char('n'), mods: control_mods() }
}

/// The key which reads back through what was said.
pub open spec fn back_key() -> KeyEvent {
    KeyEvent { key: Key::Char('y'), mods: control_mods() }
}

/// The key which reads forward through what was said.
pub open spec fn forward_key() -> KeyEvent {
    KeyEvent { key: Key::Char('e'), mods: control_mods() }
}

/// Whether a chat is a new one: nothing said and nothing typed, with no chat being had and how
/// the last reply came along forgotten.
pub open spec fn started_new(before: ChatView, after: ChatView) -> bool {
    &&& after.input.len() == 0
    &&& after.state == ChatStateView { chat_id: None, pending: None, ..before.state.forgotten() }
    &&& after.transcript == TranscriptView {
        messages: Seq::empty(),
        pending: None,
        error: None,
        thinking: None,
        offset: 0,
        ..before.transcript
    }
}

/// What the transcript is asked to do to read back or forward through what was said, given how
/// many lines it has and the room it gets.
pub open spec fn scroll_action(back: bool, transcript_lines: usize, size: Size) -> TranscriptAction {
    if back {
        TranscriptAction::Up { max: spec_max_offset(transcript_lines as nat, size) as usize }
    } else {
        TranscriptAction::Down
    }
}

/// What reading back or forward through what was said does: the transcript is told the room it
/// gets, which the box has been taking rows from as it was typed in, and is scrolled as far as
/// that allows.
pub open spec fn scrolled(before: ChatView, after: ChatView, back: bool, input_rows: usize, transcript_lines: usize, r: Option<Effect>) -> bool {
    let size = transcript_size(before.state.size, input_rows);
    let action = scroll_action(back, transcript_lines, size);
    &&& after.state == before.state
    &&& after.input == before.input
    &&& exists|t: TranscriptView, e1: Option<TranscriptEffect>, e2: Option<TranscriptEffect>|
        #[trigger] transcript_performed(before.transcript, t, TranscriptAction::Resize { size }, e1)
            && #[trigger] transcript_performed(
            t,
            after.transcript,
            action,
            e2,
        ) && r == match e2 {
            Some(TranscriptEffect::Bell) => Some(Effect::Bell),
            None => None,
        }
}

/// What is done with what the box asked for: what was typed is said, and the reply to it is
/// waited for in the transcript; leaving the box leaves the chat.
pub open spec fn input_did(before: ChatView, after: ChatView, effect: Option<InputEffect>, r: Option<Effect>) -> bool {
    match effect {
        Some(InputEffect::Send { message }) => {
            &&& after.input == before.input
            &&& match r {
                Some(Effect::Request(request)) => {
                    &&& is_random_uuid(request.uuid)
                    &&& request.params matches RequestParams::Chat { chat_id, dir, message: m }
                        && chat_id == before.state.chat_id && dir@ == before.state.dir && m@ == message@
                    &&& after.state == ChatStateView {
                        pending: Some(request.uuid),
                        replied: true,
                        tokens: None,
                        thinking_tokens: None,
                        thinking: false,
                        duration: 0,
                        thinking_word: request.uuid % THINKING_WORD_COUNT,
                        ..before.state
                    }
                    &&& exists|t: TranscriptView, e1: Option<TranscriptEffect>, e2: Option<TranscriptEffect>|
                        #[trigger] transcript_performed(before.transcript, t, TranscriptAction::Said { message }, e1)
                            && #[trigger] transcript_performed(
                            t,
                            after.transcript,
                            TranscriptAction::Expect { uuid: request.uuid },
                            e2,
                        )
                },
                _ => false,
            }
        },
        Some(InputEffect::Unfocus) => r == Some(Effect::Quit) && after == before,
        Some(InputEffect::Bell) => r == Some(Effect::Bell) && after == before,
        None => r is None && after == before,
    }
}

/// What handling an event does to the chat, and what it gives back.
///
/// Going to the past chats, starting a new chat, and reading back and forward through what was
/// said work whatever is being typed; anything else typed goes to the box.
pub open spec fn handled(before: ChatView, after: ChatView, event: Event, r: Option<Effect>) -> bool {
    match event {
        Event::Response(response) => responded(before, after, response, r),
        Event::Resize { size, input_rows } => {
            &&& r is None
            &&& after.input == before.input
            &&& after.state == ChatStateView { size, ..before.state }
            &&& exists|e: Option<TranscriptEffect>|
                #[trigger] transcript_performed(
                    before.transcript,
                    after.transcript,
                    TranscriptAction::Resize { size: transcript_size(size, input_rows) },
                    e,
                )
        },
        Event::Term { event, input_rows, transcript_lines } => if event == TermEvent::KeyEvent(
            history_key(),
        ) {
            r == Some(Effect::OpenHistory) && after == before
        } else if event == TermEvent::KeyEvent(new_key()) {
            r is None && started_new(before, after)
        } else if event == TermEvent::KeyEvent(back_key()) {
            scrolled(before, after, true, input_rows, transcript_lines, r)
        } else if event == TermEvent::KeyEvent(forward_key()) {
            scrolled(before, after, false, input_rows, transcript_lines, r)
        } else {
            exists|e: Option<InputEffect>, typed: Seq<char>|
                #[trigger] input_handled(before.input, typed, InputEvent::TermEvent(event), e)
                    && input_did(ChatView { input: typed, ..before }, after, e, r)
        },
    }
}

/// How a reply came along, as the footer says it: how many tokens it came to (and how many of
/// them were thinking) once the engine has said, then how long it took in seconds; nothing
/// before anything was said.
pub open spec fn footer_text(s: ChatStateView) -> Seq<char> {
    if !s.replied {
        Seq::empty()
    } else {
        let tokens = match s.tokens {
            None => Seq::empty(),
            Some(t) => decimal(t as nat) + " token"@ + (if t == 1 { Seq::empty() } else { seq!['s'] })
                + match s.thinking_tokens {
                Some(thought) if thought > 0 => " | "@ + decimal(thought as nat) + " thinking"@,
                _ => Seq::empty(),
            } + seq![' '],
        };
        tokens + seq!['('] + seconds_text(s.duration as nat) + "s)"@
    }
}

/// Whether a chat is as it starts for some properties: nothing has been said, the prompt is
/// typed in already, and what has been said gets the room the box leaves it.
pub open spec fn started(v: ChatView, props: Props, input_rows: usize) -> bool {
    &&& v.state == (ChatStateView {
        dir: props.dir@,
        size: props.size,
        configured: None,
        chat_id: None,
        pending: None,
        replied: false,
        tokens: None,
        thinking_tokens: None,
        thinking: false,
        thinking_word: 0,
        duration: 0,
    })
    &&& v.input == match props.prompt {
        Some(p) => p@,
        None => Seq::<char>::empty(),
    }
    &&& v.transcript == (TranscriptView {
        messages: Seq::empty(),
        pending: None,
        error: None,
        thinking: None,
        offset: 0,
        size: transcript_size(props.size, input_rows),
    })
}

/// A chat with an inference engine.
pub struct Chat {
    /// The directory the chat is about.
    dir: String,
    /// The size of the chat.
    size: Size,
    /// Whether there is an inference engine to talk to, once it is known.
    configured: Option<bool>,
    /// Which chat is being had, once there is one.
    chat_id: Option<i64>,
    /// The request whose reply is being waited for.
    pending_request: Option<u128>,
    /// Whether anything has been replied yet.
    replied: bool,
    /// How many tokens the reply came to, once the engine has said.
    tokens: Option<usize>,
    /// How many of them were the engine thinking.
    thinking_tokens: Option<usize>,
    /// Whether the engine is thinking rather than answering.
    thinking: bool,
    /// The number of the word for the thinking of the reply waited for.
    thinking_word: u128,
    /// How long the reply took, or has been taking, in nanoseconds.
    duration: u128,
    /// What has been said.
    transcript: Transcript,
    /// The box what to say is typed into.
    input: Input,
}

impl Chat {
    /// What the chat is seen as.
    pub closed spec fn view(&self) -> ChatView {
        ChatView {
            state: ChatStateView {
                dir: self.dir@,
                size: self.size,
                configured: self.configured,
                chat_id: self.chat_id,
                pending: self.pending_request,
                replied: self.replied,
                tokens: self.tokens,
                thinking_tokens: self.thinking_tokens,
                thinking: self.thinking,
                thinking_word: self.thinking_word,
                duration: self.duration,
            },
            transcript: self.transcript.spec_view(),
            input: self.input.spec_value(),
        }
    }

    /// Return a chat which has just been opened, with the prompt typed in already, given how
    /// many rows that needs at the width of the chat.
    pub fn new(props: Props, input_rows: usize) -> (c: Chat)
        ensures
            started(c.view(), props, input_rows),
    {
        let mut transcript = Transcript::new();
        transcript.perform(TranscriptAction::Resize { size: transcript_size_of(props.size, input_rows) });
        Chat {
            dir: props.dir,
            size: props.size,
            configured: None,
            chat_id: None,
            pending_request: None,
            replied: false,
            tokens: None,
            thinking_tokens: None,
            thinking: false,
            thinking_word: 0,
            duration: 0,
            transcript,
            input: Input::with_value(props.prompt),
        }
    }

    /// Return the name of the chat, which its footer shows.
    pub fn name(&self) -> (n: String)
        ensures
            n@ == "inshie"@,
    {
        let n = String::from_str("inshie");
        proof {
            reveal_strlit("inshie");
        }
        n
    }

    /// Return what has been said.
    pub fn transcript(&self) -> (t: &Transcript)
        ensures
            t.spec_view() == self.view().transcript,
    {
        &self.transcript
    }

    /// Return the box what to say is typed into.
    pub fn input(&self) -> (i: &Input)
        ensures
            i.spec_value() == self.view().input,
    {
        &self.input
    }

    /// Return the size of the chat.
    pub fn size(&self) -> (s: Size)
        ensures
            s == self.view().state.size,
    {
        self.size
    }

    /// Return whether there is an inference engine to talk to, once it is known.
    pub fn configured(&self) -> (c: Option<bool>)
        ensures
            c == self.view().state.configured,
    {
        self.configured
    }

    /// Return which chat is being had, once there is one.
    pub fn chat_id(&self) -> (c: Option<i64>)
        ensures
            c == self.view().state.chat_id,
    {
        self.chat_id
    }

    /// Return whether a reply is being waited for.
    pub fn in_progress(&self) -> (p: bool)
        ensures
            p == self.view().state.pending is Some,
    {
        self.pending_request.is_some()
    }

    /// Return what the thinking of the reply waited for is called.
    pub fn thinking_word(&self) -> (w: String)
        ensures
            w@ == thinking_word(self.view().state.thinking_word as int),
    {
        thinking_word_of(self.thinking_word)
    }

    /// Return the request to make when a chat is opened, which asks whether there is an engine.
    pub fn initial_request() -> (r: Request)
        ensures
            r.params == RequestParams::AiStatus,
            is_random_uuid(r.uuid),
    {
        Request::new(RequestParams::AiStatus)
    }

    /// Show a past chat, and return the request for what was said in it.
    pub fn open(&mut self, chat_id: i64) -> (r: Request)
        ensures
            r.params == (RequestParams::GetChat { chat_id }),
            is_random_uuid(r.uuid),
            final(self).view() == (ChatView {
                state: ChatStateView {
                    chat_id: Some(chat_id),
                    pending: None,
                    ..old(self).view().state.forgotten()
                },
                ..old(self).view()
            }),
    {
        self.chat_id = Some(chat_id);
        self.pending_request = None;
        self.forget_reply();
        Request::new(RequestParams::GetChat { chat_id })
    }

    /// Forget how the last reply came along, since it was to another chat.
    fn forget_reply(&mut self)
        ensures
            final(self).view() == (ChatView {
                state: old(self).view().state.forgotten(),
                ..old(self).view()
            }),
    {
        self.replied = false;
        self.tokens = None;
        self.thinking_tokens = None;
        self.thinking = false;
        self.duration = 0;
    }

    /// Start a new chat: nothing is said, and nothing typed.
    pub fn start_new(&mut self)
        ensures
            started_new(old(self).view(), final(self).view()),
            final(self).view().state.size == old(self).view().state.size,
    {
        let none: Vec<(bool, String)> = Vec::new();
        assert(crate::transcript::pair_views(none@) =~= Seq::empty());
        self.transcript.perform(TranscriptAction::Show { messages: none, error: None });
        self.input.handle(InputEvent::Clear);
        self.chat_id = None;
        self.pending_request = None;
        self.forget_reply();
    }

    /// Return how the reply came along, as the footer says it.
    pub fn footer_text(&self) -> (t: String)
        ensures
            t@ == footer_text(self.view().state),
    {
        if !self.replied {
            let t = string_of("");
            proof {
                reveal_strlit("");
            }
            return t;
        }
        let mut t = match self.tokens {
            None => {
                let t = string_of("");
                proof {
                    reveal_strlit("");
                }
                t
            },
            Some(tokens) => {
                let mut t = decimal_string(tokens as u64);
                t.append(" token");
                if tokens != 1 {
                    push_char(&mut t, 's');
                }
                match self.thinking_tokens {
                    Some(thought) if thought > 0 => {
                        t.append(" | ");
                        let n = decimal_string(thought as u64);
                        t.append(n.as_str());
                        t.append(" thinking");
                    },
                    _ => {},
                }
                push_char(&mut t, ' ');
                proof {
                    reveal_strlit(" token");
                    reveal_strlit(" | ");
                    reveal_strlit(" thinking");
                }
                t
            },
        };
        push_char(&mut t, '(');
        let seconds = seconds_string(self.duration);
        t.append(seconds.as_str());
        t.append("s)");
        proof {
            reveal_strlit("s)");
        }
        assert(t@ =~= footer_text(self.view().state));
        t
    }

    /// Read back or forward through what was said.
    fn scroll(&mut self, back: bool, input_rows: usize, transcript_lines: usize) -> (r: Option<Effect>)
        ensures
            scrolled(old(self).view(), final(self).view(), back, input_rows, transcript_lines, r),
    {
        let size = transcript_size_of(self.size, input_rows);
        let ghost before = self.view();
        let ghost resize = TranscriptAction::Resize { size };
        let e1 = self.transcript.perform(TranscriptAction::Resize { size });
        let ghost t = self.transcript.spec_view();
        assert(transcript_performed(before.transcript, t, resize, e1));
        let action = if back {
            TranscriptAction::Up { max: max_offset(transcript_lines, size) }
        } else {
            TranscriptAction::Down
        };
        let ghost a = action;
        assert(a == scroll_action(back, transcript_lines, size));
        let e2 = self.transcript.perform(action);
        assert(transcript_performed(t, self.transcript.spec_view(), a, e2));
        match e2 {
            Some(TranscriptEffect::Bell) => Some(Effect::Bell),
            None => None,
        }
    }

    /// Do what the box asked for.
    fn handle_input_effect(&mut self, effect: Option<InputEffect>) -> (r: Option<Effect>)
        ensures
            input_did(old(self).view(), final(self).view(), effect, r),
    {
        match effect {
            Some(InputEffect::Send { message }) => {
                let request = Request::new(
                    RequestParams::Chat {
                        chat_id: self.chat_id,
                        dir: self.dir.clone(),
                        message: message.clone(),
                    },
                );
                let uuid = request.uuid();
                let ghost before = self.view();
                let ghost said = TranscriptAction::Said { message };
                let e1 = self.transcript.perform(TranscriptAction::Said { message });
                let ghost t = self.transcript.spec_view();
                assert(transcript_performed(before.transcript, t, said, e1));
                let e2 = self.transcript.perform(TranscriptAction::Expect { uuid });
                assert(transcript_performed(t, self.transcript.spec_view(), TranscriptAction::Expect { uuid }, e2));
                self.pending_request = Some(uuid);
                self.replied = true;
                self.tokens = None;
                self.thinking_tokens = None;
                self.thinking = false;
                self.duration = 0;
                // Which word the reply thinks in comes from the request, so that it stays put for
                // the whole of it rather than changing with every piece which arrives.
                self.thinking_word = uuid % THINKING_WORD_COUNT;
                Some(Effect::Request(request))
            },
            Some(InputEffect::Unfocus) => Some(Effect::Quit),
            Some(InputEffect::Bell) => Some(Effect::Bell),
            None => None,
        }
    }

    /// Take in a response from the daemon.
    fn handle_response(&mut self, response: Response) -> (r: Option<Effect>)
        ensures
            responded(old(self).view(), final(self).view(), response, r),
    {
        let uuid = response.uuid;
        let last = response.last;
        let ghost before = self.view();
        match response.params {
            ResponseParams::AiStatus { configured } => {
                self.configured = Some(configured);
                None
            },
            ResponseParams::GetChat { messages, error } => {
                let ghost show = TranscriptAction::Show { messages, error };
                let e = self.transcript.perform(TranscriptAction::Show { messages, error });
                assert(transcript_performed(before.transcript, self.transcript.spec_view(), show, e));
                None
            },
            ResponseParams::Chat { chat_id, delta, error, tokens, thinking_tokens, thinking, duration } => {
                let ghost delta_action = TranscriptAction::Delta { uuid, text: delta, error };
                let e1 = self.transcript.perform(TranscriptAction::Delta { uuid, text: delta, error });
                let ghost t1 = self.transcript.spec_view();
                assert(transcript_performed(before.transcript, t1, delta_action, e1));
                // A reply to a request which was replaced says nothing about the one waited for.
                if self.pending_request == Some(uuid) {
                    if tokens.is_some() {
                        self.tokens = tokens;
                        self.thinking_tokens = thinking_tokens;
                    }
                    self.thinking = thinking;
                    self.duration = duration;
                }
                let word: Option<String> = if thinking {
                    Some(thinking_word_of(self.thinking_word))
                } else {
                    None
                };
                let ghost w = word;
                let e2 = self.transcript.perform(TranscriptAction::Thinking { uuid, word });
                let ghost t2 = self.transcript.spec_view();
                assert(transcript_performed(t1, t2, TranscriptAction::Thinking { uuid, word: w }, e2));
                if last {
                    let e3 = self.transcript.perform(TranscriptAction::Ended { uuid });
                    assert(transcript_performed(t2, self.transcript.spec_view(), TranscriptAction::Ended { uuid }, e3));
                    if self.pending_request == Some(uuid) {
                        self.pending_request = None;
                        // A reply which never got as far as a chat leaves this alone, so that the
                        // next thing said starts one rather than going to a chat which is not
                        // there.
                        if let Some(id) = chat_id {
                            self.chat_id = Some(id);
                        }
                    }
                }
                None
            },
            _ => None,
        }
    }

    /// Handle an event.
    pub fn handle(&mut self, event: Event) -> (r: Option<Effect>)
        ensures
            handled(old(self).view(), final(self).view(), event, r),
    {
        match event {
            Event::Response(response) => self.handle_response(response),
            Event::Resize { size, input_rows } => {
                let ghost before = self.view();
                let ghost resize = TranscriptAction::Resize { size: transcript_size(size, input_rows) };
                let e = self.transcript.perform(
                    TranscriptAction::Resize { size: transcript_size_of(size, input_rows) },
                );
                assert(transcript_performed(before.transcript, self.transcript.spec_view(), resize, e));
                self.size = size;
                None
            },
            Event::Term { event, input_rows, transcript_lines } => {
                // Going to the past chats and moving through what has been said work whatever is
                // being typed, so they are looked for before the box gets a chance at them.
                if let TermEvent::KeyEvent(key_event) = event {
                    if key_event.mods.is_control() {
                        if key_event.key == Key::Char('h') {
                            return Some(Effect::OpenHistory);
                        } else if key_event.key == Key::Char('n') {
                            self.start_new();
                            return None;
                        } else if key_event.key == Key::Char('y') {
                            return self.scroll(true, input_rows, transcript_lines);
                        } else if key_event.key == Key::Char('e') {
                            return self.scroll(false, input_rows, transcript_lines);
                        }
                    }
                }
                let ghost before = self.view();
                let ghost input_event = InputEvent::TermEvent(event);
                let e = self.input.handle(InputEvent::TermEvent(event));
                let ghost typed = self.view();
                assert(input_handled(before.input, typed.input, input_event, e));
                let ghost ge = e;
                let r = self.handle_input_effect(e);
                assert(input_did(typed, self.view(), ge, r));
                r
            },
        }
    }
}


/// A reply which names no chat, such as one which failed before a chat was started, leaves the
/// chat which the next thing said goes in as it was: when none was started, the next thing said
/// starts one rather than going into one which is not there.
pub proof fn law_a_reply_naming_no_chat_leaves_the_chat_as_it_was(
    before: ChatView,
    after: ChatView,
    response: Response,
    r: Option<Effect>,
)
    requires
        handled(before, after, Event::Response(response), r),
        response.params matches ResponseParams::Chat { chat_id, .. } && chat_id is None,
    ensures
        after.state.chat_id == before.state.chat_id,
{
}

} // verus!
