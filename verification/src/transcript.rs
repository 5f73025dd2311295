//! What has been said in a chat, and how far back through it the view has been scrolled.

use vstd::prelude::*;

use crate::keys::Size;

verus! {

/// Something which was said in a chat.
#[derive(Debug, PartialEq, Eq)]
pub enum Message {
    /// What the person using insh said.
    Said(String),
    /// What the inference engine said.
    Heard(String),
}

impl Message {
    /// Who said it (true for the person using insh) and what was said.
    pub open spec fn spec_view(&self) -> (bool, Seq<char>) {
        match self {
            Message::Said(text) => (true, text@),
            Message::Heard(text) => (false, text@),
        }
    }

    /// Return what was said.
    pub fn text(&self) -> (t: &str)
        ensures
            t@ == self.spec_view().1,
    {
        match self {
            Message::Said(text) => text.as_str(),
            Message::Heard(text) => text.as_str(),
        }
    }

    /// Add to what was said.
    pub fn push(&mut self, text: &str)
        ensures
            final(self).spec_view() == (old(self).spec_view().0, old(self).spec_view().1 + text@),
    {
        match self {
            Message::Said(said) => said.append(text),
            Message::Heard(heard) => heard.append(text),
        }
    }
}

/// The messages of a chat, as who said each and what they said.
pub open spec fn message_views(messages: Seq<Message>) -> Seq<(bool, Seq<char>)> {
    messages.map_values(|m: Message| m.spec_view())
}

/// The messages of a chat as they are sent, as who said each and what they said.
pub open spec fn pair_views(messages: Seq<(bool, String)>) -> Seq<(bool, Seq<char>)> {
    messages.map_values(|m: (bool, String)| (m.0, m.1@))
}

/// The view of some text which may not be there.
pub open spec fn text_view(s: Option<String>) -> Option<Seq<char>> {
    match s {
        Some(s) => Some(s@),
        None => None,
    }
}

/// A transcript effect.
#[derive(Debug, PartialEq, Eq)]
pub enum Effect {
    /// Ring the bell.
    Bell,
}

/// A transcript action.
pub enum Action {
    /// Show the messages of a chat which was opened.
    Show {
        /// The messages, the oldest first, each with whether it was said by the person using
        /// insh.
        messages: Vec<(bool, String)>,
        /// What went wrong reading the chat, if anything did.
        error: Option<String>,
    },
    /// Record something which was said.
    Said {
        /// What was said.
        message: String,
    },
    /// Expect a reply.
    Expect {
        /// The identifier of the request the reply is to.
        uuid: u128,
    },
    /// Add a piece of a reply.
    Delta {
        /// The identifier of the request the reply is to.
        uuid: u128,
        /// The text which arrived.
        text: String,
        /// What went wrong, if anything did.
        error: Option<String>,
    },
    /// Finish a reply.
    Ended {
        /// The identifier of the request the reply was to.
        uuid: u128,
    },
    /// Take note of the engine starting or stopping thinking.
    Thinking {
        /// The identifier of the request the reply is to.
        uuid: u128,
        /// What to call what it is doing, or nothing when it is no longer doing it.
        word: Option<String>,
    },
    /// Scroll back through the transcript.
    Up {
        /// How far back the view is allowed to go.
        max: usize,
    },
    /// Scroll forward through the transcript.
    Down,
    /// The transcript was resized.
    Resize {
        /// The new size.
        size: Size,
    },
}

/// The state of the transcript.
pub struct State {
    /// What has been said, the oldest first.
    messages: Vec<Message>,
    /// The request whose reply is being waited for.
    pending_request: Option<u128>,
    /// What went wrong, if anything did.
    error: Option<String>,
    /// What the engine is up to before it answers, while it is up to it.
    thinking: Option<String>,
    /// How many lines back from the newest the view is.
    offset: usize,
    /// The size the transcript was last drawn at, which is what bounds the scrolling.
    size: Size,
}

/// What the state of a transcript is seen as: who said what, the request waited for, what went
/// wrong, what the engine is up to, how far back the view is, and the size it was drawn at.
pub struct StateView {
    /// Who said what, the oldest first.
    pub messages: Seq<(bool, Seq<char>)>,
    /// The request whose reply is being waited for.
    pub pending: Option<u128>,
    /// What went wrong, if anything did.
    pub error: Option<Seq<char>>,
    /// What the engine is up to, while it is up to it.
    pub thinking: Option<Seq<char>>,
    /// How many lines back from the newest the view is.
    pub offset: usize,
    /// The size the transcript was last drawn at.
    pub size: Size,
}

/// What performing an action does to the state of a transcript, and what it gives back.
pub open spec fn performed(before: StateView, after: StateView, action: Action, r: Option<Effect>) -> bool {
    match action {
        Action::Show { messages, error } => r is None && after == StateView {
            messages: pair_views(messages@),
            pending: None,
            error: text_view(error),
            thinking: None,
            offset: 0,
            ..before
        },
        Action::Said { message } => r is None && after == StateView {
            messages: before.messages.push((true, message@)),
            error: None,
            offset: 0,
            ..before
        },
        // The reply is added to as it arrives, so there has to be something to add to.
        Action::Expect { uuid } => r is None && after == StateView {
            messages: before.messages.push((false, Seq::<char>::empty())),
            pending: Some(uuid),
            thinking: None,
            offset: 0,
            ..before
        },
        // A reply to a request which was replaced is no longer wanted.
        Action::Delta { uuid, text, error } => r is None && if before.pending != Some(uuid) {
            after == before
        } else {
            after == StateView {
                messages: if before.messages.len() > 0 {
                    before.messages.update(
                        before.messages.len() - 1,
                        (before.messages.last().0, before.messages.last().1 + text@),
                    )
                } else {
                    before.messages
                },
                error: if error is Some { text_view(error) } else { before.error },
                offset: 0,
                ..before
            }
        },
        Action::Ended { uuid } => r is None && if before.pending == Some(uuid) {
            after == StateView { pending: None, thinking: None, ..before }
        } else {
            after == before
        },
        Action::Thinking { uuid, word } => r is None && if before.pending == Some(uuid) {
            after == StateView { thinking: text_view(word), ..before }
        } else {
            after == before
        },
        Action::Up { max } => if before.offset >= max {
            r == Some(Effect::Bell) && after == before
        } else {
            r is None && after == StateView { offset: (before.offset + 1) as usize, ..before }
        },
        Action::Down => if before.offset == 0 {
            r == Some(Effect::Bell) && after == before
        } else {
            r is None && after == StateView { offset: (before.offset - 1) as usize, ..before }
        },
        Action::Resize { size } => r is None && after == StateView { size, ..before },
    }
}

impl State {
    /// What the state is seen as.
    pub closed spec fn spec_view(&self) -> StateView {
        StateView {
            messages: message_views(self.messages@),
            pending: self.pending_request,
            error: text_view(self.error),
            thinking: text_view(self.thinking),
            offset: self.offset,
            size: self.size,
        }
    }

    /// Return an empty transcript, not scrolled, of no size.
    pub fn new() -> (s: State)
        ensures
            s.spec_view() == (StateView {
                messages: Seq::empty(),
                pending: None,
                error: None,
                thinking: None,
                offset: 0,
                size: Size { rows: 0, columns: 0 },
            }),
    {
        let s = State {
            messages: Vec::new(),
            pending_request: None,
            error: None,
            thinking: None,
            offset: 0,
            size: Size { rows: 0, columns: 0 },
        };
        assert(message_views(s.messages@) =~= Seq::empty());
        s
    }

    /// Return the size the transcript was last drawn at.
    pub fn size(&self) -> (s: Size)
        ensures
            s == self.spec_view().size,
    {
        self.size
    }

    /// Return what has been said.
    pub fn messages(&self) -> (m: &Vec<Message>)
        ensures
            message_views(m@) == self.spec_view().messages,
    {
        &self.messages
    }

    /// Return what went wrong, if anything did.
    pub fn error(&self) -> (e: Option<&String>)
        ensures
            match e {
                Some(e) => self.spec_view().error == Some(e@),
                None => self.spec_view().error is None,
            },
    {
        match &self.error {
            Some(e) => Some(e),
            None => None,
        }
    }

    /// Return what the engine is up to before it answers, while it is up to it.
    pub fn thinking(&self) -> (t: Option<&String>)
        ensures
            match t {
                Some(t) => self.spec_view().thinking == Some(t@),
                None => self.spec_view().thinking is None,
            },
    {
        match &self.thinking {
            Some(t) => Some(t),
            None => None,
        }
    }

    /// Return how many lines back from the newest the view is.
    pub fn offset(&self) -> (o: usize)
        ensures
            o == self.spec_view().offset,
    {
        self.offset
    }

    /// Perform an action on the transcript.
    pub fn perform(&mut self, action: Action) -> (r: Option<Effect>)
        ensures
            performed(old(self).spec_view(), final(self).spec_view(), action, r),
    {
        match action {
            Action::Show { messages, error } => {
                self.thinking = None;
                let mut shown: Vec<Message> = Vec::new();
                let mut i: usize = 0;
                while i < messages.len()
                    invariant
                        i <= messages.len(),
                        message_views(shown@) == pair_views(messages@.take(i as int)),
                    decreases messages.len() - i,
                {
                    let text = messages[i].1.clone();
                    let message = if messages[i].0 { Message::Said(text) } else { Message::Heard(text) };
                    shown.push(message);
                    assert(pair_views(messages@.take(i + 1)) =~= pair_views(messages@.take(i as int)).push(
                        (messages@[i as int].0, messages@[i as int].1@),
                    ));
                    assert(message_views(shown@) =~= message_views(shown@.drop_last()).push(
                        shown@.last().spec_view(),
                    ));
                    i = i + 1;
                }
                assert(messages@.take(messages.len() as int) =~= messages@);
                self.messages = shown;
                self.pending_request = None;
                self.error = error;
                self.offset = 0;
                None
            },
            Action::Said { message } => {
                let ghost before = self.messages@;
                self.messages.push(Message::Said(message));
                assert(message_views(self.messages@) =~= message_views(before).push((true, message@)));
                self.error = None;
                self.offset = 0;
                None
            },
            Action::Expect { uuid } => {
                self.pending_request = Some(uuid);
                self.thinking = None;
                let ghost before = self.messages@;
                self.messages.push(Message::Heard(String::new()));
                assert(message_views(self.messages@) =~= message_views(before).push(
                    (false, Seq::<char>::empty()),
                ));
                self.offset = 0;
                None
            },
            Action::Delta { uuid, text, error } => {
                if self.pending_request != Some(uuid) {
                    return None;
                }
                let n = self.messages.len();
                if n > 0 {
                    let ghost before = self.messages@;
                    let mut last = self.messages.pop().unwrap();
                    last.push(text.as_str());
                    self.messages.push(last);
                    assert(message_views(self.messages@) =~= message_views(before).update(
                        n - 1,
                        (message_views(before).last().0, message_views(before).last().1 + text@),
                    ));
                }
                if error.is_some() {
                    self.error = error;
                }
                self.offset = 0;
                None
            },
            Action::Ended { uuid } => {
                if self.pending_request == Some(uuid) {
                    self.pending_request = None;
                    // Whatever it was up to, it is not up to it any more.
                    self.thinking = None;
                }
                None
            },
            Action::Thinking { uuid, word } => {
                if self.pending_request == Some(uuid) {
                    self.thinking = word;
                }
                None
            },
            Action::Up { max } => {
                if self.offset >= max {
                    return Some(Effect::Bell);
                }
                self.offset = self.offset + 1;
                None
            },
            Action::Resize { size } => {
                self.size = size;
                None
            },
            Action::Down => {
                if self.offset == 0 {
                    return Some(Effect::Bell);
                }
                self.offset = self.offset - 1;
                None
            },
        }
    }
}

/// How far back the view of a transcript can go: however many lines there are beyond the ones
/// which fit, so that scrolling stops with the oldest line at the top rather than carrying on
/// into nothing. Nothing is shown at a width of nothing, so there is nothing to scroll then.
pub open spec fn spec_max_offset(lines: nat, size: Size) -> nat {
    if size.columns == 0 || lines <= size.rows {
        0
    } else {
        (lines - size.rows) as nat
    }
}

/// Return how far back the view of a transcript with some number of lines can go.
pub fn max_offset(lines: usize, size: Size) -> (m: usize)
    ensures
        m == spec_max_offset(lines as nat, size),
{
    if size.columns == 0 {
        return 0;
    }
    lines.saturating_sub(size.rows)
}

/// The lines which are shown of a transcript, from the first to just past the last.
///
/// The newest is what matters, so the view sits at the bottom unless it was scrolled. How far
/// back it has been scrolled is held to what there is to scroll, which is not the same as what it
/// was when the scrolling happened: the box which what to say is typed into grows as it is typed
/// in, and takes these rows as it does.
pub open spec fn spec_window(lines: nat, rows: nat, offset: nat) -> (nat, nat) {
    let most = if lines > rows { (lines - rows) as nat } else { 0 };
    let offset = if offset < most { offset } else { most };
    let end = (lines - offset) as nat;
    let start = if end > rows { (end - rows) as nat } else { 0 };
    (start, end)
}

/// Return the lines which are shown of a transcript with some number of lines, drawn in some
/// number of rows, scrolled back some number of lines.
pub fn window(lines: usize, rows: usize, offset: usize) -> (w: (usize, usize))
    ensures
        (w.0 as nat, w.1 as nat) == spec_window(lines as nat, rows as nat, offset as nat),
        w.0 <= w.1 <= lines,
{
    let offset: usize = if offset < lines.saturating_sub(rows) { offset } else { lines.saturating_sub(rows) };
    let end: usize = lines - offset;
    let start: usize = end.saturating_sub(rows);
    (start, end)
}

/// What has been said never goes missing: however far back the view was scrolled, and whatever
/// size the scrolling was bounded by, a transcript with lines in it drawn in some rows shows at
/// least one of them, and never more than fit.
pub proof fn law_what_was_said_never_goes_missing(lines: nat, rows: nat, offset: nat)
    requires
        lines > 0,
        rows > 0,
    ensures
        spec_window(lines, rows, offset).0 < spec_window(lines, rows, offset).1 <= lines,
        spec_window(lines, rows, offset).1 - spec_window(lines, rows, offset).0 <= rows,
{
}

/// Scrolling back stops with the oldest line at the top, not past it: a view which is not past
/// how far back it can go is still not past it after scrolling back, whether it moved or rang
/// the bell.
pub proof fn law_scrolling_back_stops(before: StateView, after: StateView, max: usize, r: Option<Effect>)
    requires
        before.offset <= max,
        performed(before, after, Action::Up { max }, r),
    ensures
        after.offset <= max,
        r is None <==> before.offset < max,
        r is None ==> after.offset == before.offset + 1,
{
}


/// Scrolled back as far as it goes, the view has the oldest line at the top: however many rows
/// it is drawn in, a view scrolled back at least as far as there are lines beyond those rows
/// starts at the first line, and shows as many lines as fit.
pub proof fn law_scrolled_back_the_oldest_line_is_at_the_top(lines: nat, rows: nat, offset: nat)
    requires
        offset + rows >= lines,
    ensures
        spec_window(lines, rows, offset).0 == 0,
        spec_window(lines, rows, offset).1 == if lines > rows { rows } else { lines },
{
}

} // verus!
